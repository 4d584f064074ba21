use o365_cli::app::{App, AppAction, AuthStatus, CurrentTab, Focus, Key};
use o365_cli::export::{export_csv, export_file_name, write_csv_cell, write_csv_line};
use o365_cli::profile::{profile_from_claims, profile_from_token, read_claims, Claims, UserProfile};
use o365_cli::runner::TaskOutput;

fn strings(items: &[&str]) -> Vec<String> {
    items.iter().map(|s| s.to_string()).collect()
}

fn profile() -> UserProfile {
    UserProfile {
        name: "Ada".to_string(),
        email: "ada@contoso.com".to_string(),
        tenant_id: "tenant-1".to_string(),
        scopes: strings(&["User.Read"]),
        last_login: "Now".to_string(),
    }
}

fn output() -> TaskOutput {
    let mut out = TaskOutput::new();
    out.headers = strings(&["Name", "Note"]);
    out.rows = vec![strings(&["a", "plain"]), strings(&["b,c", "say \"hi\""])];
    out
}

fn token(claims: &str) -> String {
    let value: serde_json::Value = serde_json::from_str(claims).unwrap();
    jsonwebtoken::encode(
        &jsonwebtoken::Header::new(jsonwebtoken::Algorithm::HS256),
        &value,
        &jsonwebtoken::EncodingKey::from_secret(b"k"),
    )
    .unwrap()
}

#[test]
fn app_starts_on_the_security_tab() {
    let app = App::new(None);
    assert_eq!(app.current_tab, CurrentTab::Security);
    assert_eq!(app.focus, Focus::Menu);
    assert!(!app.should_quit);
    assert!(app.dry_run);
    assert!(!app.is_loading);
    assert_eq!(app.tenant_id, "Not Connected");
    assert_eq!(app.logs, strings(&["Welcome to Office 365 Toolset", "Initializing TUI..."]));
    assert_eq!(app.logs_state.selected, None);
    assert!(matches!(app.auth_status, AuthStatus::Unknown));
    let with = App::new(Some(profile()));
    assert_eq!(with.logs, strings(&["Welcome to Office 365 Toolset", "Loaded existing user profile."]));
    assert!(with.user_profile.is_some());
}

#[test]
fn quit_keys() {
    for key in [Key::Char('q'), Key::Esc] {
        let mut app = App::new(None);
        assert!(app.on_key(key).is_none());
        assert!(app.should_quit);
    }
}

#[test]
fn focus_moves_between_panes() {
    let mut app = App::new(None);
    app.on_key(Key::Right);
    assert_eq!(app.focus, Focus::Content);
    app.on_key(Key::Left);
    assert_eq!(app.focus, Focus::Menu);
    app.on_key(Key::Tab);
    assert_eq!(app.focus, Focus::Content);
    app.on_key(Key::Tab);
    assert_eq!(app.focus, Focus::Logs);
    app.on_key(Key::Tab);
    assert_eq!(app.focus, Focus::Menu);
    app.on_key(Key::BackTab);
    assert_eq!(app.focus, Focus::Logs);
    app.on_key(Key::BackTab);
    assert_eq!(app.focus, Focus::Content);
    app.on_key(Key::Char('h'));
    assert_eq!(app.focus, Focus::Menu);
    app.on_key(Key::Enter);
    assert_eq!(app.focus, Focus::Content);
}

#[test]
fn tabs_cycle_from_the_menu() {
    let mut app = App::new(None);
    app.on_key(Key::Down);
    assert_eq!(app.current_tab, CurrentTab::IAM);
    app.on_key(Key::Char('j'));
    assert_eq!(app.current_tab, CurrentTab::Settings);
    app.on_key(Key::Down);
    assert_eq!(app.current_tab, CurrentTab::Security);
    app.on_key(Key::Up);
    assert_eq!(app.current_tab, CurrentTab::Settings);
    app.on_key(Key::Char('k'));
    assert_eq!(app.current_tab, CurrentTab::IAM);
    app.on_key(Key::Char('3'));
    assert_eq!(app.current_tab, CurrentTab::Settings);
    app.on_key(Key::Char('1'));
    assert_eq!(app.current_tab, CurrentTab::Security);
    app.next_tab();
    app.previous_tab();
    assert_eq!(app.current_tab, CurrentTab::Security);
}

#[test]
fn content_selection_stays_in_range() {
    let mut app = App::new(None);
    app.on_key(Key::Char('2'));
    app.on_key(Key::Right);
    for _ in 0..5 {
        app.on_key(Key::Down);
    }
    assert_eq!(app.iam_index, 2);
    for _ in 0..5 {
        app.on_key(Key::Up);
    }
    assert_eq!(app.iam_index, 0);
    app.on_key(Key::Char('1'));
    app.on_key(Key::Right);
    app.on_key(Key::Down);
    app.on_key(Key::Down);
    assert_eq!(app.security_index, 1);
    assert_eq!(app.settings_index, 0);
}

#[test]
fn log_selection_scrolls() {
    let mut app = App::new(None);
    app.focus = Focus::Logs;
    app.on_key(Key::Up);
    assert_eq!(app.logs_state.selected, Some(1));
    app.on_key(Key::Up);
    app.on_key(Key::Up);
    assert_eq!(app.logs_state.selected, Some(0));
    app.on_key(Key::Down);
    assert_eq!(app.logs_state.selected, Some(0));
    app.scroll_logs_down();
    assert_eq!(app.logs_state.selected, Some(1));
    app.scroll_logs_down();
    assert_eq!(app.logs_state.selected, Some(1));
    let mut empty = App::new(None);
    empty.logs.clear();
    empty.scroll_logs_up();
    assert_eq!(empty.logs_state.selected, Some(0));
    empty.logs_state.selected = None;
    empty.scroll_logs_down();
    assert_eq!(empty.logs_state.selected, Some(0));
}

#[test]
fn shadow_it_entry_queues_a_task() {
    let mut app = App::new(None);
    app.on_key(Key::Right);
    match app.on_key(Key::Enter) {
        Some(AppAction::RunTask { name, args }) => {
            assert_eq!(name, "sec:shadow-it");
            assert_eq!(args, strings(&["--dry-run", "true"]));
        }
        other => panic!("unexpected action: {:?}", other),
    }
    assert_eq!(app.logs.last().unwrap(), "Queueing: Shadow IT Audit (Dry Run)...");
    app.dry_run = false;
    match app.on_key(Key::Char(' ')) {
        Some(AppAction::RunTask { args, .. }) => assert_eq!(args, strings(&["--dry-run", "false"])),
        other => panic!("unexpected action: {:?}", other),
    }
    assert_eq!(app.logs.last().unwrap(), "Queueing: Shadow IT Remediation (LIVE)...");
}

#[test]
fn entries_that_are_not_implemented_only_log() {
    let mut app = App::new(None);
    app.focus = Focus::Content;
    app.security_index = 1;
    assert!(app.on_key(Key::Enter).is_none());
    assert_eq!(app.logs.last().unwrap(), "Not Implemented: Surgical Lockdown");
    app.current_tab = CurrentTab::IAM;
    assert!(app.execute_action().is_none());
    assert_eq!(app.logs.last().unwrap(), "Not Implemented: Graceful Offboarding");
    app.iam_index = 1;
    assert!(app.execute_action().is_none());
    assert_eq!(app.logs.last().unwrap(), "Not Implemented: Guest User Cleanup");
    app.iam_index = 2;
    match app.execute_action() {
        Some(AppAction::RunTask { name, args }) => {
            assert_eq!(name, "iam:test");
            assert!(args.is_empty());
        }
        other => panic!("unexpected action: {:?}", other),
    }
    assert_eq!(app.logs.last().unwrap(), "Queueing: Test Connectivity...");
    app.iam_index = 7;
    let before = app.logs.len();
    assert!(app.execute_action().is_none());
    assert_eq!(app.logs.len(), before);
}

#[test]
fn settings_entries() {
    let mut app = App::new(None);
    app.on_key(Key::Char('3'));
    app.on_key(Key::Right);
    assert!(matches!(app.on_key(Key::Enter), Some(AppAction::ToggleDryRun)));
    assert!(!app.dry_run);
    assert_eq!(app.logs.last().unwrap(), "Action: Dry Run set to false");
    assert!(matches!(app.on_key(Key::Enter), Some(AppAction::ToggleDryRun)));
    assert!(app.dry_run);
    assert_eq!(app.logs.last().unwrap(), "Action: Dry Run set to true");
    app.on_key(Key::Down);
    assert!(matches!(app.on_key(Key::Enter), Some(AppAction::Login)));
}

#[test]
fn keys_while_results_are_on_show() {
    for key in [Key::Esc, Key::Backspace, Key::Char('q')] {
        let mut app = App::new(None);
        app.task_output = Some(output());
        assert!(matches!(app.on_key(key), Some(AppAction::BackToMenu)));
        assert!(!app.should_quit);
        assert!(app.task_output.is_some());
    }
    for key in [Key::Char('e'), Key::Char('E')] {
        let mut app = App::new(None);
        app.task_output = Some(output());
        assert!(matches!(app.on_key(key), Some(AppAction::ExportResults)));
    }
    for key in [Key::Down, Key::Enter, Key::Right, Key::Char('x'), Key::Other, Key::BackTab] {
        let mut app = App::new(None);
        app.task_output = Some(output());
        assert!(app.on_key(key).is_none());
        assert_eq!(app.focus, Focus::Menu);
        assert_eq!(app.current_tab, CurrentTab::Security);
        assert!(app.task_output.is_some());
    }
    let mut app = App::new(None);
    app.task_output = Some(output());
    app.on_key(Key::Tab);
    assert_eq!(app.focus, Focus::Content);
    assert!(app.task_output.is_some());
    app.on_key(Key::Char('2'));
    assert_eq!(app.current_tab, CurrentTab::IAM);
    assert!(app.task_output.is_none());
}

#[test]
fn ticks_and_other_keys_change_nothing() {
    let mut app = App::new(None);
    app.on_tick();
    assert!(app.on_key(Key::Other).is_none());
    assert!(app.on_key(Key::Char('z')).is_none());
    assert!(app.on_key(Key::Left).is_none());
    assert_eq!(app.focus, Focus::Menu);
    assert_eq!(app.logs.len(), 2);
}

#[test]
fn session_check() {
    let mut app = App::new(None);
    assert_eq!(app.begin_session_check(), None);
    assert_eq!(app.logs.len(), 2);
    let mut app = App::new(Some(profile()));
    assert_eq!(app.begin_session_check(), Some("tenant-1".to_string()));
    assert!(matches!(app.auth_status, AuthStatus::Checking));
    assert_eq!(app.logs.last().unwrap(), "\u{1f504} Verifying Session...");
    app.finish_session_check(None);
    assert!(matches!(&app.auth_status, AuthStatus::Valid(s) if s == "Active"));
    assert_eq!(app.logs.last().unwrap(), "\u{2705} Session Verified");
    app.finish_session_check(Some("expired".to_string()));
    assert!(matches!(&app.auth_status, AuthStatus::Invalid(s) if s == "expired"));
    assert!(app.user_profile.is_none());
    assert_eq!(app.logs.last().unwrap(), "\u{26a0}\u{fe0f} Session Expired: expired");
}

#[test]
fn login_tenant_defaults_to_common() {
    let mut app = App::new(None);
    assert_eq!(app.begin_login(), "common");
    assert!(app.is_loading);
    assert_eq!(app.logs.last().unwrap(), "\u{1f680} Authenticating with tenant: common...");
    app.tenant_id = String::new();
    assert_eq!(app.begin_login(), "common");
    app.tenant_id = "tenant-9".to_string();
    assert_eq!(app.begin_login(), "tenant-9");
    assert_eq!(app.logs.last().unwrap(), "\u{1f680} Authenticating with tenant: tenant-9...");
    app.fail_login("denied");
    assert!(!app.is_loading);
    assert_eq!(app.logs.last().unwrap(), "\u{274c} Login Failed: denied");
}

#[test]
fn login_token_gives_the_profile() {
    let mut app = App::new(None);
    app.begin_login();
    let t = token(
        r#"{"exp":4102444800,"name":"Ada","preferred_username":"ada@contoso.com","upn":"u@x","tid":"tenant-1","iat":1431648000,"scp":"User.Read  Directory.ReadWrite.All"}"#,
    );
    let p = app.take_login_token(&t).expect("the token gives a profile");
    assert_eq!(app.logs.last().unwrap(), "\u{2705} Login Successful!");
    assert!(app.is_loading);
    assert_eq!(p.name, "Ada");
    assert_eq!(p.email, "ada@contoso.com");
    assert_eq!(p.tenant_id, "tenant-1");
    assert_eq!(p.scopes, strings(&["User.Read", "Directory.ReadWrite.All"]));
    assert_eq!(p.last_login, "2015-05-15 00:00:00 UTC");
    app.keep_profile(p, Some("disk full".to_string()));
    assert!(!app.is_loading);
    assert_eq!(app.tenant_id, "tenant-1");
    assert!(app.user_profile.is_some());
    let n = app.logs.len();
    assert_eq!(app.logs[n - 2], "\u{26a0}\u{fe0f} Failed to save profile: disk full");
    assert_eq!(app.logs[n - 1], "\u{1f4c4} Token Decoded: User Profile Updated & Saved");
}

#[test]
fn unreadable_token_ends_the_login() {
    let mut app = App::new(None);
    app.begin_login();
    assert!(app.take_login_token("not-a-token").is_none());
    assert!(!app.is_loading);
    assert!(app.logs.last().unwrap().starts_with("\u{26a0}\u{fe0f} Failed to parse token claims: "));
    assert!(app.user_profile.is_none());
}

#[test]
fn profile_placeholders() {
    let p = profile_from_token(&token(r#"{"exp":4102444800}"#)).unwrap();
    assert_eq!(p.name, "Unknown User");
    assert_eq!(p.email, "No Email");
    assert_eq!(p.tenant_id, "Unknown Tenant");
    assert!(p.scopes.is_empty());
    assert_eq!(p.last_login, "Now");
    let p = profile_from_token(&token(r#"{"exp":1,"upn":"u@x","name":null,"iat":0}"#)).unwrap();
    assert_eq!(p.email, "u@x");
    assert_eq!(p.name, "Unknown User");
    assert_eq!(p.last_login, "1970-01-01 00:00:00 UTC");
}

#[test]
fn claims_of_a_wrong_type_are_refused() {
    assert_eq!(
        profile_from_token(&token(r#"{"exp":4102444800,"name":5}"#)).unwrap_err(),
        "invalid claims"
    );
    assert!(profile_from_token(&token(r#"{"exp":4102444800,"iat":"soon"}"#)).is_err());
    assert!(profile_from_token(&token(r#"{"exp":4102444800,"iat":1.5}"#)).is_err());
    assert!(profile_from_token(&token(r#"{"name":"no expiry"}"#)).is_err());
    let value: serde_json::Value = serde_json::from_str("[1]").unwrap();
    assert!(read_claims(&value).is_none());
    let value: serde_json::Value = serde_json::from_str(r#"{"tid":"t","scp":null}"#).unwrap();
    let claims = read_claims(&value).unwrap();
    assert_eq!(claims.tid, Some("t".to_string()));
    assert_eq!(claims.scp, None);
}

#[test]
fn moment_out_of_range_is_an_invalid_date() {
    let claims = Claims {
        name: None,
        preferred_username: None,
        upn: None,
        tid: None,
        iat: Some(i64::MAX),
        scp: Some(" a\tb ".to_string()),
    };
    let p = profile_from_claims(claims);
    assert_eq!(p.last_login, "Invalid Date");
    assert_eq!(p.scopes, strings(&["a", "b"]));
}

#[test]
fn task_results() {
    let mut app = App::new(None);
    app.begin_task();
    assert!(app.is_loading);
    app.note_task_running("iam:test");
    assert_eq!(app.logs.last().unwrap(), "\u{1f680} Running Task: iam:test");
    app.finish_task(Ok(output()));
    assert!(!app.is_loading);
    assert!(app.task_output.is_some());
    assert_eq!(app.logs.last().unwrap(), "\u{2705} Task Completed Successfully");
    app.back_to_menu();
    assert!(app.task_output.is_none());
    assert_eq!(app.logs.last().unwrap(), "\u{1f519} Returned to Menu");
    app.begin_task();
    app.finish_task(Err("Worker Error: boom".to_string()));
    assert!(!app.is_loading);
    assert!(app.task_output.is_none());
    assert_eq!(app.logs.last().unwrap(), "\u{274c} Task Failed: Worker Error: boom");
    app.begin_task();
    app.fail_task_auth("No credentials found.");
    assert!(!app.is_loading);
    assert_eq!(app.logs.last().unwrap(), "\u{274c} Auth Error: No credentials found.");
}

#[test]
fn export_of_results() {
    let mut app = App::new(None);
    assert_eq!(app.prepare_export("20240101-120000"), None);
    app.finish_export(None);
    assert_eq!(app.logs.last().unwrap(), "\u{26a0}\u{fe0f} No results to export");
    app.task_output = Some(output());
    let (file, text) = app.prepare_export("20240101-120000").unwrap();
    assert_eq!(file, "export_results_20240101-120000.csv");
    assert_eq!(text, "Name,Note\na,plain\n\"b,c\",\"say \"\"hi\"\"\"\n");
    app.finish_export(Some(Ok(file)));
    assert_eq!(app.logs.last().unwrap(), "\u{1f4be} Exported to export_results_20240101-120000.csv");
    app.finish_export(Some(Err("read-only".to_string())));
    assert_eq!(app.logs.last().unwrap(), "\u{274c} Failed to export: read-only");
}

#[test]
fn csv_cells_and_lines() {
    assert_eq!(write_csv_cell("plain"), "plain");
    assert_eq!(write_csv_cell(""), "");
    assert_eq!(write_csv_cell("a,b"), "\"a,b\"");
    assert_eq!(write_csv_cell("\""), "\"\"\"\"");
    assert_eq!(write_csv_cell("line\nbreak"), "line\nbreak");
    assert_eq!(write_csv_line(&strings(&["a", "b,c", ""])), "a,\"b,c\",\n");
    assert_eq!(write_csv_line(&strings(&[])), "\n");
    assert_eq!(export_file_name("t"), "export_results_t.csv");
    let mut out = TaskOutput::new();
    assert_eq!(export_csv(&out), "");
    out.rows = vec![strings(&["x"])];
    assert_eq!(export_csv(&out), "x\n");
    out.headers = strings(&["h,1"]);
    assert_eq!(export_csv(&out), "h,1\nx\n");
}
