use o365_cli::app::{App, AuthStatus, CurrentTab, Focus};
use o365_cli::interactive::{
    choose_iam, choose_main, choose_security, handle_iam_menu, handle_security_menu, iam_menu,
    main_menu, security_menu, IamChoice, MainChoice, SecurityChoice,
};
use o365_cli::profile::UserProfile;
use o365_cli::runner::TaskOutput;
use o365_cli::text::get_second_field;
use o365_cli::ui::{render, MainPane, StatusTone};

fn strings(items: &[&str]) -> Vec<String> {
    items.iter().map(|s| s.to_string()).collect()
}

#[test]
fn screen_at_the_start() {
    let screen = render(&App::new(None));
    assert_eq!(screen.menu, strings(&["1. Security", "2. IAM", "3. Settings"]));
    assert_eq!(screen.menu_selected, 0);
    assert_eq!(screen.focus, Focus::Menu);
    assert_eq!(
        screen.help,
        " <Tab> Switch Focus | <h/j/k/l> Navigate | <Enter> Select | <q> Quit "
    );
    assert_eq!(screen.status, "Auth: Unknown");
    assert_eq!(screen.status_tone, StatusTone::Muted);
    match screen.pane {
        MainPane::Entries { list } => {
            assert_eq!(list.title, "Security Modules");
            assert_eq!(
                list.items,
                strings(&[
                    "\u{1f575}\u{fe0f}  Shadow IT: Governance (Dry Run)",
                    "\u{1f6a8} Surgical Lockdown"
                ])
            );
            assert_eq!(list.selected, 0);
        }
        other => panic!("unexpected pane: {:?}", other),
    }
}

#[test]
fn security_entry_shows_live_remediation() {
    let mut app = App::new(None);
    app.dry_run = false;
    app.security_index = 1;
    match render(&app).pane {
        MainPane::Entries { list } => {
            assert_eq!(list.items[0], "\u{1f528} Shadow IT: Governance (LIVE REMEDIATION)");
            assert_eq!(list.selected, 1);
        }
        other => panic!("unexpected pane: {:?}", other),
    }
}

#[test]
fn iam_pane() {
    let mut app = App::new(None);
    app.current_tab = CurrentTab::IAM;
    app.iam_index = 2;
    let screen = render(&app);
    assert_eq!(screen.menu_selected, 1);
    match screen.pane {
        MainPane::Entries { list } => {
            assert_eq!(list.title, "IAM Modules");
            assert_eq!(
                list.items,
                strings(&[
                    "\u{1f44b} Graceful Offboarding",
                    "\u{1f9f9} Guest User Cleanup",
                    "\u{1f9ea} Test Connectivity"
                ])
            );
            assert_eq!(list.selected, 2);
        }
        other => panic!("unexpected pane: {:?}", other),
    }
}

#[test]
fn settings_pane_without_a_profile() {
    let mut app = App::new(None);
    app.current_tab = CurrentTab::Settings;
    let screen = render(&app);
    assert_eq!(screen.menu_selected, 2);
    match screen.pane {
        MainPane::Settings { title, info, heading_at, actions } => {
            assert_eq!(title, "Configuration");
            assert_eq!(
                info,
                strings(&[
                    "Tenant ID:      [Not Connected]",
                    "",
                    "Please log in to view full context."
                ])
            );
            assert_eq!(heading_at, None);
            assert_eq!(actions.title, "Actions");
            assert_eq!(
                actions.items,
                strings(&["Dry Run:        [Enabled]", "\u{1f510} Login / Re-authenticate"])
            );
        }
        other => panic!("unexpected pane: {:?}", other),
    }
}

#[test]
fn settings_pane_with_a_profile() {
    let mut app = App::new(Some(UserProfile {
        name: "Ada".to_string(),
        email: "ada@contoso.com".to_string(),
        tenant_id: "tenant-1".to_string(),
        scopes: strings(&["User.Read", "offline_access"]),
        last_login: "2015-05-15 00:00:00 UTC".to_string(),
    }));
    app.current_tab = CurrentTab::Settings;
    app.dry_run = false;
    app.settings_index = 1;
    match render(&app).pane {
        MainPane::Settings { title, info, heading_at, actions } => {
            assert_eq!(title, "Configuration (Logged In: Ada)");
            assert_eq!(
                info,
                strings(&[
                    "Tenant ID:      tenant-1",
                    "Tenant Name:    contoso.com",
                    "Delegate User:  Ada",
                    "Auth Date:      2015-05-15 00:00:00 UTC",
                    "",
                    "Granted Scopes:",
                    "  - User.Read",
                    "  - offline_access"
                ])
            );
            assert_eq!(heading_at, Some(5));
            assert_eq!(info[5], "Granted Scopes:");
            assert_eq!(actions.items[0], "Dry Run:        [Disabled]");
            assert_eq!(actions.selected, 1);
        }
        other => panic!("unexpected pane: {:?}", other),
    }
}

#[test]
fn domain_of_an_address() {
    assert_eq!(get_second_field("ada@contoso.com", '@'), Some("contoso.com".to_string()));
    assert_eq!(get_second_field("a@b@c", '@'), Some("b".to_string()));
    assert_eq!(get_second_field("ada@", '@'), Some(String::new()));
    assert_eq!(get_second_field("no-at-sign", '@'), None);
    assert_eq!(get_second_field("", '@'), None);
    for s in ["x@y", "@", "a@@b", "plain", "@lead"] {
        assert_eq!(get_second_field(s, '@'), s.split('@').nth(1).map(String::from));
    }
}

#[test]
fn results_on_show() {
    let mut app = App::new(None);
    let mut out = TaskOutput::new();
    app.task_output = Some(out.clone());
    assert!(matches!(render(&app).pane, MainPane::Blank));
    assert_eq!(render(&app).help, " <ESC/q> Back | <e> Export CSV ");
    out.raw_json = Some("{}".to_string());
    app.task_output = Some(out.clone());
    assert!(matches!(render(&app).pane, MainPane::RawJson { text } if text == "{}"));
    out.message = Some("done".to_string());
    app.task_output = Some(out.clone());
    assert!(matches!(render(&app).pane, MainPane::Message { text } if text == "done"));
    out.headers = strings(&["A"]);
    app.task_output = Some(out);
    assert!(matches!(render(&app).pane, MainPane::Table));
}

#[test]
fn status_of_the_session() {
    let mut app = App::new(None);
    app.auth_status = AuthStatus::Checking;
    assert_eq!(render(&app).status, "Auth: Checking...");
    assert_eq!(render(&app).status_tone, StatusTone::Busy);
    app.auth_status = AuthStatus::Valid("Active".to_string());
    assert_eq!(render(&app).status, "Auth: \u{2705} Active");
    assert_eq!(render(&app).status_tone, StatusTone::Good);
    app.auth_status = AuthStatus::Invalid("expired".to_string());
    assert_eq!(render(&app).status, "Auth: \u{274c} expired");
    assert_eq!(render(&app).status_tone, StatusTone::Bad);
}

#[test]
fn menus_lead_where_their_entries_say() {
    let main = main_menu();
    assert_eq!(main.len(), 4);
    assert_eq!(choose_main(&main[0]), MainChoice::Login);
    assert_eq!(choose_main(&main[1]), MainChoice::Security);
    assert_eq!(choose_main(&main[2]), MainChoice::Iam);
    assert_eq!(choose_main(&main[3]), MainChoice::Exit);
    assert_eq!(choose_main("something else"), MainChoice::Unknown);
    let security = security_menu();
    assert_eq!(choose_security(&security[0]), SecurityChoice::Audit);
    assert_eq!(choose_security(&security[1]), SecurityChoice::Remediation);
    assert_eq!(choose_security(&security[2]), SecurityChoice::Back);
    let iam = iam_menu();
    assert_eq!(choose_iam(&iam[0]), IamChoice::Offboard);
    assert_eq!(choose_iam(&iam[1]), IamChoice::TestConnectivity);
    assert_eq!(choose_iam(&iam[2]), IamChoice::Back);
    assert_eq!(iam[2], "\u{2b05}\u{fe0f}  Back");
}

#[test]
fn security_menu_runs() {
    let run = handle_security_menu(SecurityChoice::Audit, false).unwrap();
    assert_eq!(run.task, "sec:shadow-it");
    assert!(run.args.is_empty());
    assert!(handle_security_menu(SecurityChoice::Remediation, false).is_none());
    let run = handle_security_menu(SecurityChoice::Remediation, true).unwrap();
    assert_eq!(run.task, "sec:shadow-it");
    assert_eq!(run.args, strings(&["--dry-run", "false"]));
    assert!(handle_security_menu(SecurityChoice::Back, true).is_none());
}

#[test]
fn iam_menu_runs() {
    assert!(handle_iam_menu(IamChoice::Offboard, "  ").is_none());
    assert!(handle_iam_menu(IamChoice::Offboard, "").is_none());
    let run = handle_iam_menu(IamChoice::Offboard, "bob@contoso.com").unwrap();
    assert_eq!(run.task, "iam:offboard");
    assert_eq!(run.args, strings(&["--user", "bob@contoso.com"]));
    let run = handle_iam_menu(IamChoice::TestConnectivity, "").unwrap();
    assert_eq!(run.task, "iam:test");
    assert!(run.args.is_empty());
    assert!(handle_iam_menu(IamChoice::Back, "x").is_none());
}
