use o365_cli::auth::{get_login_scopes, AuthManager};
use o365_cli::credential::DeleteOutcome;
use o365_cli::error::AuthError;
use o365_cli::login::{LoginAction, LoginEvent, LoginFlow, LoginPhase, PkceExchange};
use o365_cli::refresh::{LoadOutcome, RefreshAction, RefreshEvent, RefreshPhase};

fn manager() -> AuthManager {
    AuthManager::new("common", None).expect("the endpoints are URLs")
}

fn query(url: &str) -> Vec<(String, String)> {
    url::Url::parse(url).unwrap().query_pairs().into_owned().collect()
}

fn param(url: &str, key: &str) -> String {
    query(url).into_iter().find(|(k, _)| k == key).map(|(_, v)| v).expect("the parameter is there")
}

/// A flow that awaits its callback on port 4321, and the address the browser was sent to.
fn awaiting_callback() -> (LoginFlow, String) {
    let (mut flow, first) = manager().login();
    assert!(matches!(first, LoginAction::ClearCredential));
    assert!(matches!(
        flow.step(LoginEvent::Cleared { outcome: DeleteOutcome::NoEntry }),
        LoginAction::BindListener
    ));
    let url = match flow.step(LoginEvent::Bound { port: 4321 }) {
        LoginAction::OpenBrowser { url } => url,
        other => panic!("unexpected action: {:?}", other),
    };
    assert_eq!(flow.phase(), LoginPhase::ListenerBound);
    match flow.step(LoginEvent::BrowserOpened { launched: true }) {
        LoginAction::AwaitCallback { manual_url } => assert_eq!(manual_url, None),
        other => panic!("unexpected action: {:?}", other),
    }
    assert_eq!(flow.phase(), LoginPhase::BrowserLaunched);
    (flow, url)
}

fn request(target: &str) -> LoginEvent {
    LoginEvent::Request { line: format!("GET {} HTTP/1.1\r\n", target) }
}

#[test]
fn endpoints_are_made_from_the_tenant() {
    let m = AuthManager::new("contoso.onmicrosoft.com", None).unwrap();
    assert_eq!(
        m.auth_url(),
        "https://login.microsoftonline.com/contoso.onmicrosoft.com/oauth2/v2.0/authorize"
    );
    assert_eq!(
        m.token_url(),
        "https://login.microsoftonline.com/contoso.onmicrosoft.com/oauth2/v2.0/token"
    );
    assert_eq!(m.client_id(), "14d82eec-204b-4c2f-b7e8-296a70dab67e");
}

#[test]
fn client_id_can_be_overridden() {
    let m = AuthManager::new("common", Some("my-client")).unwrap();
    assert_eq!(m.client_id(), "my-client");
}

#[test]
fn scopes_of_a_login() {
    assert_eq!(get_login_scopes(), vec!["User.Read", "Directory.ReadWrite.All", "offline_access"]);
}

#[test]
fn challenge_is_derived_from_the_verifier() {
    let x = PkceExchange::from_verifier("dBjftJeZ4CVP-mB92K27uhbUJU1p1r_wW1gFWFOEjXk", "s").unwrap();
    assert_eq!(x.code_challenge(), "E9Melhoa2OwvFrEMTJguCHaoeK1t8URWbuGJSstw-cM");
    assert_eq!(x.code_verifier(), "dBjftJeZ4CVP-mB92K27uhbUJU1p1r_wW1gFWFOEjXk");
    assert_eq!(x.state_token(), "s");
    let again = PkceExchange::from_verifier("dBjftJeZ4CVP-mB92K27uhbUJU1p1r_wW1gFWFOEjXk", "t").unwrap();
    assert_eq!(again.code_challenge(), x.code_challenge());
}

#[test]
fn verifier_of_a_wrong_length_is_refused() {
    assert!(PkceExchange::from_verifier("short", "s").is_none());
    assert!(PkceExchange::from_verifier(&"a".repeat(42), "s").is_none());
    assert!(PkceExchange::from_verifier(&"a".repeat(43), "s").is_some());
    assert!(PkceExchange::from_verifier(&"a".repeat(128), "s").is_some());
    assert!(PkceExchange::from_verifier(&"a".repeat(129), "s").is_none());
    assert!(PkceExchange::from_verifier(&"\u{e9}".repeat(43), "s").is_some());
    assert!(PkceExchange::from_verifier(&"\u{e9}".repeat(65), "s").is_none());
}

#[test]
fn generated_secrets_are_fresh_and_consistent() {
    let a = PkceExchange::generate();
    let b = PkceExchange::generate();
    assert_eq!(a.code_verifier().len(), 43);
    assert_ne!(a.code_verifier(), b.code_verifier());
    assert_ne!(a.code_challenge(), b.code_challenge());
    assert_ne!(a.state_token(), b.state_token());
    assert!(!a.state_token().is_empty());
    let same = PkceExchange::from_verifier(a.code_verifier(), "x").unwrap();
    assert_eq!(same.code_challenge(), a.code_challenge());
    assert_ne!(a.code_challenge(), a.code_verifier());
}

#[test]
fn browser_is_sent_to_the_authorization_page() {
    let (_, url) = awaiting_callback();
    assert!(url.starts_with("https://login.microsoftonline.com/common/oauth2/v2.0/authorize?"));
    assert_eq!(param(&url, "response_type"), "code");
    assert_eq!(param(&url, "client_id"), "14d82eec-204b-4c2f-b7e8-296a70dab67e");
    assert_eq!(param(&url, "redirect_uri"), "http://localhost:4321");
    assert_eq!(param(&url, "scope"), "User.Read Directory.ReadWrite.All offline_access");
    assert_eq!(param(&url, "code_challenge_method"), "S256");
    assert_eq!(param(&url, "code_challenge").len(), 43);
    assert!(!param(&url, "state").is_empty());
}

#[test]
fn login_succeeds_with_the_right_state() {
    let (mut flow, url) = awaiting_callback();
    let state = param(&url, "state");
    let action = flow.step(request(&format!("/?code=the-code&state={}", state)));
    let verifier = match action {
        LoginAction::RespondAndExchange { response, code, verifier, redirect_uri } => {
            assert!(response.starts_with("HTTP/1.1 200 OK\r\n"));
            assert_eq!(code, "the-code");
            assert_eq!(redirect_uri, "http://localhost:4321");
            verifier
        }
        other => panic!("unexpected action: {:?}", other),
    };
    let expected = PkceExchange::from_verifier(&verifier, "").unwrap();
    assert_eq!(expected.code_challenge(), param(&url, "code_challenge"));
    assert_eq!(flow.phase(), LoginPhase::CallbackReceived);
    let action = flow.step(LoginEvent::Exchanged {
        access_token: "access".to_string(),
        refresh_token: Some("refresh".to_string()),
    });
    match action {
        LoginAction::StoreCredential { refresh_token } => assert_eq!(refresh_token, "refresh"),
        other => panic!("unexpected action: {:?}", other),
    }
    assert_eq!(flow.phase(), LoginPhase::CodeExchanged);
    assert!(matches!(flow.step(LoginEvent::Stored), LoginAction::Done));
    assert_eq!(flow.phase(), LoginPhase::TokenStored);
    match flow.outcome() {
        Some(Ok(token)) => assert_eq!(token, "access"),
        other => panic!("unexpected outcome: {:?}", other),
    }
}

#[test]
fn foreign_state_aborts_the_login() {
    for state in ["", "wrong", "%20"] {
        let (mut flow, url) = awaiting_callback();
        assert_ne!(param(&url, "state"), state);
        let action = flow.step(request(&format!("/?code=the-code&state={}", state)));
        assert!(matches!(action, LoginAction::Done));
        assert_eq!(flow.phase(), LoginPhase::Aborted);
        let late = flow.step(LoginEvent::Exchanged {
            access_token: "access".to_string(),
            refresh_token: Some("refresh".to_string()),
        });
        assert!(matches!(late, LoginAction::Ignored));
        assert!(matches!(flow.outcome(), Some(Err(AuthError::CsrfMismatch))));
    }
}

#[test]
fn missing_state_aborts_the_login() {
    let (mut flow, _) = awaiting_callback();
    assert!(matches!(flow.step(request("/?code=the-code")), LoginAction::Done));
    assert!(matches!(flow.outcome(), Some(Err(AuthError::CsrfMismatch))));
}

#[test]
fn favicon_request_leaves_the_listener_waiting() {
    let (mut flow, url) = awaiting_callback();
    let state = param(&url, "state");
    match flow.step(request("/favicon.ico")) {
        LoginAction::AwaitCallback { manual_url } => assert_eq!(manual_url, None),
        other => panic!("unexpected action: {:?}", other),
    }
    assert_eq!(flow.phase(), LoginPhase::BrowserLaunched);
    match flow.step(request(&format!("/favicon.ico?state={}&code=x", state))) {
        LoginAction::AwaitCallback { .. } => {}
        other => panic!("unexpected action: {:?}", other),
    }
    let action = flow.step(request(&format!("/?state={}&code=genuine", state)));
    match action {
        LoginAction::RespondAndExchange { code, .. } => assert_eq!(code, "genuine"),
        other => panic!("unexpected action: {:?}", other),
    }
}

#[test]
fn missing_code_aborts_the_login() {
    let (mut flow, url) = awaiting_callback();
    let target = format!("/?state={}&error=access_denied", param(&url, "state"));
    assert!(matches!(flow.step(request(&target)), LoginAction::Done));
    match flow.outcome() {
        Some(Err(AuthError::MissingAuthorizationCode { received })) => assert_eq!(received, target),
        other => panic!("unexpected outcome: {:?}", other),
    }
}

#[test]
fn missing_refresh_token_aborts_the_login() {
    let (mut flow, url) = awaiting_callback();
    flow.step(request(&format!("/?state={}&code=c", param(&url, "state"))));
    let action = flow.step(LoginEvent::Exchanged {
        access_token: "access".to_string(),
        refresh_token: None,
    });
    assert!(matches!(action, LoginAction::Done));
    assert!(matches!(flow.outcome(), Some(Err(AuthError::MissingOfflineAccess))));
}

#[test]
fn browser_failure_hands_out_the_address() {
    let (mut flow, _) = manager().login();
    flow.step(LoginEvent::Cleared { outcome: DeleteOutcome::Deleted });
    let url = match flow.step(LoginEvent::Bound { port: 5000 }) {
        LoginAction::OpenBrowser { url } => url,
        other => panic!("unexpected action: {:?}", other),
    };
    match flow.step(LoginEvent::BrowserOpened { launched: false }) {
        LoginAction::AwaitCallback { manual_url } => assert_eq!(manual_url, Some(url)),
        other => panic!("unexpected action: {:?}", other),
    }
    assert_eq!(flow.phase(), LoginPhase::BrowserLaunched);
}

#[test]
fn failures_on_the_way_abort_the_login() {
    let (mut flow, _) = manager().login();
    let action = flow.step(LoginEvent::Cleared {
        outcome: DeleteOutcome::Failed { reason: "locked".to_string() },
    });
    assert!(matches!(action, LoginAction::Done));
    assert!(matches!(flow.outcome(), Some(Err(AuthError::CredentialStore { .. }))));

    let (mut flow, _) = manager().login();
    flow.step(LoginEvent::Cleared { outcome: DeleteOutcome::NoEntry });
    flow.step(LoginEvent::BindFailed { reason: "in use".to_string() });
    assert!(matches!(flow.outcome(), Some(Err(AuthError::Listener { .. }))));

    let (mut flow, _) = awaiting_callback();
    flow.step(LoginEvent::AcceptFailed { reason: "reset".to_string() });
    assert!(matches!(flow.outcome(), Some(Err(AuthError::Listener { .. }))));

    let (mut flow, url) = awaiting_callback();
    flow.step(request(&format!("/?state={}&code=c", param(&url, "state"))));
    flow.step(LoginEvent::ExchangeFailed { reason: "invalid_grant".to_string() });
    match flow.outcome() {
        Some(Err(AuthError::TokenExchange { reason })) => assert_eq!(reason, "invalid_grant"),
        other => panic!("unexpected outcome: {:?}", other),
    }

    let (mut flow, url) = awaiting_callback();
    flow.step(request(&format!("/?state={}&code=c", param(&url, "state"))));
    flow.step(LoginEvent::RespondFailed { reason: "closed".to_string() });
    assert!(matches!(flow.outcome(), Some(Err(AuthError::Listener { .. }))));

    let (mut flow, url) = awaiting_callback();
    flow.step(request(&format!("/?state={}&code=c", param(&url, "state"))));
    flow.step(LoginEvent::Exchanged {
        access_token: "a".to_string(),
        refresh_token: Some("r".to_string()),
    });
    flow.step(LoginEvent::StoreFailed { reason: "denied".to_string() });
    assert!(matches!(flow.outcome(), Some(Err(AuthError::CredentialStore { .. }))));
}

#[test]
fn login_events_out_of_order_change_nothing() {
    let (mut flow, _) = manager().login();
    assert!(matches!(flow.step(LoginEvent::Bound { port: 1 }), LoginAction::Ignored));
    assert!(matches!(flow.step(request("/?code=c&state=s")), LoginAction::Ignored));
    assert!(matches!(flow.step(LoginEvent::Stored), LoginAction::Ignored));
    assert_eq!(flow.phase(), LoginPhase::Idle);
    assert!(flow.outcome().is_none());
}

#[test]
fn refresh_without_a_credential_asks_for_a_login() {
    let (mut flow, first) = manager().get_access_token();
    assert!(matches!(first, RefreshAction::MigrateThenLoad));
    assert_eq!(flow.phase(), RefreshPhase::Loading);
    let action = flow.step(RefreshEvent::Loaded { outcome: LoadOutcome::NoEntry });
    assert!(matches!(action, RefreshAction::Done));
    match flow.outcome() {
        Some(Err(error)) => {
            assert!(matches!(error, AuthError::NoStoredCredential));
            assert!(error.describe().contains("login"));
        }
        other => panic!("unexpected outcome: {:?}", other),
    }
}

#[test]
fn refresh_exchanges_the_trimmed_secret() {
    let (mut flow, _) = manager().get_access_token();
    let action =
        flow.step(RefreshEvent::Loaded { outcome: LoadOutcome::Found { secret: " r1\n".to_string() } });
    match action {
        RefreshAction::Exchange { refresh_token, client_id, token_url } => {
            assert_eq!(refresh_token, "r1");
            assert_eq!(client_id, "14d82eec-204b-4c2f-b7e8-296a70dab67e");
            assert_eq!(token_url, "https://login.microsoftonline.com/common/oauth2/v2.0/token");
        }
        other => panic!("unexpected action: {:?}", other),
    }
    assert_eq!(flow.phase(), RefreshPhase::Exchanging);
}

#[test]
fn refresh_keeps_the_credential_without_a_new_token() {
    let (mut flow, _) = manager().get_access_token();
    flow.step(RefreshEvent::Loaded { outcome: LoadOutcome::Found { secret: "r1".to_string() } });
    let action = flow.step(RefreshEvent::Exchanged {
        access_token: "access".to_string(),
        refresh_token: None,
    });
    assert!(matches!(action, RefreshAction::Done));
    assert_eq!(flow.phase(), RefreshPhase::Refreshed);
    match flow.outcome() {
        Some(Ok(token)) => assert_eq!(token, "access"),
        other => panic!("unexpected outcome: {:?}", other),
    }
}

#[test]
fn refresh_stores_a_rotated_token() {
    let (mut flow, _) = manager().get_access_token();
    flow.step(RefreshEvent::Loaded { outcome: LoadOutcome::Found { secret: "r1".to_string() } });
    let action = flow.step(RefreshEvent::Exchanged {
        access_token: "access".to_string(),
        refresh_token: Some("r2".to_string()),
    });
    match action {
        RefreshAction::StoreCredential { refresh_token } => assert_eq!(refresh_token, "r2"),
        other => panic!("unexpected action: {:?}", other),
    }
    assert_eq!(flow.phase(), RefreshPhase::Rotating);
    assert!(matches!(flow.step(RefreshEvent::Stored), RefreshAction::Done));
    match flow.outcome() {
        Some(Ok(token)) => assert_eq!(token, "access"),
        other => panic!("unexpected outcome: {:?}", other),
    }
}

#[test]
fn refresh_failures() {
    let (mut flow, _) = manager().get_access_token();
    flow.step(RefreshEvent::Loaded {
        outcome: LoadOutcome::Unavailable { reason: "locked".to_string() },
    });
    assert!(matches!(flow.outcome(), Some(Err(AuthError::CredentialStore { .. }))));

    let (mut flow, _) = manager().get_access_token();
    flow.step(RefreshEvent::Loaded { outcome: LoadOutcome::Found { secret: "r".to_string() } });
    flow.step(RefreshEvent::ExchangeFailed { reason: "expired".to_string() });
    match flow.outcome() {
        Some(Err(error)) => {
            assert!(matches!(error, AuthError::TokenExchange { .. }));
            assert_eq!(
                error.describe(),
                "Failed to exchange token: expired Please run `o365-cli login` again."
            );
        }
        other => panic!("unexpected outcome: {:?}", other),
    }

    let (mut flow, _) = manager().get_access_token();
    flow.step(RefreshEvent::Loaded { outcome: LoadOutcome::Found { secret: "r".to_string() } });
    flow.step(RefreshEvent::Exchanged {
        access_token: "a".to_string(),
        refresh_token: Some("r2".to_string()),
    });
    flow.step(RefreshEvent::StoreFailed { reason: "denied".to_string() });
    assert!(matches!(flow.outcome(), Some(Err(AuthError::CredentialStore { .. }))));
}

#[test]
fn every_error_message_says_login() {
    let errors = vec![
        AuthError::InvalidEndpoint { url: "x".to_string() },
        AuthError::Listener { reason: "x".to_string() },
        AuthError::CsrfMismatch,
        AuthError::MissingAuthorizationCode { received: "/".to_string() },
        AuthError::TokenExchange { reason: "x".to_string() },
        AuthError::MissingOfflineAccess,
        AuthError::CredentialStore { reason: "x".to_string() },
        AuthError::NoStoredCredential,
    ];
    for error in errors {
        assert!(error.describe().ends_with(" Please run `o365-cli login` again."));
    }
    assert_eq!(
        AuthError::CsrfMismatch.describe(),
        "CSRF validation failed: state mismatch Please run `o365-cli login` again."
    );
    assert_eq!(
        AuthError::NoStoredCredential.describe(),
        "No credentials found. Please run `o365-cli login` again."
    );
}

#[test]
fn refresh_is_bound_to_its_client() {
    let m = AuthManager::new("contoso", Some("my-client")).unwrap();
    let (mut flow, _) = m.get_access_token();
    let action =
        flow.step(RefreshEvent::Loaded { outcome: LoadOutcome::Found { secret: "r".to_string() } });
    match action {
        RefreshAction::Exchange { client_id, token_url, .. } => {
            assert_eq!(client_id, "my-client");
            assert_eq!(token_url, "https://login.microsoftonline.com/contoso/oauth2/v2.0/token");
        }
        other => panic!("unexpected action: {:?}", other),
    }
}
