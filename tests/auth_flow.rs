use monzo_cli::auth::{AuthFlow, FlowAction, FlowError, FlowEvent, FlowPhase, OauthInfo};
use monzo_cli::callback::CallbackError;

fn expect_store(action: FlowAction) -> OauthInfo {
    match action {
        FlowAction::Store { credentials } => credentials,
        _ => panic!("expected a store"),
    }
}

fn expect_fail(action: FlowAction, e: FlowError) {
    match action {
        FlowAction::Fail(got) => assert_eq!(got, e),
        _ => panic!("expected a failure"),
    }
}

fn expect_redirect(action: FlowAction) -> String {
    match action {
        FlowAction::AwaitRedirect { url } => url,
        _ => panic!("expected the redirect to be awaited"),
    }
}

fn flow_at_callback() -> AuthFlow {
    let mut f = AuthFlow::new(
        OauthInfo::from_parts(String::new(), String::new(), "C".to_string(), "S".to_string()),
        "matching".to_string(),
    );
    expect_redirect(f.handle(FlowEvent::Begin));
    f
}

#[test]
fn empty_store_full_grant_persists_credentials() {
    let mut f = AuthFlow::new(OauthInfo::new(), "matching".to_string());
    assert!(matches!(f.handle(FlowEvent::Begin), FlowAction::AskClientId));
    assert!(matches!(f.handle(FlowEvent::Entered("C\n".to_string())), FlowAction::AskClientSecret));
    let url = expect_redirect(f.handle(FlowEvent::Entered("S\r\n".to_string())));
    assert!(url.starts_with("https://auth.monzo.com"));
    assert!(url.contains("client_id=C&"));
    assert!(url.contains("state=matching"));
    assert!(url.contains("response_type=code"));
    assert!(url.contains("redirect_uri=http%3A%2F%2Flocalhost%3A8080"));
    match f.handle(FlowEvent::Callback("GET /?code=XYZ&state=matching HTTP/1.1\r\n".to_string())) {
        FlowAction::Exchange { code, client_id, client_secret } => {
            assert_eq!(code, "XYZ");
            assert_eq!(client_id, "C");
            assert_eq!(client_secret, "S");
        }
        _ => panic!("expected an exchange"),
    }
    let stored = expect_store(f.handle(FlowEvent::Exchanged {
        access_token: "A1".to_string(),
        refresh_token: Some("R1".to_string()),
    }));
    assert_eq!(stored.access_token, "A1");
    assert_eq!(stored.refresh_token, "R1");
    assert_eq!(stored.client_id, "C");
    assert_eq!(stored.client_secret, "S");
    assert!(stored.is_authorized());
    assert!(matches!(f.handle(FlowEvent::Stored), FlowAction::Finish));
    assert_eq!(f.phase, FlowPhase::Done);
    assert!(f.is_finished());
}

#[test]
fn blank_answer_is_asked_again() {
    let mut f = AuthFlow::new(OauthInfo::new(), "matching".to_string());
    assert!(matches!(f.handle(FlowEvent::Begin), FlowAction::AskClientId));
    assert!(matches!(f.handle(FlowEvent::Entered("  \n".to_string())), FlowAction::AskClientId));
    assert!(matches!(f.handle(FlowEvent::Entered("C".to_string())), FlowAction::AskClientSecret));
}

#[test]
fn stored_identity_is_not_asked_for() {
    flow_at_callback();
}

#[test]
fn missing_code_fails_before_exchange() {
    let mut f = flow_at_callback();
    expect_fail(
        f.handle(FlowEvent::Callback("GET /?state=matching HTTP/1.1\r\n".to_string())),
        FlowError::Callback(CallbackError::MissingCode),
    );
    assert_eq!(f.phase, FlowPhase::Failed);
    assert!(matches!(
        f.handle(FlowEvent::Exchanged { access_token: "A1".to_string(), refresh_token: Some("R1".to_string()) }),
        FlowAction::Halt
    ));
}

#[test]
fn forged_state_fails_before_exchange() {
    let mut f = flow_at_callback();
    expect_fail(
        f.handle(FlowEvent::Callback("GET /?code=XYZ&state=forged HTTP/1.1\r\n".to_string())),
        FlowError::Callback(CallbackError::StateMismatch),
    );
    let mut g = flow_at_callback();
    expect_fail(
        g.handle(FlowEvent::Callback("GET /?code=XYZ HTTP/1.1\r\n".to_string())),
        FlowError::Callback(CallbackError::StateMismatch),
    );
}

#[test]
fn each_state_gives_its_own_url() {
    let mut f = AuthFlow::new(
        OauthInfo::from_parts(String::new(), String::new(), "C".to_string(), "S".to_string()),
        "one".to_string(),
    );
    let mut g = AuthFlow::new(
        OauthInfo::from_parts(String::new(), String::new(), "C".to_string(), "S".to_string()),
        "two".to_string(),
    );
    let a = expect_redirect(f.handle(FlowEvent::Begin));
    let b = expect_redirect(g.handle(FlowEvent::Begin));
    assert!(a.contains("state=one"));
    assert!(b.contains("state=two"));
}

#[test]
fn request_without_target_fails() {
    let mut f = flow_at_callback();
    expect_fail(
        f.handle(FlowEvent::Callback("GET\r\n".to_string())),
        FlowError::Callback(CallbackError::MissingTarget),
    );
}

#[test]
fn missing_refresh_token_is_fatal() {
    let mut f = flow_at_callback();
    f.handle(FlowEvent::Callback("GET /?code=XYZ&state=matching HTTP/1.1".to_string()));
    expect_fail(
        f.handle(FlowEvent::Exchanged { access_token: "A1".to_string(), refresh_token: None }),
        FlowError::IncompleteTokens,
    );
}

#[test]
fn exchange_and_store_failures_are_fatal() {
    let mut f = flow_at_callback();
    f.handle(FlowEvent::Callback("GET /?code=XYZ&state=matching HTTP/1.1".to_string()));
    expect_fail(f.handle(FlowEvent::ExchangeFailed), FlowError::ExchangeFailed);

    let mut g = flow_at_callback();
    g.handle(FlowEvent::Callback("GET /?code=XYZ&state=matching HTTP/1.1".to_string()));
    g.handle(FlowEvent::Exchanged { access_token: "A1".to_string(), refresh_token: Some("R1".to_string()) });
    expect_fail(g.handle(FlowEvent::StoreFailed), FlowError::StoreFailed);
}

#[test]
fn input_failure_is_fatal() {
    let mut f = AuthFlow::new(OauthInfo::new(), "matching".to_string());
    f.handle(FlowEvent::Begin);
    expect_fail(f.handle(FlowEvent::InputFailed), FlowError::InputFailed);
}

#[test]
fn callback_before_begin_is_refused() {
    let mut f = AuthFlow::new(OauthInfo::new(), "matching".to_string());
    expect_fail(
        f.handle(FlowEvent::Callback("GET /?code=XYZ&state=matching HTTP/1.1".to_string())),
        FlowError::OutOfOrder,
    );
}

#[test]
fn credentials_states() {
    let blank = OauthInfo::new();
    assert!(blank.is_blank());
    assert!(!blank.is_authorized());
    let d = OauthInfo::default();
    assert!(d.is_blank());
    let full = OauthInfo::from_parts("A".to_string(), "R".to_string(), "C".to_string(), "S".to_string());
    assert!(full.is_authorized());
    assert!(!full.is_blank());
    let renewed = full.with_tokens("A2".to_string(), "R2".to_string());
    assert_eq!(renewed.access_token, "A2");
    assert_eq!(renewed.refresh_token, "R2");
    assert_eq!(renewed.client_id, "C");
    assert_eq!(renewed.client_secret, "S");
    let copy = renewed.duplicate();
    assert_eq!(copy.access_token, "A2");
    assert_eq!(copy.client_secret, "S");
}
