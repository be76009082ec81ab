use snowflake_api::sso::{sso_start, sso_step, SsoAction, SsoEvent, SsoState};

#[test]
fn test_sso_happy_path() {
    let (state, action) = sso_start();
    assert!(matches!(state, SsoState::Idle));
    assert!(matches!(action, SsoAction::BindListener));

    let (state, action) = sso_step(state, SsoEvent::ListenerReady { port: 8042 });
    assert!(matches!(state, SsoState::ListenerBound { port: 8042 }));
    assert!(matches!(action, SsoAction::RequestSsoUrl { port: 8042 }));

    let (state, action) = sso_step(
        state,
        SsoEvent::SsoUrlReceived { url: "https://idp.example/sso".to_string() },
    );
    assert!(matches!(state, SsoState::UrlRequested { port: 8042 }));
    match action {
        SsoAction::OpenBrowser { url } => assert_eq!(url, "https://idp.example/sso"),
        _ => panic!("expected OpenBrowser"),
    }

    let (state, action) = sso_step(state, SsoEvent::BrowserLaunched);
    assert!(matches!(state, SsoState::AwaitingCallback { port: 8042 }));
    assert!(matches!(action, SsoAction::AwaitCallback));

    let (state, action) = sso_step(state, SsoEvent::CallbackArrived { token: "tok".to_string() });
    match (&state, &action) {
        (SsoState::TokenReceived { token }, SsoAction::SubmitLogin { token: submitted }) => {
            assert_eq!(token, "tok");
            assert_eq!(submitted, "tok");
        },
        _ => panic!("expected TokenReceived / SubmitLogin"),
    }

    let (state, action) = sso_step(state, SsoEvent::LoginAccepted);
    assert!(matches!(state, SsoState::Authenticated));
    assert!(matches!(action, SsoAction::Done));
}

#[test]
fn test_sso_failure_event_fails_flow() {
    let (state, _) = sso_start();
    let (state, action) = sso_step(state, SsoEvent::FlowFailed);
    assert!(matches!(state, SsoState::Failed));
    assert!(matches!(action, SsoAction::Abort));
}

#[test]
fn test_sso_unexpected_event_fails_flow() {
    let (state, _) = sso_start();
    let (state, action) = sso_step(state, SsoEvent::LoginAccepted);
    assert!(matches!(state, SsoState::Failed));
    assert!(matches!(action, SsoAction::Abort));
}

#[test]
fn test_sso_terminal_states_absorb() {
    let (state, action) = sso_step(SsoState::Authenticated, SsoEvent::FlowFailed);
    assert!(matches!(state, SsoState::Authenticated));
    assert!(matches!(action, SsoAction::Done));

    let (state, action) = sso_step(
        SsoState::Failed,
        SsoEvent::ListenerReady { port: 1 },
    );
    assert!(matches!(state, SsoState::Failed));
    assert!(matches!(action, SsoAction::Abort));
}
