//! The browser SSO flow as a state machine.
//!
//! The flow alternates outside work (binding the listener, asking the
//! service for the SSO URL, launching the browser, blocking for the
//! callback, submitting the login) with decisions.  The decisions live
//! here: from the current state and the event the outside work reported,
//! the step function yields the next state and the next piece of work.
//! The caller performs each action and feeds the resulting event back in.
//!
//! States follow the flow's phases.  A momentary phase and the blocking
//! wait it starts are folded into one state: `AwaitingCallback` covers the
//! browser having been opened and the wait for its redirect, and
//! `TokenReceived` covers the login submission that the token triggers.

use vstd::prelude::*;

verus! {

/// Where the flow stands.  `Authenticated` and `Failed` are terminal.
pub enum SsoState {
    /// Nothing has happened; the listener is to be bound.
    Idle,
    /// The local listener is bound to `port`; the SSO URL is to be
    /// requested with that port as the redirect target.
    ListenerBound { port: u16 },
    /// The service returned the SSO URL; the browser is to be launched.
    UrlRequested { port: u16 },
    /// The browser is open; the flow blocks for the one callback.
    AwaitingCallback { port: u16 },
    /// The callback delivered `token`; the login-completion request is to
    /// be submitted with it.
    TokenReceived { token: String },
    /// The session response was accepted: the flow succeeded.
    Authenticated,
    /// The flow failed; no further work is owed.
    Failed,
}

/// What the outside work reports back to the flow.
pub enum SsoEvent {
    /// The listener is bound and reports its port.
    ListenerReady { port: u16 },
    /// The service answered the SSO-initiation request with this URL.
    SsoUrlReceived { url: String },
    /// The browser was launched.
    BrowserLaunched,
    /// The one expected callback arrived and its token was extracted.
    CallbackArrived { token: String },
    /// The login-completion request was answered with a session.
    LoginAccepted,
    /// Some step failed; the flow is over.
    FlowFailed,
}

/// What the flow asks the caller to do next.
pub enum SsoAction {
    /// Bind the local listener on the loopback interface.
    BindListener,
    /// Send the SSO-initiation request, naming `port` as the redirect
    /// target.
    RequestSsoUrl { port: u16 },
    /// Hand `url` to the user's default browser.
    OpenBrowser { url: String },
    /// Block until the one callback arrives and extract its token.
    AwaitCallback,
    /// Submit the login-completion request carrying `token` and the proof
    /// key generated at flow start.
    SubmitLogin { token: String },
    /// The flow succeeded; nothing more to do.
    Done,
    /// The flow failed; release the listener and stop.
    Abort,
}

impl SsoState {
    /// A state the flow never leaves.
    pub open spec fn is_terminal(self) -> bool {
        self is Authenticated || self is Failed
    }
}

/// The transition table: the next state and action for each state and
/// event.  Terminal states absorb every event; a failure event, or an
/// event the current state does not expect, fails the flow.
pub open spec fn spec_sso_step(state: SsoState, event: SsoEvent) -> (SsoState, SsoAction) {
    match (state, event) {
        (SsoState::Authenticated, _) => (SsoState::Authenticated, SsoAction::Done),
        (SsoState::Failed, _) => (SsoState::Failed, SsoAction::Abort),
        (SsoState::Idle, SsoEvent::ListenerReady { port }) => (
            SsoState::ListenerBound { port },
            SsoAction::RequestSsoUrl { port },
        ),
        (SsoState::ListenerBound { port }, SsoEvent::SsoUrlReceived { url }) => (
            SsoState::UrlRequested { port },
            SsoAction::OpenBrowser { url },
        ),
        (SsoState::UrlRequested { port }, SsoEvent::BrowserLaunched) => (
            SsoState::AwaitingCallback { port },
            SsoAction::AwaitCallback,
        ),
        (SsoState::AwaitingCallback { port }, SsoEvent::CallbackArrived { token }) => (
            SsoState::TokenReceived { token: token },
            SsoAction::SubmitLogin { token: token },
        ),
        (SsoState::TokenReceived { token }, SsoEvent::LoginAccepted) => (
            SsoState::Authenticated,
            SsoAction::Done,
        ),
        (_, _) => (SsoState::Failed, SsoAction::Abort),
    }
}

/// The state and first action a fresh flow starts from.
pub fn sso_start() -> (r: (SsoState, SsoAction))
    ensures
        r.0 is Idle,
        r.1 is BindListener,
{
    (SsoState::Idle, SsoAction::BindListener)
}

/// Take one step of the flow: consume the event the last action produced
/// and decide the next state and action, exactly as the transition table
/// says.
pub fn sso_step(state: SsoState, event: SsoEvent) -> (r: (SsoState, SsoAction))
    ensures
        r == spec_sso_step(state, event),
{
    match (state, event) {
        (SsoState::Authenticated, _) => (SsoState::Authenticated, SsoAction::Done),
        (SsoState::Failed, _) => (SsoState::Failed, SsoAction::Abort),
        (SsoState::Idle, SsoEvent::ListenerReady { port }) => (
            SsoState::ListenerBound { port },
            SsoAction::RequestSsoUrl { port },
        ),
        (SsoState::ListenerBound { port }, SsoEvent::SsoUrlReceived { url }) => (
            SsoState::UrlRequested { port },
            SsoAction::OpenBrowser { url },
        ),
        (SsoState::UrlRequested { port }, SsoEvent::BrowserLaunched) => (
            SsoState::AwaitingCallback { port },
            SsoAction::AwaitCallback,
        ),
        (SsoState::AwaitingCallback { port: _ }, SsoEvent::CallbackArrived { token }) => {
            let copy = token.clone();
            (SsoState::TokenReceived { token: copy }, SsoAction::SubmitLogin { token })
        },
        (SsoState::TokenReceived { token: _ }, SsoEvent::LoginAccepted) => (
            SsoState::Authenticated,
            SsoAction::Done,
        ),
        (_, _) => (SsoState::Failed, SsoAction::Abort),
    }
}

/// Law: a failure event moves the flow to `Failed` from every state that
/// is not already terminal, and `Failed` is absorbing.
pub proof fn lemma_failure_reaches_failed(state: SsoState)
    ensures
        !(state is Authenticated) ==> spec_sso_step(state, SsoEvent::FlowFailed).0 is Failed,
        spec_sso_step(SsoState::Failed, SsoEvent::FlowFailed).0 is Failed,
{
}

/// Law: terminal states absorb every event: no event leads the flow out
/// of `Authenticated` or `Failed`.
pub proof fn lemma_terminal_states_absorb(state: SsoState, event: SsoEvent)
    requires
        state.is_terminal(),
    ensures
        spec_sso_step(state, event).0 == state,
{
}

/// Law: the token the callback delivered is handed on unchanged: the step
/// on `CallbackArrived` records it in the next state and submits exactly
/// it.
pub proof fn lemma_token_passed_unchanged(port: u16, token: String)
    ensures
        spec_sso_step(
            SsoState::AwaitingCallback { port },
            SsoEvent::CallbackArrived { token },
        ) == (SsoState::TokenReceived { token }, SsoAction::SubmitLogin { token }),
{
}

} // verus!
