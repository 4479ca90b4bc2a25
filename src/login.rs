//! The decisions of one login: from the settings to a vault client, through
//! pre-login and password login, to an installed session or an error.
//!
//! The caller performs each action (reading the store, the network calls,
//! installing the session) and hands back what came of it as the next event.
use vstd::prelude::*;

use crate::endpoint::{
    client_settings, read_server_url, resolve_spec, ClientSettings, DeviceType, StoreRead,
    API_PATH, IDENTITY_PATH, USER_AGENT,
};

verus! {

/// The reply to a login that succeeded.
pub const LOGIN_OK: &'static str = "ok";

/// Where one login stands.
#[derive(PartialEq, Eq, Structural, Clone, Copy, Debug)]
pub enum LoginState {
    /// Waiting for the settings that give the server's URL.
    ResolvingEndpoint,
    /// Waiting for the pre-login, which gives the key-derivation parameters.
    PreLogin,
    /// Waiting for the password login.
    PasswordLogin,
    /// Logged in, with the session installed.
    Succeeded,
    /// Given up; the session cache was left as it was.
    Failed,
}

/// What came of the last action.
pub enum LoginEvent {
    /// The store was read for `serverHost` and for `selfHosted`.
    SettingsRead(StoreRead, StoreRead),
    /// The pre-login returned, or failed with this message.
    PreLoginDone(Result<(), String>),
    /// The password login returned, or failed with this message.
    PasswordLoginDone(Result<(), String>),
}

/// What to do next.
pub enum LoginAction {
    /// Make a new vault client with these settings and send it the pre-login
    /// for the email.
    StartPreLogin(ClientSettings),
    /// Log in with the email, the password, the parameters the pre-login gave
    /// and no second factor.
    SendPassword,
    /// Install the logged-in client in the session cache and reply with this
    /// message.
    InstallAndReply(String),
    /// Leave the session cache as it is and reply with this error.
    FailWith(String),
    /// Nothing: the event does not belong to this state.
    Wait,
}

/// `c` is the client configuration for the server at `base`.
pub open spec fn is_settings_for(c: ClientSettings, base: Seq<char>) -> bool {
    &&& c.identity_url@ == base + IDENTITY_PATH@
    &&& c.api_url@ == base + API_PATH@
    &&& c.user_agent@ == USER_AGENT@
    &&& c.device_type == DeviceType::MacOsDesktop
}

/// `next` and `action` are what the login does on `event` in `state`.
pub open spec fn is_step(state: LoginState, event: LoginEvent, next: LoginState, action: LoginAction) -> bool {
    match (state, event) {
        (LoginState::ResolvingEndpoint, LoginEvent::SettingsRead(host, self_hosted)) => {
            match resolve_spec(host, self_hosted) {
                Ok(base) => next == LoginState::PreLogin && (action matches LoginAction::StartPreLogin(c)
                    && is_settings_for(c, base)),
                Err(e) => next == LoginState::Failed && (action matches LoginAction::FailWith(m)
                    && m@ == e.message_spec()),
            }
        },
        (LoginState::PreLogin, LoginEvent::PreLoginDone(res)) => match res {
            Ok(()) => next == LoginState::PasswordLogin && action is SendPassword,
            Err(m) => next == LoginState::Failed && (action matches LoginAction::FailWith(f) && f@ == m@),
        },
        (LoginState::PasswordLogin, LoginEvent::PasswordLoginDone(res)) => match res {
            Ok(()) => next == LoginState::Succeeded && (action matches LoginAction::InstallAndReply(r)
                && r@ == LOGIN_OK@),
            Err(m) => next == LoginState::Failed && (action matches LoginAction::FailWith(f) && f@ == m@),
        },
        _ => next == state && action is Wait,
    }
}

/// Whether a login in this state has ended.
pub open spec fn is_final(state: LoginState) -> bool {
    state == LoginState::Succeeded || state == LoginState::Failed
}

/// The next state of a login and what to do, given what came of the last
/// action.
pub fn login_step(state: LoginState, event: LoginEvent) -> (r: (LoginState, LoginAction))
    ensures
        is_step(state, event, r.0, r.1),
{
    match (state, event) {
        (LoginState::ResolvingEndpoint, LoginEvent::SettingsRead(host, self_hosted)) => {
            match read_server_url(&host, &self_hosted) {
                Ok(base) => (LoginState::PreLogin, LoginAction::StartPreLogin(client_settings(base.as_str()))),
                Err(e) => (LoginState::Failed, LoginAction::FailWith(e.message())),
            }
        },
        (LoginState::PreLogin, LoginEvent::PreLoginDone(res)) => match res {
            Ok(()) => (LoginState::PasswordLogin, LoginAction::SendPassword),
            Err(m) => (LoginState::Failed, LoginAction::FailWith(m)),
        },
        (LoginState::PasswordLogin, LoginEvent::PasswordLoginDone(res)) => match res {
            Ok(()) => (LoginState::Succeeded, LoginAction::InstallAndReply(String::from_str(LOGIN_OK))),
            Err(m) => (LoginState::Failed, LoginAction::FailWith(m)),
        },
        (s, _) => (s, LoginAction::Wait),
    }
}

/// A login installs a session only when the password login succeeds after
/// the pre-login did; every step into failure replies with an error and leaves
/// the session cache as it was; an ended login stays as it ended.
pub proof fn lemma_install_only_on_success(state: LoginState, event: LoginEvent, next: LoginState, action: LoginAction)
    requires
        is_step(state, event, next, action),
    ensures
        action is InstallAndReply <==> (state == LoginState::PasswordLogin
            && event matches LoginEvent::PasswordLoginDone(Ok(()))),
        action is InstallAndReply ==> next == LoginState::Succeeded,
        (next == LoginState::Failed && state != LoginState::Failed) ==> action is FailWith,
        action is FailWith ==> next == LoginState::Failed,
        is_final(state) ==> next == state && action is Wait,
{
}

} // verus!
