use vanguard::endpoint::{DeviceType, StoreRead};
use vanguard::login::{login_step, LoginAction, LoginEvent, LoginState};
use vanguard::session::SessionCache;
use vanguard::settings::SettingValue;

/// Stands for an authenticated vault client.
#[derive(Debug, PartialEq)]
struct Handle(&'static str, u32);

fn settings_read() -> LoginEvent {
    let host: StoreRead = Ok(Some(SettingValue::Text("https://vault.test".to_string())));
    LoginEvent::SettingsRead(host, Ok(None))
}

/// Runs one login to its end on the given outcomes of the two network calls,
/// installing `handle` where the flow says so; returns the reply.
fn run_login(
    cache: &mut SessionCache<Handle>,
    prelogin: Result<(), String>,
    password: Result<(), String>,
    handle: Handle,
) -> Result<String, String> {
    let (state, action) = login_step(LoginState::ResolvingEndpoint, settings_read());
    assert_eq!(state, LoginState::PreLogin);
    match action {
        LoginAction::StartPreLogin(c) => {
            assert_eq!(c.identity_url, "https://vault.test/identity");
            assert_eq!(c.api_url, "https://vault.test/api");
            assert_eq!(c.device_type, DeviceType::MacOsDesktop);
        }
        _ => panic!("expected the pre-login"),
    }
    let (state, action) = login_step(state, LoginEvent::PreLoginDone(prelogin));
    let (state, action) = match action {
        LoginAction::SendPassword => login_step(state, LoginEvent::PasswordLoginDone(password)),
        other => (state, other),
    };
    match action {
        LoginAction::InstallAndReply(reply) => {
            assert_eq!(state, LoginState::Succeeded);
            cache.install(handle);
            Ok(reply)
        }
        LoginAction::FailWith(message) => {
            assert_eq!(state, LoginState::Failed);
            Err(message)
        }
        _ => panic!("the login did not end"),
    }
}

#[test]
fn login_success_installs_session() {
    let mut cache = SessionCache::new();
    assert!(!cache.is_present());
    let r = run_login(&mut cache, Ok(()), Ok(()), Handle("user@test.com", 1));
    assert_eq!(r, Ok("ok".to_string()));
    assert!(cache.is_present());
    assert_eq!(cache.read(), Some(&Handle("user@test.com", 1)));
}

#[test]
fn login_prelogin_failure_leaves_cache() {
    let mut cache = SessionCache::new();
    let r = run_login(&mut cache, Err("unknown account".to_string()), Ok(()), Handle("user@test.com", 1));
    assert_eq!(r, Err("unknown account".to_string()));
    assert!(!cache.is_present());

    cache.install(Handle("earlier@test.com", 0));
    let r = run_login(&mut cache, Err("unknown account".to_string()), Ok(()), Handle("user@test.com", 1));
    assert!(r.is_err());
    assert_eq!(cache.read(), Some(&Handle("earlier@test.com", 0)));
}

#[test]
fn login_password_failure_leaves_cache() {
    let mut cache = SessionCache::new();
    let r = run_login(&mut cache, Ok(()), Err("wrong password".to_string()), Handle("user@test.com", 1));
    assert_eq!(r, Err("wrong password".to_string()));
    assert!(cache.read().is_none());
}

#[test]
fn last_install_wins() {
    let mut cache = SessionCache::new();
    cache.install(Handle("a@test.com", 1));
    cache.install(Handle("b@test.com", 2));
    assert_eq!(cache.read(), Some(&Handle("b@test.com", 2)));
    cache.install(Handle("a@test.com", 3));
    assert_eq!(cache.read(), Some(&Handle("a@test.com", 3)));
}

#[test]
fn repeated_login_replaces_session() {
    let mut cache = SessionCache::new();
    assert!(run_login(&mut cache, Ok(()), Ok(()), Handle("user@test.com", 1)).is_ok());
    assert!(run_login(&mut cache, Ok(()), Ok(()), Handle("user@test.com", 2)).is_ok());
    assert_eq!(cache.read(), Some(&Handle("user@test.com", 2)));
}

#[test]
fn missing_host_fails_before_any_call() {
    let (state, action) = login_step(LoginState::ResolvingEndpoint, LoginEvent::SettingsRead(Ok(None), Ok(None)));
    assert_eq!(state, LoginState::Failed);
    match action {
        LoginAction::FailWith(m) => assert_eq!(m, "Missing serverHost in app store."),
        _ => panic!("expected a failure"),
    }
}

#[test]
fn events_out_of_turn_are_ignored() {
    let (state, action) = login_step(LoginState::PreLogin, LoginEvent::PasswordLoginDone(Ok(())));
    assert_eq!(state, LoginState::PreLogin);
    assert!(matches!(action, LoginAction::Wait));
    let (state, action) = login_step(LoginState::Succeeded, LoginEvent::PreLoginDone(Ok(())));
    assert_eq!(state, LoginState::Succeeded);
    assert!(matches!(action, LoginAction::Wait));
    let (state, action) = login_step(LoginState::Failed, settings_read());
    assert_eq!(state, LoginState::Failed);
    assert!(matches!(action, LoginAction::Wait));
}
