//! The vault server's base URL, resolved from the settings, and the client
//! settings derived from it.
use vstd::prelude::*;

use crate::settings::{
    field_text_of, read_self_hosted_server_url, read_server_host, same_text,
    self_hosted_url_spec, server_host_spec, text_of, SettingValue, SERVER_URL_FIELD,
};
use crate::text::{is_blank, is_white_space, lemma_trim_blank, lemma_trim_unchanged};

verus! {

/// The server host that selects the self-hosted server URL.
pub const SELF_HOSTED_VALUE: &'static str = "self-hosted";

/// Path of the identity service under the base URL.
pub const IDENTITY_PATH: &'static str = "/identity";

/// Path of the API under the base URL.
pub const API_PATH: &'static str = "/api";

/// User agent the vault client announces.
pub const USER_AGENT: &'static str = "Vanguard";

/// Why no base URL could be resolved.
pub enum ResolveError {
    /// `serverHost` is absent, not a string, or only white space.
    MissingServerHost,
    /// `serverHost` selects a self-hosted server whose URL is absent or blank.
    MissingSelfHostedUrl,
    /// The settings store could not be read; its message.
    Store(String),
}

impl ResolveError {
    /// The message shown to the user.
    pub fn message(&self) -> (r: String)
        ensures
            r@ == self.message_spec(),
    {
        match self {
            ResolveError::MissingServerHost => String::from_str(
                "Missing serverHost in app store.",
            ),
            ResolveError::MissingSelfHostedUrl => String::from_str(
                "Missing self-hosted server URL in app store.",
            ),
            ResolveError::Store(m) => m.clone(),
        }
    }

    /// The message shown to the user, as characters.
    pub open spec fn message_spec(&self) -> Seq<char> {
        match self {
            ResolveError::MissingServerHost => "Missing serverHost in app store."@,
            ResolveError::MissingSelfHostedUrl => "Missing self-hosted server URL in app store."@,
            ResolveError::Store(m) => m@,
        }
    }
}

/// What reading one key of the settings store gave: the value, if the key is
/// present, or the store's error message.
pub type StoreRead = Result<Option<SettingValue>, String>;

/// The base URL that two reads of the store give, the first of `serverHost`
/// and the second of `selfHosted`; the second counts only where the first
/// selects the self-hosted server.
pub open spec fn resolve_spec(host: StoreRead, self_hosted: StoreRead) -> Result<Seq<char>, ResolveError> {
    match host {
        Err(m) => Err(ResolveError::Store(m)),
        Ok(h) => match server_host_spec(h) {
            None => Err(ResolveError::MissingServerHost),
            Some(s) => if s != SELF_HOSTED_VALUE@ {
                Ok(s)
            } else {
                match self_hosted {
                    Err(m) => Err(ResolveError::Store(m)),
                    Ok(v) => match self_hosted_url_spec(v) {
                        None => Err(ResolveError::MissingSelfHostedUrl),
                        Some(u) => Ok(u),
                    },
                }
            },
        },
    }
}

/// A resolved URL or its error, with the URL as characters.
pub open spec fn url_result_view(r: Result<String, ResolveError>) -> Result<Seq<char>, ResolveError> {
    match r {
        Ok(u) => Ok(u@),
        Err(e) => Err(e),
    }
}

/// Resolves the vault server's base URL from what the store gave for
/// `serverHost` and for `selfHosted`.
pub fn read_server_url(host: &StoreRead, self_hosted: &StoreRead) -> (r: Result<String, ResolveError>)
    ensures
        url_result_view(r) == resolve_spec(*host, *self_hosted),
{
    let h = match host {
        Err(m) => return Err(ResolveError::Store(m.clone())),
        Ok(h) => read_server_host(h),
    };
    let h = match h {
        None => return Err(ResolveError::MissingServerHost),
        Some(h) => h,
    };
    if !same_text(h.as_str(), SELF_HOSTED_VALUE) {
        return Ok(h);
    }
    match self_hosted {
        Err(m) => Err(ResolveError::Store(m.clone())),
        Ok(v) => match read_self_hosted_server_url(v) {
            None => Err(ResolveError::MissingSelfHostedUrl),
            Some(u) => Ok(u),
        },
    }
}

/// `s` is non-empty and neither starts nor ends with white space.
pub open spec fn is_clean(s: Seq<char>) -> bool {
    s.len() > 0 && !is_white_space(s[0]) && !is_white_space(s.last())
}

/// A stored `serverHost` that is absent, not a string, or only white space.
pub open spec fn host_missing(v: Option<SettingValue>) -> bool {
    match v {
        None => true,
        Some(h) => match text_of(h) {
            None => true,
            Some(s) => is_blank(s),
        },
    }
}

/// A stored `selfHosted` whose `serverUrl` is absent, not a string, or only
/// white space.
pub open spec fn self_hosted_url_missing(v: Option<SettingValue>) -> bool {
    match v {
        None => true,
        Some(o) => match field_text_of(o, SERVER_URL_FIELD@) {
            None => true,
            Some(u) => is_blank(u),
        },
    }
}

/// Where `serverHost` is absent or blank, resolution fails for want of it,
/// whatever `selfHosted` holds.
pub proof fn lemma_missing_host_fails(host: Option<SettingValue>, self_hosted: StoreRead)
    requires
        host_missing(host),
    ensures
        resolve_spec(Ok(host), self_hosted) == Err::<Seq<char>, ResolveError>(ResolveError::MissingServerHost),
{
    if let Some(h) = host {
        if let Some(s) = text_of(h) {
            lemma_trim_blank(s);
        }
    }
}

/// Where `serverHost` is exactly the self-hosted value and `selfHosted` has
/// no usable `serverUrl`, resolution fails for want of that URL.
pub proof fn lemma_self_hosted_without_url_fails(host: String, self_hosted: Option<SettingValue>)
    requires
        host@ == SELF_HOSTED_VALUE@,
        self_hosted_url_missing(self_hosted),
    ensures
        resolve_spec(Ok(Some(SettingValue::Text(host))), Ok(self_hosted))
            == Err::<Seq<char>, ResolveError>(ResolveError::MissingSelfHostedUrl),
{
    reveal_strlit("self-hosted");
    lemma_trim_unchanged(host@);
    if let Some(o) = self_hosted {
        if let Some(u) = field_text_of(o, SERVER_URL_FIELD@) {
            lemma_trim_blank(u);
        }
    }
}

/// Where `serverHost` is exactly the self-hosted value and `selfHosted`'s
/// `serverUrl` is a URL without surrounding white space, resolution gives that
/// URL.
pub proof fn lemma_self_hosted_url_used(host: String, self_hosted: SettingValue, url: Seq<char>)
    requires
        host@ == SELF_HOSTED_VALUE@,
        field_text_of(self_hosted, SERVER_URL_FIELD@) == Some(url),
        is_clean(url),
    ensures
        resolve_spec(Ok(Some(SettingValue::Text(host))), Ok(Some(self_hosted)))
            == Ok::<Seq<char>, ResolveError>(url),
{
    reveal_strlit("self-hosted");
    lemma_trim_unchanged(host@);
    lemma_trim_unchanged(url);
}

/// Where `serverHost` is a URL without surrounding white space other than the
/// self-hosted value, resolution gives it unchanged, whatever `selfHosted`
/// holds or however reading it went.
pub proof fn lemma_host_used_unchanged(host: String, self_hosted: StoreRead)
    requires
        is_clean(host@),
        host@ != SELF_HOSTED_VALUE@,
    ensures
        resolve_spec(Ok(Some(SettingValue::Text(host))), self_hosted) == Ok::<Seq<char>, ResolveError>(host@),
{
    lemma_trim_unchanged(host@);
}

/// The kind of device the vault client reports itself as.
#[derive(PartialEq, Eq, Structural, Clone, Copy, Debug)]
pub enum DeviceType {
    MacOsDesktop,
}

/// What the vault client is configured with.
pub struct ClientSettings {
    pub identity_url: String,
    pub api_url: String,
    pub user_agent: String,
    pub device_type: DeviceType,
}

/// The settings of a vault client that talks to the server at `base`: its
/// identity service and its API both under `base`, with the fixed user agent
/// and the desktop device type.
pub fn client_settings(base: &str) -> (r: ClientSettings)
    ensures
        r.identity_url@ == base@ + IDENTITY_PATH@,
        r.api_url@ == base@ + API_PATH@,
        r.user_agent@ == USER_AGENT@,
        r.device_type == DeviceType::MacOsDesktop,
{
    ClientSettings {
        identity_url: String::from_str(base).concat(IDENTITY_PATH),
        api_url: String::from_str(base).concat(API_PATH),
        user_agent: String::from_str(USER_AGENT),
        device_type: DeviceType::MacOsDesktop,
    }
}

} // verus!
