//! Values read from the persisted settings store, as the login flow sees them.
use vstd::prelude::*;

use crate::text::{trim_str, trimmed};

verus! {

/// Key of the configured server host.
pub const SERVER_HOST_KEY: &'static str = "serverHost";

/// Key of the object that describes a self-hosted server.
pub const SELF_HOSTED_KEY: &'static str = "selfHosted";

/// Field of the self-hosted object that holds the server's URL.
pub const SERVER_URL_FIELD: &'static str = "serverUrl";

/// One field of a stored object: its name, and its value where that value is
/// a string.
pub struct SettingField {
    pub name: String,
    pub text: Option<String>,
}

/// A stored value: a string, an object, or any other kind of value.
pub enum SettingValue {
    Text(String),
    Object(Vec<SettingField>),
    Other,
}

/// The string that a stored value holds, if it is a string.
pub open spec fn text_of(v: SettingValue) -> Option<Seq<char>> {
    match v {
        SettingValue::Text(s) => Some(s@),
        _ => None,
    }
}

/// `fields[i]` is the first field named `name`.
pub open spec fn is_first_field(fields: Seq<SettingField>, name: Seq<char>, i: int) -> bool {
    &&& 0 <= i < fields.len()
    &&& fields[i].name@ == name
    &&& forall|j: int| 0 <= j < i ==> (#[trigger] fields[j]).name@ != name
}

/// The string held by the first field named `name` of an object, if that field
/// exists and holds a string.
pub open spec fn field_text_of(v: SettingValue, name: Seq<char>) -> Option<Seq<char>> {
    match v {
        SettingValue::Object(fields) => if exists|i: int| is_first_field(fields@, name, i) {
            let i = choose|i: int| is_first_field(fields@, name, i);
            match fields@[i].text {
                Some(t) => Some(t@),
                None => None,
            }
        } else {
            None
        },
        _ => None,
    }
}

/// A stored string trimmed, kept only where something is left.
pub open spec fn non_blank(t: Option<Seq<char>>) -> Option<Seq<char>> {
    match t {
        Some(s) => if trimmed(s).len() > 0 {
            Some(trimmed(s))
        } else {
            None
        },
        None => None,
    }
}

/// The server host that a stored value gives.
pub open spec fn server_host_spec(v: Option<SettingValue>) -> Option<Seq<char>> {
    match v {
        Some(v) => non_blank(text_of(v)),
        None => None,
    }
}

/// The self-hosted server URL that a stored value gives.
pub open spec fn self_hosted_url_spec(v: Option<SettingValue>) -> Option<Seq<char>> {
    match v {
        Some(v) => non_blank(field_text_of(v, SERVER_URL_FIELD@)),
        None => None,
    }
}

/// Trims a stored string and keeps it if anything is left.
fn keep_non_blank(s: &String) -> (r: Option<String>)
    ensures
        r matches Some(t) ==> non_blank(Some(s@)) == Some(t@),
        r is None ==> non_blank(Some(s@)) is None,
{
    let t = trim_str(s.as_str());
    if t.unicode_len() == 0 {
        None
    } else {
        Some(t.to_owned())
    }
}

/// Whether two strings hold the same characters.
pub fn same_text(a: &str, b: &str) -> (r: bool)
    ensures
        r == (a@ == b@),
{
    let n = a.unicode_len();
    if n != b.unicode_len() {
        return false;
    }
    let mut i: usize = 0;
    while i < n
        invariant
            n == a@.len(),
            n == b@.len(),
            i <= n,
            a@.subrange(0, i as int) == b@.subrange(0, i as int),
        decreases n - i,
    {
        if a.get_char(i) != b.get_char(i) {
            assert(a@[i as int] != b@[i as int]);
            return false;
        }
        assert(a@.subrange(0, i + 1) == a@.subrange(0, i as int).push(a@[i as int]));
        assert(b@.subrange(0, i + 1) == b@.subrange(0, i as int).push(b@[i as int]));
        i = i + 1;
    }
    assert(a@ == a@.subrange(0, n as int));
    assert(b@ == b@.subrange(0, n as int));
    true
}

/// The first field of `fields` named `name`, if any.
fn find_field(fields: &Vec<SettingField>, name: &str) -> (r: Option<usize>)
    ensures
        r matches Some(i) ==> is_first_field(fields@, name@, i as int),
        r is None ==> !exists|i: int| is_first_field(fields@, name@, i),
{
    let mut i: usize = 0;
    while i < fields.len()
        invariant
            i <= fields@.len(),
            forall|j: int| 0 <= j < i ==> (#[trigger] fields@[j]).name@ != name@,
        decreases fields.len() - i,
    {
        if same_text(fields[i].name.as_str(), name) {
            return Some(i);
        }
        i = i + 1;
    }
    proof {
        assert forall|k: int| !is_first_field(fields@, name@, k) by {
            if is_first_field(fields@, name@, k) {
                assert(fields@[k].name@ != name@);
            }
        }
    }
    None
}

/// The server host that a stored value gives: the value trimmed, where it is
/// a string with more than white space in it.
pub fn read_server_host(value: &Option<SettingValue>) -> (r: Option<String>)
    ensures
        r.deep_view() == server_host_spec(*value),
{
    match value {
        Some(SettingValue::Text(s)) => keep_non_blank(s),
        _ => None,
    }
}

/// The self-hosted server URL that a stored value gives: its `serverUrl` field
/// trimmed, where that field is a string with more than white space in it.
pub fn read_self_hosted_server_url(value: &Option<SettingValue>) -> (r: Option<String>)
    ensures
        r.deep_view() == self_hosted_url_spec(*value),
{
    match value {
        Some(SettingValue::Object(fields)) => {
            match find_field(fields, SERVER_URL_FIELD) {
                Some(i) => {
                    proof {
                        let k = choose|k: int| is_first_field(fields@, SERVER_URL_FIELD@, k);
                        if k < i {
                            assert(fields@[k].name@ != SERVER_URL_FIELD@);
                        } else if i < k {
                            assert(fields@[i as int].name@ != SERVER_URL_FIELD@);
                        }
                    }
                    match &fields[i].text {
                        Some(t) => keep_non_blank(t),
                        None => None,
                    }
                },
                None => None,
            }
        },
        _ => None,
    }
}

} // verus!
