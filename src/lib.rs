//! Endpoint resolution, client settings, a single-slot session cache and the
//! login flow of a password-vault desktop client, with their contracts.
use vstd::prelude::*;

pub mod endpoint;
pub mod login;
pub mod session;
pub mod settings;
pub mod text;

verus! {

} // verus!
