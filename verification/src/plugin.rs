//! Plugins, and the store for secrets that they are to share.

use vstd::prelude::*;
use vstd::string::*;

verus! {

/// What a plugin offers.
pub trait ShellmindPlugin {
    fn name(&self) -> &str;
}

/// Stores a secret. Nothing is stored yet: every call succeeds.
pub fn store_secret(_key: &str, _value: &str) -> (r: Result<(), String>)
    ensures
        r is Ok,
{
    Ok(())
}

/// Hands out a secret. None is stored yet: every call succeeds with the
/// same fixed text.
pub fn retrieve_secret(_key: &str) -> (r: Result<String, String>)
    ensures
        r matches Ok(t) && t@ == "retrieved_secret_placeholder"@,
{
    Ok(String::from_str("retrieved_secret_placeholder"))
}

} // verus!
