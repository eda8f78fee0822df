//! Settings that the process is started with.

use vstd::prelude::*;

verus! {

/// The name of the environment variable that holds the provider key.
pub const KEY_VARIABLE: &'static str = "ABSTRACT_API";

/// The name of the environment variable that says where the process runs.
pub const ENVIRONMENT_VARIABLE: &'static str = "ENVIRONMENT";

/// The value of [`ENVIRONMENT_VARIABLE`] that selects diagnostics for a
/// person at a terminal.
pub const LOCAL: &'static str = "local";

/// Whether diagnostics are written for a person at a terminal rather than
/// for a log collector: the variable is set and its value is exactly
/// [`LOCAL`].
pub fn is_local(environment: Option<&str>) -> (local: bool)
    ensures
        local == (environment matches Some(value) && value@ == LOCAL@),
{
    match environment {
        // Owned strings are compared: theirs is the equality with a contract.
        Some(value) => value.to_owned() == LOCAL.to_owned(),
        None => false,
    }
}

} // verus!
