//! What the credential store's answers mean to the caller. The store itself
//! is reached from outside this library.

use vstd::prelude::*;
use crate::text::join2;

verus! {

/// The name under which the credentials are kept in the store.
pub const SERVICE: &'static str = "nevermail";

/// Where an access to the credential store failed, with the store's own words.
#[derive(Debug, PartialEq, Eq)]
pub enum KeyringFailure {
    /// The entry for the user could not be made.
    Entry(String),
    /// The entry was made, but reading, writing or deleting it failed.
    Access(String),
}

/// The failure as the caller reports it: a prefix that names the step, then
/// the store's words.
pub open spec fn failure_text(failure: KeyringFailure, step: Seq<char>) -> Seq<char> {
    match failure {
        KeyringFailure::Entry(e) => "keyring error: "@ + e@,
        KeyringFailure::Access(e) => step + e@,
    }
}

/// Puts a failure into words.
pub fn describe(failure: KeyringFailure, step: &str) -> (r: String)
    ensures
        r@ == failure_text(failure, step@),
{
    match failure {
        KeyringFailure::Entry(e) => join2("keyring error: ", e.as_str()),
        KeyringFailure::Access(e) => join2(step, e.as_str()),
    }
}

/// The outcome of reading a password: the password, or the failure in words.
pub fn get_password(outcome: Result<String, KeyringFailure>) -> (r: Result<String, String>)
    ensures
        match outcome {
            Ok(password) => r == Ok::<String, String>(password),
            Err(failure) => r is Err && r->Err_0@ == failure_text(failure, "keyring get: "@),
        },
{
    match outcome {
        Ok(password) => Ok(password),
        Err(failure) => Err(describe(failure, "keyring get: ")),
    }
}

/// The outcome of storing a password.
pub fn set_password(outcome: Result<(), KeyringFailure>) -> (r: Result<(), String>)
    ensures
        match outcome {
            Ok(_) => r is Ok,
            Err(failure) => r is Err && r->Err_0@ == failure_text(failure, "keyring set: "@),
        },
{
    match outcome {
        Ok(_) => Ok(()),
        Err(failure) => Err(describe(failure, "keyring set: ")),
    }
}

/// The outcome of deleting a password.
pub fn delete_password(outcome: Result<(), KeyringFailure>) -> (r: Result<(), String>)
    ensures
        match outcome {
            Ok(_) => r is Ok,
            Err(failure) => r is Err && r->Err_0@ == failure_text(failure, "keyring delete: "@),
        },
{
    match outcome {
        Ok(_) => Ok(()),
        Err(failure) => Err(describe(failure, "keyring delete: ")),
    }
}

} // verus!
