//! What a failed start leads to.
//!
//! The shell has one error path. If the host application cannot be started,
//! the process aborts at once with a fixed diagnostic; nothing is retried and
//! nothing is recovered. A run that ends without an error ends the shell
//! quietly.

use vstd::prelude::*;

verus! {

/// The diagnostic with which the shell aborts.
pub open spec fn failure_text() -> Seq<char> {
    "error while running tauri application"@
}

/// Returns the diagnostic with which the shell aborts.
pub fn failure_message() -> (message: &'static str)
    ensures
        message@ == failure_text(),
{
    "error while running tauri application"
}

/// Decides what follows the run of the host application.
///
/// Returns `None` where the run ended without an error: the shell has nothing
/// more to do. Returns the diagnostic where the application failed to start:
/// the caller aborts the process with it. The error itself plays no part in
/// the decision.
pub fn abort_message<E>(outcome: &Result<(), E>) -> (message: Option<&'static str>)
    ensures
        outcome is Ok <==> message is None,
        message matches Some(text) ==> text@ == failure_text(),
{
    match outcome {
        Ok(_) => None,
        Err(_) => Some(failure_message()),
    }
}

} // verus!
