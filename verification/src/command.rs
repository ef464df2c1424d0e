//! Outcome rules of the shell command executor.
//!
//! The commands themselves run through a shell outside the library;
//! what is decided here is how an exit status is reported to the
//! caller.

use vstd::prelude::*;

verus! {

/// Why a shell command's execution was reported as failed.
#[derive(Clone, Copy, Debug, PartialEq, Eq, Structural)]
pub enum CommandError {
    /// The command ran and exited with a non-success status.
    NonZeroExit,
}

/// Runs configured shell commands; the process handling lives with the
/// caller, the outcome rule below is the executor's.
pub struct CommandExecutor;

impl CommandExecutor {
    /// A command's execution is reported as successful exactly when its
    /// exit status was a success.
    pub fn command_outcome(status_success: bool) -> (r: Result<(), CommandError>)
        ensures
            r is Ok <==> status_success,
            !status_success ==> r == Result::<(), CommandError>::Err(
                CommandError::NonZeroExit,
            ),
    {
        if status_success {
            Ok(())
        } else {
            Err(CommandError::NonZeroExit)
        }
    }
}

} // verus!
