//! Captured outcomes of shell commands. Running a command is platform I/O
//! and lives outside the library; what comes back is packaged here.

use vstd::prelude::*;

verus! {

/// What was captured from one run of a shell command.
pub struct CommandResultDetail {
    /// The literal command text that was run.
    pub command: String,
    /// Captured standard output, absent if not captured.
    pub out: Option<String>,
    /// Captured standard error, absent if not captured.
    pub err: Option<String>,
}

/// The outcome of an executed command.
pub struct CommandResult {
    /// True iff the process terminated successfully.
    pub status: bool,
    /// Present whenever the command was actually invoked; absent is
    /// reserved for result paths that capture no detail.
    pub detail: Option<CommandResultDetail>,
}

/// Why a past command's result could not be retrieved.
#[derive(Debug, Clone, Copy, PartialEq, Eq, Structural)]
pub enum LookbackError {
    /// No platform implements retrieval of a prior command's result.
    NotImplemented,
}

impl CommandResult {
    /// Packages what the platform shell reported for one command. Direct
    /// execution always carries full detail: the command text and both
    /// captured streams.
    pub fn from_capture(command: String, status: bool, out: String, err: String) -> (r: CommandResult)
        ensures
            r.status == status,
            r.detail matches Some(d) && d.command == command && d.out == Some(out) && d.err == Some(err),
    {
        CommandResult {
            status,
            detail: Some(CommandResultDetail { command, out: Some(out), err: Some(err) }),
        }
    }
}

/// Retrieving the result of a previously run or background command is
/// implemented on no platform: it is refused deterministically instead of
/// inventing process-history semantics.
pub fn lookback() -> (r: Result<CommandResult, LookbackError>)
    ensures
        r == Err::<CommandResult, LookbackError>(LookbackError::NotImplemented),
{
    Err(LookbackError::NotImplemented)
}

} // verus!
