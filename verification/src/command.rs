//! The request and response shapes of one command execution.

use vstd::prelude::*;
use vstd::string::*;

use crate::text::{int_dec_str, i32_to_dec};

verus! {

/// Request to execute a shell command.
#[derive(Debug, Clone)]
pub struct CommandRequest {
    /// The shell command to execute.
    pub command: String,
    /// Working directory (optional; defaults to the session's current one).
    pub cwd: Option<String>,
}

/// Response from shell command execution.
#[derive(Debug, Clone)]
pub struct CommandResponse {
    /// Command execution succeeded.
    pub success: bool,
    /// Exit code (if available).
    pub exit_code: Option<i32>,
    /// Error message (if execution failed).
    pub error: Option<String>,
}

/// The message reported for a nonzero exit code.
pub open spec fn exit_code_message(code: int) -> Seq<char> {
    "Command exited with code "@ + int_dec_str(code)
}

/// A response is coherent when success means exactly exit code zero, and an
/// error message is present exactly on failure.
pub open spec fn response_coherent(r: CommandResponse) -> bool {
    &&& r.success == (r.exit_code == Some(0i32))
    &&& r.success == (r.error is None)
}

impl CommandResponse {
    /// A successful command response with exit code 0.
    pub fn success() -> (r: Self)
        ensures
            r.success,
            r.exit_code == Some(0i32),
            r.error is None,
            response_coherent(r),
    {
        CommandResponse { success: true, exit_code: Some(0), error: None }
    }

    /// The response for a retrieved exit code: success exactly when the code
    /// is zero, with a message naming the code otherwise.
    pub fn with_exit_code(exit_code: i32) -> (r: Self)
        ensures
            r.success == (exit_code == 0),
            r.exit_code == Some(exit_code),
            exit_code == 0 ==> r.error is None,
            exit_code != 0 ==> (r.error matches Some(e) && e@ == exit_code_message(
                exit_code as int,
            )),
            response_coherent(r),
    {
        if exit_code == 0 {
            CommandResponse { success: true, exit_code: Some(exit_code), error: None }
        } else {
            let mut message = "Command exited with code ".to_owned();
            let rendered = i32_to_dec(exit_code);
            message.append(rendered.as_str());
            proof {
                assert(message@ =~= exit_code_message(exit_code as int));
            }
            CommandResponse { success: false, exit_code: Some(exit_code), error: Some(message) }
        }
    }

    /// A failed command response with an error message and optional exit
    /// code.
    pub fn failure(error: &str, exit_code: Option<i32>) -> (r: Self)
        ensures
            !r.success,
            r.exit_code == exit_code,
            r.error matches Some(e) && e@ == error@,
    {
        CommandResponse { success: false, exit_code, error: Some(error.to_owned()) }
    }
}

} // verus!
