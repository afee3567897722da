//! The decision logic of the execution engine and the cancellation path.
//!
//! One command's life is: admit (reject blank input, claim the busy flag) →
//! resolve the working directory → echo the command into history → spawn →
//! stream output lines into history → reap and map the exit status → release
//! the session. The caller performs the asynchronous outside work — spawning
//! the shell, draining its two streams, awaiting exit, delivering signals —
//! and reports each outcome to these functions, which take every decision
//! and keep the session and the history right on every path, error paths
//! included.

use vstd::prelude::*;
use vstd::string::*;

use crate::command::{exit_code_message, response_coherent, CommandResponse};
use crate::output::{LineModel, NotificationLevel, OutputLine};
use crate::session::ShellManager;
use crate::text::{blank, command_is_blank};

verus! {

/// Everything that can go wrong around one command or one cancellation.
#[derive(Debug, Clone, PartialEq, Eq)]
pub enum ExecError {
    /// The submitted command line was empty or whitespace-only.
    EmptyCommand,
    /// Another command currently holds the session.
    AlreadyRunning,
    /// The explicitly supplied working directory is not a directory.
    InvalidDirectory { path: String },
    /// The operating system refused to create the process.
    SpawnFailed { detail: String },
    /// Waiting for the process to exit failed.
    WaitFailed { detail: String },
    /// Cancellation was requested while nothing was running.
    NothingRunning,
    /// The interrupt signal could not be delivered.
    SignalFailed { detail: String },
}

/// The user-facing message of each error.
pub open spec fn error_message_of(e: ExecError) -> Seq<char> {
    match e {
        ExecError::EmptyCommand => "Command cannot be empty"@,
        ExecError::AlreadyRunning => "Command already running"@,
        ExecError::InvalidDirectory { path } => "Directory does not exist: "@ + path@,
        ExecError::SpawnFailed { detail } => "Failed to spawn process: "@ + detail@,
        ExecError::WaitFailed { detail } => "Failed to wait for process: "@ + detail@,
        ExecError::NothingRunning => "No command currently running"@,
        ExecError::SignalFailed { detail } => "Failed to send SIGINT: "@ + detail@,
    }
}

impl ExecError {
    /// Render the user-facing message of this error.
    pub fn message(&self) -> (r: String)
        ensures
            r@ == error_message_of(*self),
    {
        match self {
            ExecError::EmptyCommand => "Command cannot be empty".to_owned(),
            ExecError::AlreadyRunning => "Command already running".to_owned(),
            ExecError::InvalidDirectory { path } => {
                let mut message = "Directory does not exist: ".to_owned();
                message.append(path.as_str());
                message
            },
            ExecError::SpawnFailed { detail } => {
                let mut message = "Failed to spawn process: ".to_owned();
                message.append(detail.as_str());
                message
            },
            ExecError::WaitFailed { detail } => {
                let mut message = "Failed to wait for process: ".to_owned();
                message.append(detail.as_str());
                message
            },
            ExecError::NothingRunning => "No command currently running".to_owned(),
            ExecError::SignalFailed { detail } => {
                let mut message = "Failed to send SIGINT: ".to_owned();
                message.append(detail.as_str());
                message
            },
        }
    }
}

/// The cancellation decision over one atomic PID-if-busy observation: a
/// running command's PID is the signal target; with nothing running,
/// cancellation is refused.
pub fn cancel_decision(observed_pid: Option<u32>) -> (r: Result<u32, ExecError>)
    ensures
        observed_pid matches Some(p) ==> r == Ok::<u32, ExecError>(p),
        observed_pid is None ==> r == Err::<u32, ExecError>(ExecError::NothingRunning),
{
    match observed_pid {
        Some(pid) => Ok(pid),
        None => Err(ExecError::NothingRunning),
    }
}

/// A path is relative when it does not start at the filesystem root.
pub fn is_relative_path(path: &str) -> (r: bool)
    ensures
        r == (path@.len() == 0 || path@[0] != '/'),
{
    if path.unicode_len() == 0 {
        true
    } else {
        path.get_char(0) != '/'
    }
}

/// A relative path joined onto a base directory, with exactly one separator
/// between them.
pub open spec fn joined_path(base: Seq<char>, rel: Seq<char>) -> Seq<char> {
    if base.len() > 0 && base[base.len() - 1] == '/' {
        base + rel
    } else {
        base + "/"@ + rel
    }
}

/// Join a relative path onto a base directory.
pub fn join_path(base: &str, rel: &str) -> (r: String)
    ensures
        r@ == joined_path(base@, rel@),
{
    let blen = base.unicode_len();
    let mut r = base.to_owned();
    if blen == 0 || base.get_char(blen - 1) != '/' {
        r.append("/");
    }
    r.append(rel);
    proof {
        assert(r@ =~= joined_path(base@, rel@));
    }
    r
}

impl ShellManager {
    /// Admission: reject a blank command line outright; otherwise claim the
    /// busy flag, and reject when another command already holds it. No state
    /// changes on rejection beyond the attempted claim itself.
    pub fn admit_command(&self, command: &str) -> (r: Result<(), ExecError>)
        ensures
            blank(command@) ==> r == Err::<(), ExecError>(ExecError::EmptyCommand),
            !blank(command@) ==> r == Ok::<(), ExecError>(()) || r == Err::<(), ExecError>(
                ExecError::AlreadyRunning,
            ),
    {
        if command_is_blank(command) {
            return Err(ExecError::EmptyCommand);
        }
        if !self.shell_state.try_set_busy() {
            return Err(ExecError::AlreadyRunning);
        }
        Ok(())
    }

    /// Resolve the working directory of an admitted command. An explicitly
    /// supplied directory must have been probed by the caller; a probe
    /// failure rejects the command and releases the session. With no
    /// explicit directory, the session's current one is used.
    pub fn resolve_working_dir(&self, requested: Option<String>, requested_is_dir: bool) -> (r:
        Result<String, ExecError>)
        ensures
            match requested {
                Some(p) => if requested_is_dir {
                    r == Ok::<String, ExecError>(p)
                } else {
                    r == Err::<String, ExecError>(ExecError::InvalidDirectory { path: p })
                },
                None => r is Ok,
            },
    {
        match requested {
            Some(path) => {
                if requested_is_dir {
                    Ok(path)
                } else {
                    self.shell_state.set_busy(false);
                    Err(ExecError::InvalidDirectory { path })
                }
            },
            None => Ok(self.shell_state.get_cwd()),
        }
    }

    /// Echo the admitted command into history, and hand the same line back
    /// for relaying to the external sink.
    pub fn echo_command(&self, command: &str, now: u64) -> (l: OutputLine)
        ensures
            l@ == (LineModel::Command { text: command@, timestamp: now }),
    {
        let l = OutputLine::Command { text: command.to_owned(), timestamp: now };
        self.history_buffer.push(l.duplicate());
        l
    }

    /// Record the spawned child process: the session owns its handle and
    /// tracks its PID until the command is reaped.
    pub fn note_spawned(&self, child: tokio::process::Child) {
        self.shell_state.set_process(child);
    }

    /// A spawn failure releases the session immediately; the command never
    /// ran.
    pub fn note_spawn_failure(&self, detail: String) -> (e: ExecError)
        ensures
            e == (ExecError::SpawnFailed { detail }),
    {
        self.shell_state.set_busy(false);
        ExecError::SpawnFailed { detail }
    }

    /// Record one complete line of standard output in history, and hand the
    /// same line back for relaying to the external sink.
    pub fn record_stdout_line(&self, text: String, now: u64) -> (l: OutputLine)
        ensures
            l@ == (LineModel::Stdout { text: text@, timestamp: now }),
    {
        let l = OutputLine::Stdout { text, timestamp: now };
        self.history_buffer.push(l.duplicate());
        l
    }

    /// Record one complete line of standard error in history, and hand the
    /// same line back for relaying to the external sink.
    pub fn record_stderr_line(&self, text: String, now: u64) -> (l: OutputLine)
        ensures
            l@ == (LineModel::Stderr { text: text@, timestamp: now }),
    {
        let l = OutputLine::Stderr { text, timestamp: now };
        self.history_buffer.push(l.duplicate());
        l
    }

    /// A failure while awaiting process exit: the session is released, the
    /// process identity dropped, and the failure reported.
    pub fn note_wait_failure(&self, detail: String) -> (e: ExecError)
        ensures
            e == (ExecError::WaitFailed { detail }),
    {
        self.shell_state.clear_process();
        self.shell_state.set_busy(false);
        ExecError::WaitFailed { detail }
    }

    /// Reap a finished command: release the session unconditionally and map
    /// the exit status to the structured result — code zero is success, a
    /// nonzero code is a failure naming the code, and a missing code is a
    /// failure saying so.
    pub fn finish_command(&self, exit_code: Option<i32>) -> (r: CommandResponse)
        ensures
            r.exit_code == exit_code,
            r.success == (exit_code == Some(0i32)),
            match exit_code {
                Some(c) => c != 0 ==> (r.error matches Some(e) && e@ == exit_code_message(
                    c as int,
                )),
                None => r.error matches Some(e) && e@ == "Process terminated without exit code"@,
            },
            response_coherent(r),
    {
        self.shell_state.clear_process();
        self.shell_state.set_busy(false);
        match exit_code {
            Some(code) => CommandResponse::with_exit_code(code),
            None => CommandResponse::failure("Process terminated without exit code", None),
        }
    }

    /// Apply a verified directory change: update the session's working
    /// directory and hand back the announcement for the external sink.
    pub fn apply_directory_change(&self, new_cwd: &str, now: u64) -> (l: OutputLine)
        ensures
            l@ == (LineModel::Notification {
                message: "Changed directory to: "@ + new_cwd@,
                level: NotificationLevel::Info,
                timestamp: now,
            }),
    {
        self.shell_state.set_cwd(new_cwd.to_owned());
        let mut message = "Changed directory to: ".to_owned();
        message.append(new_cwd);
        OutputLine::Notification { message, level: NotificationLevel::Info, timestamp: now }
    }
}

} // verus!
