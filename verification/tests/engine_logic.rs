use cepheus::engine::{cancel_decision, is_relative_path, join_path, ExecError};
use cepheus::output::OutputLine;
use cepheus::session::ShellManager;
use cepheus::text::{command_is_blank, str_contains, u64_to_dec, i32_to_dec, u64_to_hex16};

#[test]
fn test_blank_commands_are_rejected() {
    let manager = ShellManager::new();
    assert_eq!(manager.admit_command(""), Err(ExecError::EmptyCommand));
    assert_eq!(manager.admit_command("   "), Err(ExecError::EmptyCommand));
    assert_eq!(manager.admit_command("\t \n"), Err(ExecError::EmptyCommand));
    // a rejected blank command does not claim the session
    assert!(!manager.is_busy());
}

#[test]
fn test_admission_claims_the_session() {
    let manager = ShellManager::new();
    assert_eq!(manager.admit_command("echo hi"), Ok(()));
    assert!(manager.is_busy());
    // a second submission is refused while the first holds the session
    assert_eq!(manager.admit_command("echo no"), Err(ExecError::AlreadyRunning));
}

#[test]
fn test_resolve_working_dir_explicit_valid() {
    let manager = ShellManager::new();
    assert_eq!(manager.admit_command("ls"), Ok(()));
    let resolved = manager.resolve_working_dir(Some("/tmp".to_string()), true);
    assert_eq!(resolved, Ok("/tmp".to_string()));
    assert!(manager.is_busy());
}

#[test]
fn test_resolve_working_dir_invalid_releases_session() {
    let manager = ShellManager::new();
    assert_eq!(manager.admit_command("ls"), Ok(()));
    let resolved = manager.resolve_working_dir(Some("/no/such/dir".to_string()), false);
    assert_eq!(
        resolved,
        Err(ExecError::InvalidDirectory {
            path: "/no/such/dir".to_string()
        })
    );
    // the failed resolution released the session
    assert!(!manager.is_busy());
}

#[test]
fn test_resolve_working_dir_defaults_to_session_cwd() {
    let manager = ShellManager::new_with_cwd("/tmp".to_string());
    assert_eq!(manager.admit_command("ls"), Ok(()));
    let resolved = manager.resolve_working_dir(None, false);
    assert_eq!(resolved, Ok("/tmp".to_string()));
}

#[test]
fn test_echo_command_lands_in_history() {
    let manager = ShellManager::new();
    let line = manager.echo_command("echo hi", 123);
    assert_eq!(line.text(), "echo hi");
    assert_eq!(line.timestamp(), 123);
    let history = manager.history_buffer.get_all();
    assert_eq!(history.len(), 1);
    assert!(matches!(history[0], OutputLine::Command { .. }));
    assert_eq!(history[0].text(), "echo hi");
}

#[test]
fn test_recorded_lines_keep_stream_order() {
    let manager = ShellManager::new();
    manager.record_stdout_line("one".to_string(), 1);
    manager.record_stdout_line("two".to_string(), 2);
    manager.record_stderr_line("oops".to_string(), 3);
    let history = manager.history_buffer.get_all();
    assert_eq!(history.len(), 3);
    assert!(matches!(history[0], OutputLine::Stdout { .. }));
    assert_eq!(history[0].text(), "one");
    assert_eq!(history[1].text(), "two");
    assert!(matches!(history[2], OutputLine::Stderr { .. }));
    assert_eq!(history[2].text(), "oops");
}

#[test]
fn test_finish_command_releases_session() {
    let manager = ShellManager::new();
    assert_eq!(manager.admit_command("true"), Ok(()));
    assert!(manager.is_busy());
    let response = manager.finish_command(Some(0));
    assert!(!manager.is_busy());
    assert!(manager.get_running_pid().is_none());
    assert!(response.success);
    assert_eq!(response.exit_code, Some(0));
    assert!(response.error.is_none());
}

#[test]
fn test_finish_command_without_exit_code() {
    let manager = ShellManager::new();
    assert_eq!(manager.admit_command("true"), Ok(()));
    let response = manager.finish_command(None);
    assert!(!response.success);
    assert_eq!(response.exit_code, None);
    assert_eq!(
        response.error,
        Some("Process terminated without exit code".to_string())
    );
    assert!(!manager.is_busy());
}

#[test]
fn test_spawn_failure_releases_session() {
    let manager = ShellManager::new();
    assert_eq!(manager.admit_command("true"), Ok(()));
    let e = manager.note_spawn_failure("permission denied".to_string());
    assert_eq!(
        e.message(),
        "Failed to spawn process: permission denied"
    );
    assert!(!manager.is_busy());
}

#[test]
fn test_wait_failure_releases_session() {
    let manager = ShellManager::new();
    assert_eq!(manager.admit_command("true"), Ok(()));
    let e = manager.note_wait_failure("interrupted".to_string());
    assert_eq!(e.message(), "Failed to wait for process: interrupted");
    assert!(!manager.is_busy());
    assert!(manager.get_running_pid().is_none());
}

#[test]
fn test_cancel_decision() {
    assert_eq!(cancel_decision(Some(77)), Ok(77));
    assert_eq!(cancel_decision(None), Err(ExecError::NothingRunning));
}

#[test]
fn test_error_messages() {
    assert_eq!(ExecError::EmptyCommand.message(), "Command cannot be empty");
    assert_eq!(
        ExecError::AlreadyRunning.message(),
        "Command already running"
    );
    assert_eq!(
        ExecError::InvalidDirectory {
            path: "/x".to_string()
        }
        .message(),
        "Directory does not exist: /x"
    );
    assert_eq!(
        ExecError::NothingRunning.message(),
        "No command currently running"
    );
    assert_eq!(
        ExecError::SignalFailed {
            detail: "ESRCH".to_string()
        }
        .message(),
        "Failed to send SIGINT: ESRCH"
    );
}

#[test]
fn test_apply_directory_change() {
    let manager = ShellManager::new();
    let note = manager.apply_directory_change("/tmp", 5);
    assert_eq!(manager.get_cwd(), "/tmp");
    assert_eq!(note.text(), "Changed directory to: /tmp");
    assert_eq!(note.timestamp(), 5);
    assert!(matches!(note, OutputLine::Notification { .. }));
}

#[test]
fn test_path_helpers() {
    assert!(is_relative_path(""));
    assert!(is_relative_path("sub/dir"));
    assert!(!is_relative_path("/absolute"));
    assert_eq!(join_path("/home/user", "docs"), "/home/user/docs");
    assert_eq!(join_path("/", "etc"), "/etc");
    assert_eq!(join_path("", "etc"), "/etc");
}

#[test]
fn test_command_is_blank() {
    assert!(command_is_blank(""));
    assert!(command_is_blank(" \t\r\n"));
    assert!(command_is_blank("\u{A0}\u{2003}"));
    assert!(!command_is_blank("x"));
    assert!(!command_is_blank("  x  "));
}

#[test]
fn test_number_rendering() {
    assert_eq!(u64_to_dec(0), "0");
    assert_eq!(u64_to_dec(42), "42");
    assert_eq!(u64_to_dec(10000), "10000");
    assert_eq!(u64_to_dec(u64::MAX), "18446744073709551615");
    assert_eq!(i32_to_dec(-1), "-1");
    assert_eq!(i32_to_dec(i32::MIN), "-2147483648");
    assert_eq!(i32_to_dec(7), "7");
    assert_eq!(u64_to_hex16(255), "00000000000000ff");
    assert_eq!(u64_to_hex16(u64::MAX), "ffffffffffffffff");
}

#[test]
fn test_str_contains() {
    assert!(str_contains("output truncated here", "truncated"));
    assert!(str_contains("abc", ""));
    assert!(str_contains("abc", "abc"));
    assert!(!str_contains("abc", "abcd"));
    assert!(!str_contains("", "a"));
    assert!(str_contains("aaab", "aab"));
}
