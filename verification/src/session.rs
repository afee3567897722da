//! Session state: the current working directory, the busy flag that admits
//! at most one command at a time, and the identity of the running child
//! process (owned handle plus numeric PID).
//!
//! `SessionCore` is the sequential core with exact contracts; `ShellState`
//! shares one core under a lock so that the busy flag and the PID are always
//! read and written together, under one consistent observation — this is
//! what rules out the check-then-act race between a status check and a
//! cancellation lookup. The working directory has a lock of its own.

use std::sync::Arc;

use vstd::prelude::*;
use vstd::rwlock::{RwLock, RwLockPredicate};
use vstd::string::*;

use crate::history::{share_arc, HistoryBuffer, DEFAULT_CAPACITY};

verus! {

/// The child-process handle of the tokio runtime. Opaque to the library: it
/// is held, handed out and dropped, never inspected beyond its PID.
#[verifier::external_type_specification]
#[verifier::external_body]
pub struct ExChild(tokio::process::Child);

/// Relies on tokio::process::Child::id: reports the OS-assigned process
/// identifier while the child is still running, and None once the child has
/// been polled to completion.
pub assume_specification[ tokio::process::Child::id ](child: &tokio::process::Child) -> Option<u32>;

/// The claim step of the busy flag: the claim succeeds exactly when the flag
/// was clear, and the flag is set afterwards in either case.
pub open spec fn busy_claim(busy: bool) -> (bool, bool) {
    (!busy, true)
}

/// The PID observation used by cancellation: a PID is reported only while
/// the session is busy, even if a stale value is still stored.
pub open spec fn pid_if_busy(busy: bool, pid: Option<u32>) -> Option<u32> {
    if busy {
        pid
    } else {
        None
    }
}

/// Two claims of the busy flag, serialized in either order by the session's
/// lock: they never both succeed, and from an idle session exactly the first
/// one does — the admission gate admits exactly one of two racing commands.
pub proof fn lemma_busy_claim_exclusive(b0: bool)
    ensures
        !(busy_claim(b0).0 && busy_claim(busy_claim(b0).1).0),
        !b0 ==> busy_claim(b0).0 && !busy_claim(busy_claim(b0).1).0,
{
}

/// Whenever the session is not busy, the joint observation reports no PID,
/// even if a stale PID value is still stored.
pub proof fn lemma_no_pid_when_idle(busy: bool, pid: Option<u32>)
    ensures
        !busy ==> pid_if_busy(busy, pid) is None,
{
}

/// The sequential core of the control state: the busy flag, the stored PID,
/// and the owned process handle.
pub struct SessionCore {
    /// Is the session currently executing a command?
    pub busy: bool,
    /// Process ID of the running command, if one was recorded.
    pub pid: Option<u32>,
    /// The owned handle of the running child process, if any.
    pub process: Option<tokio::process::Child>,
}

impl SessionCore {
    /// A fresh core: not busy, no PID, no process.
    pub fn new() -> (s: Self)
        ensures
            !s.busy,
            s.pid is None,
            s.process is None,
    {
        SessionCore { busy: false, pid: None, process: None }
    }

    /// Atomically claim the busy flag: succeeds exactly when the flag was
    /// clear; never touches the PID or the process handle.
    pub fn try_set_busy(&mut self) -> (r: bool)
        ensures
            (r, final (self).busy) == busy_claim(old(self).busy),
            final (self).pid == old(self).pid,
            final (self).process == old(self).process,
    {
        if self.busy {
            false
        } else {
            self.busy = true;
            true
        }
    }

    /// The PID, but only under a busy observation: None whenever the session
    /// is not busy, even if a PID value is still stored.
    pub fn get_pid_if_busy(&self) -> (r: Option<u32>)
        ensures
            r == pid_if_busy(self.busy, self.pid),
    {
        if self.busy {
            self.pid
        } else {
            None
        }
    }

    /// Record a spawned child: the handle is owned from here on and its
    /// reported id becomes the stored PID.
    pub fn set_process(&mut self, child: tokio::process::Child)
        ensures
            final (self).process is Some,
            final (self).busy == old(self).busy,
    {
        let pid = child.id();
        self.process = Some(child);
        self.pid = pid;
    }

    /// Hand the owned process handle out, clearing the stored identity.
    pub fn take_process(&mut self) -> (r: Option<tokio::process::Child>)
        ensures
            r == old(self).process,
            final (self).process is None,
            final (self).pid is None,
            final (self).busy == old(self).busy,
    {
        let process = self.process.take();
        self.pid = None;
        process
    }

    /// Drop the owned process handle and the stored identity.
    pub fn clear_process(&mut self)
        ensures
            final (self).process is None,
            final (self).pid is None,
            final (self).busy == old(self).busy,
    {
        self.process = None;
        self.pid = None;
    }
}

/// The control state carries no standing invariant: any combination of flag,
/// PID and handle may be observed between engine steps.
pub struct ControlPred {}

impl RwLockPredicate<SessionCore> for ControlPred {
    open spec fn inv(self, v: SessionCore) -> bool {
        true
    }
}

/// The working directory is a free-form string.
pub struct CwdPred {}

impl RwLockPredicate<String> for CwdPred {
    open spec fn inv(self, v: String) -> bool {
        true
    }
}

/// Tracks the current state of the shell session. Each field group has a
/// guard of its own: the busy flag, PID and process handle live under one
/// lock, so a joint observation of them is atomic; the working directory is
/// independent. Clones share the same state.
pub struct ShellState {
    control: Arc<RwLock<SessionCore, ControlPred>>,
    cwd: Arc<RwLock<String, CwdPred>>,
}

impl ShellState {
    /// Create a new shell state with the given initial working directory.
    pub fn new(initial_cwd: String) -> Self {
        ShellState {
            control: Arc::new(RwLock::new(SessionCore::new(), Ghost(ControlPred {}))),
            cwd: Arc::new(RwLock::new(initial_cwd, Ghost(CwdPred {}))),
        }
    }

    /// Get the current working directory.
    pub fn get_cwd(&self) -> String {
        let read = self.cwd.acquire_read();
        let r = read.borrow().clone();
        read.release_read();
        r
    }

    /// Set the current working directory.
    pub fn set_cwd(&self, cwd: String) {
        let (_old_cwd, handle) = self.cwd.acquire_write();
        handle.release_write(cwd);
    }

    /// Check if the session is currently busy.
    pub fn is_busy(&self) -> bool {
        let read = self.control.acquire_read();
        let r = read.borrow().busy;
        read.release_read();
        r
    }

    /// Set the busy flag.
    pub fn set_busy(&self, busy: bool) {
        let (mut core, handle) = self.control.acquire_write();
        core.busy = busy;
        handle.release_write(core);
    }

    /// Atomically try to set the busy flag from false to true. Returns true
    /// if this call made the transition, false if the session was already
    /// busy. This is the single admission gate: of two racing callers,
    /// exactly one receives true.
    pub fn try_set_busy(&self) -> bool {
        let (mut core, handle) = self.control.acquire_write();
        let r = core.try_set_busy();
        handle.release_write(core);
        r
    }

    /// Get the stored process ID, if any.
    pub fn get_pid(&self) -> Option<u32> {
        let read = self.control.acquire_read();
        let r = read.borrow().pid;
        read.release_read();
        r
    }

    /// Store a process ID without a handle.
    pub fn set_pid(&self, pid: Option<u32>) {
        let (mut core, handle) = self.control.acquire_write();
        core.pid = pid;
        handle.release_write(core);
    }

    /// Atomically get the PID only if the session is busy. The flag and the
    /// PID are read under one lock acquisition, so a caller never sees a PID
    /// for a command that has already released the session.
    pub fn get_pid_if_busy(&self) -> Option<u32> {
        let read = self.control.acquire_read();
        let r = read.borrow().get_pid_if_busy();
        read.release_read();
        r
    }

    /// Associate the spawned child process and its PID with the session.
    pub fn set_process(&self, child: tokio::process::Child) {
        let (mut core, handle) = self.control.acquire_write();
        core.set_process(child);
        handle.release_write(core);
    }

    /// Take ownership of the running process, clearing the stored identity.
    pub fn take_process(&self) -> Option<tokio::process::Child> {
        let (mut core, handle) = self.control.acquire_write();
        let r = core.take_process();
        handle.release_write(core);
        r
    }

    /// Drop the running process handle and the stored identity.
    pub fn clear_process(&self) {
        let (mut core, handle) = self.control.acquire_write();
        core.clear_process();
        handle.release_write(core);
    }
}

impl Clone for ShellState {
    /// The clone shares the same session state.
    fn clone(&self) -> Self {
        ShellState { control: share_arc(&self.control), cwd: share_arc(&self.cwd) }
    }
}

impl Default for ShellState {
    /// A fresh session whose working directory is the filesystem root.
    fn default() -> Self {
        ShellState::new("/".to_owned())
    }
}

/// Manages the shell session: its state and its history buffer. Clones
/// share both.
pub struct ShellManager {
    /// Session state (process identity, working directory, busy flag).
    pub shell_state: ShellState,
    /// History buffer for terminal output.
    pub history_buffer: HistoryBuffer,
}

impl ShellManager {
    /// A manager with the default history capacity, rooted at the
    /// filesystem root.
    pub fn new() -> (s: Self)
        ensures
            s.history_buffer.capacity() == DEFAULT_CAPACITY as int,
    {
        ShellManager {
            shell_state: ShellState::default(),
            history_buffer: HistoryBuffer::default(),
        }
    }

    /// A manager with the default history capacity and an explicit initial
    /// working directory.
    pub fn new_with_cwd(initial_cwd: String) -> (s: Self)
        ensures
            s.history_buffer.capacity() == DEFAULT_CAPACITY as int,
    {
        ShellManager {
            shell_state: ShellState::new(initial_cwd),
            history_buffer: HistoryBuffer::default(),
        }
    }

    /// A manager with a custom history capacity.
    pub fn with_capacity(buffer_capacity: usize) -> (s: Self)
        requires
            1 <= buffer_capacity,
        ensures
            s.history_buffer.capacity() == buffer_capacity as int,
    {
        ShellManager {
            shell_state: ShellState::default(),
            history_buffer: HistoryBuffer::new(buffer_capacity),
        }
    }

    /// A manager with a custom history capacity and an explicit initial
    /// working directory.
    pub fn with_capacity_and_cwd(buffer_capacity: usize, initial_cwd: String) -> (s: Self)
        requires
            1 <= buffer_capacity,
        ensures
            s.history_buffer.capacity() == buffer_capacity as int,
    {
        ShellManager {
            shell_state: ShellState::new(initial_cwd),
            history_buffer: HistoryBuffer::new(buffer_capacity),
        }
    }

    /// Get the current working directory.
    pub fn get_cwd(&self) -> String {
        self.shell_state.get_cwd()
    }

    /// Check if the session is currently busy.
    pub fn is_busy(&self) -> bool {
        self.shell_state.is_busy()
    }

    /// Atomically try to set the busy flag from false to true.
    pub fn try_set_busy(&self) -> bool {
        self.shell_state.try_set_busy()
    }

    /// Get the PID of the running command, under one atomic observation of
    /// the busy flag and the PID.
    pub fn get_running_pid(&self) -> Option<u32> {
        self.shell_state.get_pid_if_busy()
    }
}

impl Clone for ShellManager {
    /// The clone shares the session state and the history buffer.
    fn clone(&self) -> (r: Self)
        ensures
            r.history_buffer.capacity() == self.history_buffer.capacity(),
    {
        ShellManager {
            shell_state: self.shell_state.clone(),
            history_buffer: self.history_buffer.clone(),
        }
    }
}

impl Default for ShellManager {
    /// A manager with the default history capacity.
    fn default() -> (s: Self)
        ensures
            s.history_buffer.capacity() == DEFAULT_CAPACITY as int,
    {
        ShellManager::new()
    }
}

} // verus!
