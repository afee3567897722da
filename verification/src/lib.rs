//! A verified shell execution and session-state engine: a capacity-bounded,
//! truncation-aware history of output lines, a session with an atomic
//! admission gate and process identity, and the decision logic of command
//! execution and cancellation. The asynchronous plumbing that spawns the
//! shell process and drains its streams lives with the caller; every
//! decision it takes is a contract-bearing function of this library.

pub mod command;
pub mod engine;
pub mod history;
pub mod output;
pub mod session;
pub mod text;
