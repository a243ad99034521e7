//! Poll-driven state machines that bridge a blocking file handle onto a
//! non-blocking caller.
//!
//! A caller owns one state machine per open handle.  Each logical operation
//! (write, flush, read, next chunk) moves the machine from its idle state
//! into an in-flight state; the surrounding runtime performs the one blocking
//! call that the machine asks for on a worker pool, polls the pool's handle,
//! and reports the outcome back.  The machines enforce the single-flight
//! discipline — at most one blocking operation per handle is ever
//! outstanding — and decide every transition; the runtime around them only
//! executes the actions they return.

use vstd::prelude::*;

pub mod buffer;
pub mod chunk;
pub mod laws;
pub mod reader;
pub mod sink;
pub mod stream;
pub mod writer;

verus! {

/// Failure reported to the caller of a machine operation.
///
/// `WouldBlock` is a retry signal, not a fault: the operation was either
/// just submitted or is still running, and the same call must be repeated.
/// `HandleUnavailable` is fatal for the instance: the handle has been moved
/// out (released to the caller, or lost after an I/O failure) and no further
/// operation will ever succeed.
#[derive(Clone, Copy, PartialEq, Eq, Structural, Debug)]
pub enum FileError {
    WouldBlock,
    HandleUnavailable,
}

impl FileError {
    /// The text a runtime puts on the error it hands its caller.
    pub fn message(&self) -> (m: &'static str)
        ensures
            self is WouldBlock ==> m@ == "`File` instance is blocked"@,
            self is HandleUnavailable ==> m@ == "`File` instance already shutdown"@,
    {
        match self {
            FileError::WouldBlock => "`File` instance is blocked",
            FileError::HandleUnavailable => "`File` instance already shutdown",
        }
    }
}

/// Outcome of polling the worker pool's handle for an in-flight operation,
/// as the runtime reports it back to a machine.
///
/// `Ready` carries the value the blocking call returned; `Failed` stands for
/// an I/O failure (the runtime keeps the underlying error itself and
/// propagates it verbatim; the machine only records that the handle is
/// lost).
pub enum PollReport<T> {
    Pending,
    Ready(T),
    Failed,
}

} // verus!
