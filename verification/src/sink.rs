//! The backpressure-aware sink state machine.
//!
//! A `FileSink` takes ownership of whole chunks.  It accepts at most one
//! chunk ahead of the worker pool: a chunk offered while the previous write
//! is still running is handed back to the caller, who must hold it and
//! retry.  Unlike the writer, a sink submission writes the chunk's entire
//! contents — there is no partial-write truncation.

use vstd::prelude::*;

use crate::PollReport;
use crate::FileError;
use crate::chunk::Chunk;

verus! {

/// Where the file handle is, as the sink tracks it.
#[derive(Clone, Copy, PartialEq, Eq, Structural, Debug)]
pub enum SinkState {
    /// The handle rests with the machine; a chunk may be accepted.
    Idle,
    /// The handle and one chunk are with a worker-pool task.
    InFlight,
    /// The handle is gone for good.
    Lost,
}

/// What the runtime must do after offering a chunk.
pub enum AcceptAction {
    /// The chunk was accepted: move the handle and these bytes into a pool
    /// task that writes the whole chunk and hands the handle back.
    Submit(Chunk),
    /// The previous chunk's write is still outstanding: poll it first and
    /// report through `complete_poll`, then offer the chunk again or hand
    /// it back to the caller.
    PollFirst(Chunk),
    /// The handle is gone: hand the chunk back with `HandleUnavailable`.
    Rejected(Chunk),
}

/// What the runtime must do after a drain request.
pub enum CompleteAction {
    /// Nothing is outstanding: everything accepted so far is durable.
    AlreadyIdle,
    /// Poll the outstanding write and report through `complete_poll`.
    Poll,
    /// The handle is gone: report `HandleUnavailable`.
    Rejected,
}

/// What the caller is owed once the outstanding write was polled.
pub enum SinkOutcome {
    /// The chunk reached the handle; the sink is ready for the next one.
    Done,
    /// Still running: not ready yet.
    Retry,
    /// The blocking write failed: propagate the I/O error; the handle is
    /// lost with the task.
    Failed,
}

/// How offering a chunk may move the machine: a submission arises only from
/// the idle state and carries the offered bytes unchanged; a busy machine
/// hands the chunk back untouched.
pub open spec fn accept_step(pre: SinkState, c: Seq<u8>, post: SinkState, a: AcceptAction) -> bool {
    match pre {
        SinkState::Idle => {
            &&& a matches AcceptAction::Submit(d) && d@ == c
            &&& post == SinkState::InFlight
        },
        SinkState::InFlight => {
            &&& a matches AcceptAction::PollFirst(d) && d@ == c
            &&& post == pre
        },
        SinkState::Lost => {
            &&& a matches AcceptAction::Rejected(d) && d@ == c
            &&& post == pre
        },
    }
}

/// How a drain request may move the machine.
pub open spec fn complete_step(pre: SinkState, post: SinkState, a: CompleteAction) -> bool {
    &&& post == pre
    &&& match pre {
        SinkState::Idle => a is AlreadyIdle,
        SinkState::InFlight => a is Poll,
        SinkState::Lost => a is Rejected,
    }
}

/// How a polled completion may move the machine.
pub open spec fn complete_poll_step(
    pre: SinkState,
    r: PollReport<()>,
    post: SinkState,
    out: SinkOutcome,
) -> bool {
    match r {
        PollReport::Pending => post == pre && out is Retry,
        PollReport::Ready(u) => post == SinkState::Idle && out is Done,
        PollReport::Failed => post == SinkState::Lost && out is Failed,
    }
}

/// How releasing the handle may move the machine.
pub open spec fn sink_release_step(pre: SinkState, post: SinkState, r: Result<
    (),
    FileError,
>) -> bool {
    match pre {
        SinkState::Idle => r is Ok && post == SinkState::Lost,
        SinkState::InFlight => r == Err::<(), FileError>(FileError::HandleUnavailable) && post
            == pre,
        SinkState::Lost => r == Err::<(), FileError>(FileError::HandleUnavailable) && post == pre,
    }
}

/// The backpressure-aware write collector over one file handle.
pub struct FileSink {
    state: SinkState,
}

impl View for FileSink {
    type V = SinkState;

    closed spec fn view(&self) -> SinkState {
        self.state
    }
}

impl FileSink {
    /// A fresh machine around a handle the caller just gave up.
    pub fn new() -> (s: FileSink)
        ensures
            s@ is Idle,
    {
        FileSink { state: SinkState::Idle }
    }

    /// The machine's current state.
    pub fn state(&self) -> (s: SinkState)
        ensures
            s == self@,
    {
        self.state
    }

    /// Offer one chunk.  From idle the chunk is accepted and must be
    /// submitted whole; with a write outstanding that write must be polled
    /// first; on a lost handle the chunk is handed back.
    pub fn accept(&mut self, c: Chunk) -> (a: AcceptAction)
        ensures
            accept_step(old(self)@, c@, final(self)@, a),
    {
        match self.state {
            SinkState::Idle => {
                self.state = SinkState::InFlight;
                AcceptAction::Submit(c)
            },
            SinkState::InFlight => AcceptAction::PollFirst(c),
            SinkState::Lost => AcceptAction::Rejected(c),
        }
    }

    /// Ask to drain the sink: everything accepted so far is durable once
    /// this reports that nothing is outstanding.
    pub fn complete(&mut self) -> (a: CompleteAction)
        ensures
            complete_step(old(self)@, final(self)@, a),
    {
        match self.state {
            SinkState::Idle => CompleteAction::AlreadyIdle,
            SinkState::InFlight => CompleteAction::Poll,
            SinkState::Lost => CompleteAction::Rejected,
        }
    }

    /// The runtime's report after polling the outstanding write.
    pub fn complete_poll(&mut self, r: PollReport<()>) -> (out: SinkOutcome)
        requires
            old(self)@ is InFlight,
        ensures
            complete_poll_step(old(self)@, r, final(self)@, out),
    {
        match r {
            PollReport::Pending => SinkOutcome::Retry,
            PollReport::Ready(_) => {
                self.state = SinkState::Idle;
                SinkOutcome::Done
            },
            PollReport::Failed => {
                self.state = SinkState::Lost;
                SinkOutcome::Failed
            },
        }
    }

    /// Give the handle back to the caller.  Succeeds exactly when the
    /// machine is idle; afterwards every operation is rejected.
    pub fn release(&mut self) -> (r: Result<(), FileError>)
        ensures
            sink_release_step(old(self)@, final(self)@, r),
    {
        match self.state {
            SinkState::Idle => {
                self.state = SinkState::Lost;
                Ok(())
            },
            SinkState::InFlight => Err(FileError::HandleUnavailable),
            SinkState::Lost => Err(FileError::HandleUnavailable),
        }
    }
}

} // verus!
