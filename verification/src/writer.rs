//! The write/flush state machine.
//!
//! One `FileWriter` guards one file handle.  Writes and flushes share the
//! machine, so a flush can never be submitted while a write is outstanding
//! and vice versa: the handle sees at most one blocking call at a time.
//!
//! A call from the idle state submits work and reports the retry signal;
//! the caller repeats the call, the machine asks for a poll, and the
//! completed operation's result is returned then.  A write completion
//! observed while a flush is outstanding (or the reverse) is never
//! conflated: a `write` with a flush in flight backs off without touching
//! the flush, so the flush's completion is only ever observed by `flush`.

use vstd::prelude::*;

use crate::PollReport;
use crate::FileError;
use crate::buffer::prefix_to_capacity;
use crate::buffer::submission_prefix;

verus! {

/// Which blocking operation the in-flight pool task performs.
#[derive(Clone, Copy, PartialEq, Eq, Structural, Debug)]
pub enum WriterOp {
    Write,
    Flush,
}

/// Where the file handle is, as the writer tracks it.
#[derive(Clone, Copy, PartialEq, Eq, Structural, Debug)]
pub enum WriterState {
    /// The handle rests with the machine; a new operation may be submitted.
    Idle,
    /// The handle has been moved into a worker-pool task.
    InFlight(WriterOp),
    /// The handle is gone for good: released to the caller, or lost when a
    /// blocking call failed.
    Lost,
}

/// The abstract writer: its state and the capacity of its write buffer.
pub struct WriterView {
    pub state: WriterState,
    pub capacity: nat,
}

/// What the runtime must do after a `write` call.
pub enum WriteAction {
    /// Move the handle into a pool task that writes exactly these bytes and
    /// hands the handle back with the count the blocking write returned;
    /// then report `WouldBlock` so the caller retries.
    Submit(Vec<u8>),
    /// A write is outstanding: poll it and report the result through
    /// `write_poll`.
    PollWrite,
    /// A flush is outstanding: report `WouldBlock` without touching it.
    Busy,
    /// The handle is gone: report `HandleUnavailable`.
    Rejected,
}

/// What the runtime must do after a `flush` call.
pub enum FlushAction {
    /// Move the handle into a pool task that flushes it and hands it back;
    /// then report `WouldBlock` so the caller retries.
    Submit,
    /// A flush is outstanding: poll it and report the result through
    /// `flush_poll`.
    PollFlush,
    /// A write is outstanding: report `WouldBlock` without touching it.
    Busy,
    /// The handle is gone: report `HandleUnavailable`.
    Rejected,
}

/// What the caller of `write` is owed once the outstanding write was polled.
pub enum WriteOutcome {
    /// The write finished: this many bytes of the submitted prefix reached
    /// the handle.
    Done(usize),
    /// Still running: report `WouldBlock`.
    Retry,
    /// The blocking write failed: propagate the I/O error; the handle is
    /// lost with the task.
    Failed,
}

/// What the caller of `flush` is owed once the outstanding flush was polled.
pub enum FlushOutcome {
    /// The flush finished.
    Done,
    /// Still running: report `WouldBlock`.
    Retry,
    /// The blocking flush failed: propagate the I/O error; the handle is
    /// lost with the task.
    Failed,
}

/// How `write` may move the machine: a submission carries exactly the
/// longest prefix of `src` that fits the buffer, and arises only from the
/// idle state.
pub open spec fn write_step(pre: WriterView, src: Seq<u8>, post: WriterView, a: WriteAction) -> bool {
    &&& post.capacity == pre.capacity
    &&& match pre.state {
        WriterState::Idle => {
            &&& a matches WriteAction::Submit(buf) && buf@ == submission_prefix(src, pre.capacity)
            &&& post.state == WriterState::InFlight(WriterOp::Write)
        },
        WriterState::InFlight(op) => {
            &&& post.state == pre.state
            &&& if op is Write {
                a is PollWrite
            } else {
                a is Busy
            }
        },
        WriterState::Lost => {
            &&& post.state == pre.state
            &&& a is Rejected
        },
    }
}

/// How a polled write completion may move the machine: success restores the
/// idle state and surrenders the byte count, failure loses the handle, and
/// a pending report changes nothing.
pub open spec fn write_poll_step(
    pre: WriterView,
    r: PollReport<usize>,
    post: WriterView,
    out: WriteOutcome,
) -> bool {
    &&& post.capacity == pre.capacity
    &&& match r {
        PollReport::Pending => post.state == pre.state && out is Retry,
        PollReport::Ready(count) => post.state == WriterState::Idle && out == WriteOutcome::Done(
            count,
        ),
        PollReport::Failed => post.state == WriterState::Lost && out is Failed,
    }
}

/// How `flush` may move the machine.
pub open spec fn flush_step(pre: WriterView, post: WriterView, a: FlushAction) -> bool {
    &&& post.capacity == pre.capacity
    &&& match pre.state {
        WriterState::Idle => {
            &&& a is Submit
            &&& post.state == WriterState::InFlight(WriterOp::Flush)
        },
        WriterState::InFlight(op) => {
            &&& post.state == pre.state
            &&& if op is Flush {
                a is PollFlush
            } else {
                a is Busy
            }
        },
        WriterState::Lost => {
            &&& post.state == pre.state
            &&& a is Rejected
        },
    }
}

/// How a polled flush completion may move the machine.
pub open spec fn flush_poll_step(
    pre: WriterView,
    r: PollReport<()>,
    post: WriterView,
    out: FlushOutcome,
) -> bool {
    &&& post.capacity == pre.capacity
    &&& match r {
        PollReport::Pending => post.state == pre.state && out is Retry,
        PollReport::Ready(u) => post.state == WriterState::Idle && out is Done,
        PollReport::Failed => post.state == WriterState::Lost && out is Failed,
    }
}

/// How releasing the handle may move the machine: it succeeds exactly from
/// the idle state and leaves the machine permanently empty.
pub open spec fn release_step(pre: WriterView, post: WriterView, r: Result<(), FileError>) -> bool {
    &&& post.capacity == pre.capacity
    &&& match pre.state {
        WriterState::Idle => r is Ok && post.state == WriterState::Lost,
        WriterState::InFlight(op) => r == Err::<(), FileError>(FileError::HandleUnavailable)
            && post.state == pre.state,
        WriterState::Lost => r == Err::<(), FileError>(FileError::HandleUnavailable) && post.state
            == pre.state,
    }
}

/// The non-blocking writer over one file handle.  It buffers a prefix of
/// the caller's bytes, asks the runtime to submit one blocking write or
/// flush at a time, and tracks its completion.
pub struct FileWriter {
    state: WriterState,
    capacity: usize,
}

impl View for FileWriter {
    type V = WriterView;

    closed spec fn view(&self) -> WriterView {
        WriterView { state: self.state, capacity: self.capacity as nat }
    }
}

impl FileWriter {
    /// A fresh machine around a handle the caller just gave up, with a
    /// write buffer of the given capacity.
    pub fn new(capacity: usize) -> (w: FileWriter)
        ensures
            w@.state is Idle,
            w@.capacity == capacity,
    {
        FileWriter { state: WriterState::Idle, capacity }
    }

    /// The machine's current state.
    pub fn state(&self) -> (s: WriterState)
        ensures
            s == self@.state,
    {
        self.state
    }

    /// One `write(src)` call.  From idle it takes the longest prefix of
    /// `src` that fits the buffer and asks for its submission; with a write
    /// outstanding it asks for a poll; with a flush outstanding it backs
    /// off; on a lost handle it rejects.
    pub fn write(&mut self, src: &Vec<u8>) -> (a: WriteAction)
        ensures
            write_step(old(self)@, src@, final(self)@, a),
    {
        match self.state {
            WriterState::Idle => {
                let buf = prefix_to_capacity(src, self.capacity);
                self.state = WriterState::InFlight(WriterOp::Write);
                WriteAction::Submit(buf)
            },
            WriterState::InFlight(WriterOp::Write) => WriteAction::PollWrite,
            WriterState::InFlight(WriterOp::Flush) => WriteAction::Busy,
            WriterState::Lost => WriteAction::Rejected,
        }
    }

    /// The runtime's report after polling the outstanding write.
    pub fn write_poll(&mut self, r: PollReport<usize>) -> (out: WriteOutcome)
        requires
            old(self)@.state == WriterState::InFlight(WriterOp::Write),
        ensures
            write_poll_step(old(self)@, r, final(self)@, out),
    {
        match r {
            PollReport::Pending => WriteOutcome::Retry,
            PollReport::Ready(count) => {
                self.state = WriterState::Idle;
                WriteOutcome::Done(count)
            },
            PollReport::Failed => {
                self.state = WriterState::Lost;
                WriteOutcome::Failed
            },
        }
    }

    /// One `flush()` call, under the same discipline as `write`.
    pub fn flush(&mut self) -> (a: FlushAction)
        ensures
            flush_step(old(self)@, final(self)@, a),
    {
        match self.state {
            WriterState::Idle => {
                self.state = WriterState::InFlight(WriterOp::Flush);
                FlushAction::Submit
            },
            WriterState::InFlight(WriterOp::Flush) => FlushAction::PollFlush,
            WriterState::InFlight(WriterOp::Write) => FlushAction::Busy,
            WriterState::Lost => FlushAction::Rejected,
        }
    }

    /// The runtime's report after polling the outstanding flush.
    pub fn flush_poll(&mut self, r: PollReport<()>) -> (out: FlushOutcome)
        requires
            old(self)@.state == WriterState::InFlight(WriterOp::Flush),
        ensures
            flush_poll_step(old(self)@, r, final(self)@, out),
    {
        match r {
            PollReport::Pending => FlushOutcome::Retry,
            PollReport::Ready(_) => {
                self.state = WriterState::Idle;
                FlushOutcome::Done
            },
            PollReport::Failed => {
                self.state = WriterState::Lost;
                FlushOutcome::Failed
            },
        }
    }

    /// Give the handle back to the caller.  Succeeds exactly when the
    /// machine is idle; afterwards the machine is permanently empty and
    /// every operation is rejected.
    pub fn release(&mut self) -> (r: Result<(), FileError>)
        ensures
            release_step(old(self)@, final(self)@, r),
    {
        match self.state {
            WriterState::Idle => {
                self.state = WriterState::Lost;
                Ok(())
            },
            WriterState::InFlight(_) => Err(FileError::HandleUnavailable),
            WriterState::Lost => Err(FileError::HandleUnavailable),
        }
    }
}

} // verus!
