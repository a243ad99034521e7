//! The read state machine.
//!
//! A `FileReader` owns one internal buffer, allocated once and reused for
//! every read.  Submitting a read moves the buffer out wholesale — into the
//! pool task, which fills its front — and completing the read moves it back,
//! so the machine never touches the buffer while an operation is
//! outstanding.  On completion the bytes the blocking call produced are
//! copied into the caller's destination; a count of zero is end-of-file.

use vstd::prelude::*;

use crate::PollReport;
use crate::FileError;
use crate::buffer::clamp;
use crate::buffer::clamped_len;
use crate::buffer::copy_prefix_into;
use crate::buffer::zeroed;

verus! {

/// Where the file handle and the internal buffer are, as the reader tracks
/// them.
#[derive(Clone, Copy, PartialEq, Eq, Structural, Debug)]
pub enum ReaderState {
    /// Handle and buffer rest with the machine; a read may be submitted.
    Idle,
    /// Handle and buffer are with a worker-pool task.
    InFlight,
    /// The handle is gone for good.
    Lost,
}

/// The abstract reader: its state and the fixed capacity of its internal
/// buffer.
pub struct ReaderView {
    pub state: ReaderState,
    pub capacity: nat,
}

/// What the runtime must do after a `read` call.
pub enum ReadAction {
    /// Move the handle and this buffer into a pool task that reads up to
    /// `limit` bytes into the buffer's front and hands both back with the
    /// count; then report `WouldBlock` so the caller retries.
    Submit { buffer: Vec<u8>, limit: usize },
    /// A read is outstanding: poll it and report through `read_poll`.
    Poll,
    /// The handle is gone: report `HandleUnavailable`.
    Rejected,
}

/// What the caller of `read` is owed once the outstanding read was polled.
pub enum ReadOutcome {
    /// The read finished: this many bytes were copied into the caller's
    /// destination.  Zero is end-of-file.
    Done(usize),
    /// Still running: report `WouldBlock`.
    Retry,
    /// The blocking read failed: propagate the I/O error; the handle is
    /// lost with the task.
    Failed,
}

/// How `read` may move the machine: a submission arises only from the idle
/// state, hands out the whole internal buffer, and asks for at most
/// `capacity` bytes, clamped further to what the caller's destination can
/// hold.
pub open spec fn read_step(pre: ReaderView, dest_len: nat, post: ReaderView, a: ReadAction) -> bool {
    &&& post.capacity == pre.capacity
    &&& match pre.state {
        ReaderState::Idle => {
            &&& a matches ReadAction::Submit { buffer, limit } && buffer@.len() == pre.capacity
                && limit == clamped_len(dest_len, pre.capacity)
            &&& post.state == ReaderState::InFlight
        },
        ReaderState::InFlight => post.state == pre.state && a is Poll,
        ReaderState::Lost => post.state == pre.state && a is Rejected,
    }
}

/// How a polled completion may move the machine and the caller's
/// destination: success takes the buffer back, copies the `count` bytes the
/// blocking call produced over the front of `dest`, and restores the idle
/// state; failure loses the handle; a pending report changes nothing.
pub open spec fn read_poll_step(
    pre: ReaderView,
    r: PollReport<(Vec<u8>, usize)>,
    dest_pre: Seq<u8>,
    post: ReaderView,
    dest_post: Seq<u8>,
    out: ReadOutcome,
) -> bool {
    &&& post.capacity == pre.capacity
    &&& match r {
        PollReport::Pending => post.state == pre.state && dest_post == dest_pre && out is Retry,
        PollReport::Ready(filled) => {
            &&& post.state == ReaderState::Idle
            &&& dest_post == filled.0@.take(filled.1 as int) + dest_pre.skip(filled.1 as int)
            &&& out == ReadOutcome::Done(filled.1)
        },
        PollReport::Failed => post.state == ReaderState::Lost && dest_post == dest_pre
            && out is Failed,
    }
}

/// How releasing the handle may move the machine.
pub open spec fn reader_release_step(pre: ReaderView, post: ReaderView, r: Result<
    (),
    FileError,
>) -> bool {
    &&& post.capacity == pre.capacity
    &&& match pre.state {
        ReaderState::Idle => r is Ok && post.state == ReaderState::Lost,
        ReaderState::InFlight => r == Err::<(), FileError>(FileError::HandleUnavailable)
            && post.state == pre.state,
        ReaderState::Lost => r == Err::<(), FileError>(FileError::HandleUnavailable) && post.state
            == pre.state,
    }
}

/// The non-blocking reader over one file handle.
pub struct FileReader {
    state: ReaderState,
    /// The reusable internal buffer; held exactly while the machine is
    /// idle, with the pool task otherwise.
    stash: Option<Vec<u8>>,
    capacity: usize,
}

impl View for FileReader {
    type V = ReaderView;

    closed spec fn view(&self) -> ReaderView {
        ReaderView { state: self.state, capacity: self.capacity as nat }
    }
}

impl FileReader {
    /// The machine holds its buffer exactly when idle, and the buffer's
    /// length is pinned to the capacity chosen at construction.
    pub closed spec fn wf(&self) -> bool {
        &&& self.state is Idle ==> (self.stash matches Some(b) && b@.len() == self.capacity)
        &&& !(self.state is Idle) ==> self.stash is None
    }

    /// A fresh machine around a handle the caller just gave up, with an
    /// internal buffer of the given capacity, allocated once and zeroed.
    pub fn new(capacity: usize) -> (m: FileReader)
        ensures
            m.wf(),
            m@.state is Idle,
            m@.capacity == capacity,
    {
        FileReader { state: ReaderState::Idle, stash: Some(zeroed(capacity)), capacity }
    }

    /// The machine's current state.
    pub fn state(&self) -> (s: ReaderState)
        ensures
            s == self@.state,
    {
        self.state
    }

    /// One `read` call for a destination of `dest_len` bytes.  From idle
    /// the internal buffer moves out for a read of at most
    /// `min(dest_len, capacity)` bytes; with a read outstanding it asks for
    /// a poll; on a lost handle it rejects.
    pub fn read(&mut self, dest_len: usize) -> (a: ReadAction)
        requires
            old(self).wf(),
        ensures
            final(self).wf(),
            read_step(old(self)@, dest_len as nat, final(self)@, a),
    {
        match self.state {
            ReaderState::Idle => {
                let buffer = self.stash.take().unwrap();
                let limit = clamp(dest_len, self.capacity);
                self.state = ReaderState::InFlight;
                ReadAction::Submit { buffer, limit }
            },
            ReaderState::InFlight => ReadAction::Poll,
            ReaderState::Lost => ReadAction::Rejected,
        }
    }

    /// The runtime's report after polling the outstanding read.  On success
    /// it returns the same buffer with the count of bytes the blocking call
    /// put at its front; those bytes are copied over the front of `dest`
    /// and the buffer is stashed for reuse.
    pub fn read_poll(&mut self, dest: &mut Vec<u8>, r: PollReport<(Vec<u8>, usize)>) -> (out:
        ReadOutcome)
        requires
            old(self).wf(),
            old(self)@.state is InFlight,
            r matches PollReport::Ready(filled) ==> filled.0@.len() == old(self)@.capacity
                && filled.1 <= filled.0@.len() && filled.1 <= old(dest)@.len(),
        ensures
            final(self).wf(),
            read_poll_step(old(self)@, r, old(dest)@, final(self)@, final(dest)@, out),
    {
        match r {
            PollReport::Pending => ReadOutcome::Retry,
            PollReport::Ready((buffer, count)) => {
                copy_prefix_into(dest, &buffer, count);
                self.stash = Some(buffer);
                self.state = ReaderState::Idle;
                ReadOutcome::Done(count)
            },
            PollReport::Failed => {
                self.state = ReaderState::Lost;
                ReadOutcome::Failed
            },
        }
    }

    /// Give the handle back to the caller.  Succeeds exactly when the
    /// machine is idle; afterwards every operation is rejected.
    pub fn release(&mut self) -> (r: Result<(), FileError>)
        requires
            old(self).wf(),
        ensures
            final(self).wf(),
            reader_release_step(old(self)@, final(self)@, r),
    {
        match self.state {
            ReaderState::Idle => {
                self.state = ReaderState::Lost;
                self.stash = None;
                Ok(())
            },
            ReaderState::InFlight => Err(FileError::HandleUnavailable),
            ReaderState::Lost => Err(FileError::HandleUnavailable),
        }
    }
}

} // verus!
