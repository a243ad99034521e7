//! The chunk-stream state machine.
//!
//! A `FileStream` produces a lazy sequence of byte chunks read from one
//! file handle.  Each submission reads up to `buffer_size` bytes into a
//! fresh buffer, truncated to the bytes actually read; a non-empty result
//! is emitted as the next chunk, and the empty read marks the end of the
//! stream.  No emitted chunk is ever empty.

use vstd::prelude::*;

use crate::PollReport;
use crate::FileError;
use crate::chunk::Chunk;

verus! {

/// Where the file handle is, as the stream tracks it.
#[derive(Clone, Copy, PartialEq, Eq, Structural, Debug)]
pub enum StreamState {
    /// The handle rests with the machine; the next read may be submitted.
    Idle,
    /// The handle is with a worker-pool task.
    InFlight,
    /// The handle is gone for good.
    Lost,
}

/// The abstract stream: its state and the size of the buffer each
/// submission allocates.
pub struct StreamView {
    pub state: StreamState,
    pub buffer_size: nat,
}

/// What the runtime must do after a `next` call.
pub enum NextAction {
    /// Move the handle into a pool task that reads up to `limit` bytes into
    /// a fresh buffer, truncates it to the count the blocking read
    /// returned, and hands handle and chunk back.
    Submit { limit: usize },
    /// A read is outstanding: poll it and report through `next_poll`.
    Poll,
    /// The handle is gone: report `HandleUnavailable`.
    Rejected,
}

/// What the caller of `next` is owed once the outstanding read was polled.
pub enum StreamItem {
    /// The next chunk of the file; never empty.
    Item(Chunk),
    /// The empty read: end of the stream.  The machine is idle again, but a
    /// further `next` would only attempt another zero-byte read.
    Finished,
    /// Still running.
    NotReady,
    /// The blocking read failed: propagate the I/O error; the handle is
    /// lost with the task.
    Failed,
}

/// How `next` may move the machine: a submission arises only from the idle
/// state and asks for at most `buffer_size` bytes.
pub open spec fn next_step(pre: StreamView, post: StreamView, a: NextAction) -> bool {
    &&& post.buffer_size == pre.buffer_size
    &&& match pre.state {
        StreamState::Idle => {
            &&& a == NextAction::Submit { limit: pre.buffer_size as usize }
            &&& pre.buffer_size <= usize::MAX
            &&& post.state == StreamState::InFlight
        },
        StreamState::InFlight => post.state == pre.state && a is Poll,
        StreamState::Lost => post.state == pre.state && a is Rejected,
    }
}

/// How a polled completion may move the machine: a non-empty chunk is
/// emitted unchanged and the machine is idle for the following read; the
/// empty chunk ends the stream; failure loses the handle.
pub open spec fn next_poll_step(
    pre: StreamView,
    r: PollReport<Chunk>,
    post: StreamView,
    item: StreamItem,
) -> bool {
    &&& post.buffer_size == pre.buffer_size
    &&& match r {
        PollReport::Pending => post.state == pre.state && item is NotReady,
        PollReport::Ready(c) => {
            &&& post.state == StreamState::Idle
            &&& if c@.len() > 0 {
                item matches StreamItem::Item(d) && d@ == c@
            } else {
                item is Finished
            }
        },
        PollReport::Failed => post.state == StreamState::Lost && item is Failed,
    }
}

/// How releasing the handle may move the machine.
pub open spec fn stream_release_step(pre: StreamView, post: StreamView, r: Result<
    (),
    FileError,
>) -> bool {
    &&& post.buffer_size == pre.buffer_size
    &&& match pre.state {
        StreamState::Idle => r is Ok && post.state == StreamState::Lost,
        StreamState::InFlight => r == Err::<(), FileError>(FileError::HandleUnavailable)
            && post.state == pre.state,
        StreamState::Lost => r == Err::<(), FileError>(FileError::HandleUnavailable) && post.state
            == pre.state,
    }
}

/// The lazy chunk producer over one file handle.
pub struct FileStream {
    state: StreamState,
    buffer_size: usize,
}

impl View for FileStream {
    type V = StreamView;

    closed spec fn view(&self) -> StreamView {
        StreamView { state: self.state, buffer_size: self.buffer_size as nat }
    }
}

impl FileStream {
    /// A fresh machine around a handle the caller just gave up; each
    /// submission reads up to `buffer_size` bytes.
    pub fn new(buffer_size: usize) -> (m: FileStream)
        ensures
            m@.state is Idle,
            m@.buffer_size == buffer_size,
    {
        FileStream { state: StreamState::Idle, buffer_size }
    }

    /// The machine's current state.
    pub fn state(&self) -> (s: StreamState)
        ensures
            s == self@.state,
    {
        self.state
    }

    /// Ask for the next chunk.  From idle the following read is submitted;
    /// with a read outstanding it asks for a poll; on a lost handle it
    /// rejects.
    pub fn next(&mut self) -> (a: NextAction)
        ensures
            next_step(old(self)@, final(self)@, a),
    {
        match self.state {
            StreamState::Idle => {
                self.state = StreamState::InFlight;
                NextAction::Submit { limit: self.buffer_size }
            },
            StreamState::InFlight => NextAction::Poll,
            StreamState::Lost => NextAction::Rejected,
        }
    }

    /// The runtime's report after polling the outstanding read.
    pub fn next_poll(&mut self, r: PollReport<Chunk>) -> (item: StreamItem)
        requires
            old(self)@.state is InFlight,
        ensures
            next_poll_step(old(self)@, r, final(self)@, item),
    {
        match r {
            PollReport::Pending => StreamItem::NotReady,
            PollReport::Ready(c) => {
                self.state = StreamState::Idle;
                if c.is_empty() {
                    StreamItem::Finished
                } else {
                    StreamItem::Item(c)
                }
            },
            PollReport::Failed => {
                self.state = StreamState::Lost;
                StreamItem::Failed
            },
        }
    }

    /// Give the handle back to the caller.  Succeeds exactly when the
    /// machine is idle; afterwards every operation is rejected.
    pub fn release(&mut self) -> (r: Result<(), FileError>)
        ensures
            stream_release_step(old(self)@, final(self)@, r),
    {
        match self.state {
            StreamState::Idle => {
                self.state = StreamState::Lost;
                Ok(())
            },
            StreamState::InFlight => Err(FileError::HandleUnavailable),
            StreamState::Lost => Err(FileError::HandleUnavailable),
        }
    }
}

} // verus!
