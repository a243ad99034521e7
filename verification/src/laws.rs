//! The laws of the machines, stated over their step relations and proved
//! once for every state and input.
//!
//! Each machine's operations are summarised by a label — which operation
//! ran, with its input and its result — and a labelled step relation that
//! simply collects the operations' contracts.  The laws then quantify over
//! labels: no machine ever has more than one pool submission outstanding,
//! a submission arises only when none is outstanding, releasing the handle
//! succeeds exactly from the idle state and is final, and a machine whose
//! handle is gone rejects everything and never changes again.

use vstd::prelude::*;

use crate::FileError;
use crate::PollReport;
use crate::chunk::Chunk;
use crate::writer::FlushAction;
use crate::writer::FlushOutcome;
use crate::writer::WriteAction;
use crate::writer::WriteOutcome;
use crate::writer::WriterOp;
use crate::writer::WriterState;
use crate::writer::WriterView;
use crate::writer::flush_poll_step;
use crate::writer::flush_step;
use crate::writer::release_step;
use crate::writer::write_poll_step;
use crate::writer::write_step;
use crate::sink::AcceptAction;
use crate::sink::CompleteAction;
use crate::sink::SinkOutcome;
use crate::sink::SinkState;
use crate::sink::accept_step;
use crate::sink::complete_poll_step;
use crate::sink::complete_step;
use crate::sink::sink_release_step;
use crate::reader::ReadAction;
use crate::reader::ReadOutcome;
use crate::reader::ReaderState;
use crate::reader::ReaderView;
use crate::reader::read_poll_step;
use crate::reader::read_step;
use crate::reader::reader_release_step;
use crate::stream::NextAction;
use crate::stream::StreamItem;
use crate::stream::StreamState;
use crate::stream::StreamView;
use crate::stream::next_poll_step;
use crate::stream::next_step;
use crate::stream::stream_release_step;

verus! {

// ---------------------------------------------------------------- writer

/// How many pool submissions of the writer are outstanding.
pub open spec fn writer_outstanding(s: WriterState) -> nat {
    match s {
        WriterState::InFlight(op) => 1,
        _ => 0,
    }
}

/// One operation of the writer, with its input and its result.
pub enum WriterLabel {
    WriteCall(Seq<u8>, WriteAction),
    WritePoll(PollReport<usize>, WriteOutcome),
    FlushCall(FlushAction),
    FlushPoll(PollReport<()>, FlushOutcome),
    Release(Result<(), FileError>),
}

/// The labelled step relation of the writer: exactly what the operations'
/// contracts allow, with each poll applying only to its own operation kind.
pub open spec fn writer_step_labeled(pre: WriterView, l: WriterLabel, post: WriterView) -> bool {
    match l {
        WriterLabel::WriteCall(src, a) => write_step(pre, src, post, a),
        WriterLabel::WritePoll(r, out) => pre.state == WriterState::InFlight(WriterOp::Write)
            && write_poll_step(pre, r, post, out),
        WriterLabel::FlushCall(a) => flush_step(pre, post, a),
        WriterLabel::FlushPoll(r, out) => pre.state == WriterState::InFlight(WriterOp::Flush)
            && flush_poll_step(pre, r, post, out),
        WriterLabel::Release(r) => release_step(pre, post, r),
    }
}

/// Whether the operation moved the handle into a new pool task.
pub open spec fn writer_label_submits(l: WriterLabel) -> bool {
    match l {
        WriterLabel::WriteCall(src, a) => a is Submit,
        WriterLabel::FlushCall(a) => a is Submit,
        _ => false,
    }
}

/// No duplicate handle: whatever single operation moves the writer, at most
/// one pool submission is outstanding afterwards; a new submission arises
/// only when none is outstanding, and every other operation leaves the
/// count no larger than it was.
pub proof fn lemma_writer_single_flight(pre: WriterView, l: WriterLabel, post: WriterView)
    requires
        writer_step_labeled(pre, l, post),
    ensures
        writer_outstanding(post.state) <= 1,
        writer_label_submits(l) ==> writer_outstanding(pre.state) == 0 && writer_outstanding(
            post.state,
        ) == 1,
        !writer_label_submits(l) ==> writer_outstanding(post.state) <= writer_outstanding(
            pre.state,
        ),
{
}

/// A run of the writer: `post` is reached from `pre` by the labelled
/// operations, in order.
pub open spec fn writer_run(pre: WriterView, labels: Seq<WriterLabel>, post: WriterView) -> bool
    decreases labels.len(),
{
    if labels.len() == 0 {
        post == pre
    } else {
        exists|mid: WriterView|
            #[trigger] writer_step_labeled(pre, labels[0], mid) && writer_run(
                mid,
                labels.skip(1),
                post,
            )
    }
}

/// No duplicate handle, over any sequence of operations: every state a
/// writer reaches from a state with at most one outstanding submission
/// again has at most one.
pub proof fn lemma_writer_run_single_flight(
    pre: WriterView,
    labels: Seq<WriterLabel>,
    post: WriterView,
)
    requires
        writer_outstanding(pre.state) <= 1,
        writer_run(pre, labels, post),
    ensures
        writer_outstanding(post.state) <= 1,
    decreases labels.len(),
{
    if labels.len() > 0 {
        let mid = choose|mid: WriterView|
            #[trigger] writer_step_labeled(pre, labels[0], mid) && writer_run(
                mid,
                labels.skip(1),
                post,
            );
        lemma_writer_single_flight(pre, labels[0], mid);
        lemma_writer_run_single_flight(mid, labels.skip(1), post);
    }
}

/// Releasing the writer's handle succeeds exactly from the idle state, and
/// success leaves the machine permanently empty.
pub proof fn lemma_writer_release_final(pre: WriterView, post: WriterView, r: Result<
    (),
    FileError,
>)
    requires
        release_step(pre, post, r),
    ensures
        r is Ok <==> pre.state is Idle,
        r is Ok ==> post.state is Lost,
        !(r is Ok) ==> r == Err::<(), FileError>(FileError::HandleUnavailable) && post == pre,
{
}

/// Post-shutdown rejection: once the writer's handle is gone, every
/// operation is rejected with `HandleUnavailable` and the machine never
/// changes again.
pub proof fn lemma_writer_rejects_after_loss(pre: WriterView, l: WriterLabel, post: WriterView)
    requires
        pre.state is Lost,
        writer_step_labeled(pre, l, post),
    ensures
        post == pre,
        l matches WriterLabel::WriteCall(src, a) ==> a is Rejected,
        l matches WriterLabel::FlushCall(a) ==> a is Rejected,
        l matches WriterLabel::Release(r) ==> r == Err::<(), FileError>(
            FileError::HandleUnavailable,
        ),
        !(l is WritePoll) && !(l is FlushPoll),
{
}

// ------------------------------------------------------------------ sink

/// How many pool submissions of the sink are outstanding.
pub open spec fn sink_outstanding(s: SinkState) -> nat {
    match s {
        SinkState::InFlight => 1,
        _ => 0,
    }
}

/// One operation of the sink, with its input and its result.
pub enum SinkLabel {
    Accept(Seq<u8>, AcceptAction),
    Complete(CompleteAction),
    CompletePoll(PollReport<()>, SinkOutcome),
    Release(Result<(), FileError>),
}

/// The labelled step relation of the sink.
pub open spec fn sink_step_labeled(pre: SinkState, l: SinkLabel, post: SinkState) -> bool {
    match l {
        SinkLabel::Accept(c, a) => accept_step(pre, c, post, a),
        SinkLabel::Complete(a) => complete_step(pre, post, a),
        SinkLabel::CompletePoll(r, out) => pre is InFlight && complete_poll_step(pre, r, post, out),
        SinkLabel::Release(r) => sink_release_step(pre, post, r),
    }
}

/// Whether the operation moved the handle and a chunk into a new pool task.
pub open spec fn sink_label_submits(l: SinkLabel) -> bool {
    match l {
        SinkLabel::Accept(c, a) => a is Submit,
        _ => false,
    }
}

/// No duplicate handle, for the sink.
pub proof fn lemma_sink_single_flight(pre: SinkState, l: SinkLabel, post: SinkState)
    requires
        sink_step_labeled(pre, l, post),
    ensures
        sink_outstanding(post) <= 1,
        sink_label_submits(l) ==> sink_outstanding(pre) == 0 && sink_outstanding(post) == 1,
        !sink_label_submits(l) ==> sink_outstanding(post) <= sink_outstanding(pre),
{
}

/// A run of the sink: `post` is reached from `pre` by the labelled
/// operations, in order.
pub open spec fn sink_run(pre: SinkState, labels: Seq<SinkLabel>, post: SinkState) -> bool
    decreases labels.len(),
{
    if labels.len() == 0 {
        post == pre
    } else {
        exists|mid: SinkState|
            #[trigger] sink_step_labeled(pre, labels[0], mid) && sink_run(
                mid,
                labels.skip(1),
                post,
            )
    }
}

/// No duplicate handle, over any sequence of operations on one sink.
pub proof fn lemma_sink_run_single_flight(pre: SinkState, labels: Seq<SinkLabel>, post: SinkState)
    requires
        sink_outstanding(pre) <= 1,
        sink_run(pre, labels, post),
    ensures
        sink_outstanding(post) <= 1,
    decreases labels.len(),
{
    if labels.len() > 0 {
        let mid = choose|mid: SinkState|
            #[trigger] sink_step_labeled(pre, labels[0], mid) && sink_run(
                mid,
                labels.skip(1),
                post,
            );
        lemma_sink_single_flight(pre, labels[0], mid);
        lemma_sink_run_single_flight(mid, labels.skip(1), post);
    }
}

/// Backpressure: the sink runs at most one chunk ahead.  A chunk is
/// accepted only while nothing is outstanding, and whatever the sink does
/// with an offered chunk, the chunk's bytes come through unchanged — the
/// caller holding a handed-back chunk can offer the very same bytes again.
pub proof fn lemma_sink_backpressure(pre: SinkState, c: Seq<u8>, post: SinkState, a: AcceptAction)
    requires
        accept_step(pre, c, post, a),
    ensures
        a is Submit ==> pre is Idle && post is InFlight,
        !(a is Submit) ==> post == pre,
        a matches AcceptAction::Submit(d) ==> d@ == c,
        a matches AcceptAction::PollFirst(d) ==> d@ == c,
        a matches AcceptAction::Rejected(d) ==> d@ == c,
{
}

/// Releasing the sink's handle succeeds exactly from the idle state, and
/// success is final.
pub proof fn lemma_sink_release_final(pre: SinkState, post: SinkState, r: Result<(), FileError>)
    requires
        sink_release_step(pre, post, r),
    ensures
        r is Ok <==> pre is Idle,
        r is Ok ==> post is Lost,
        !(r is Ok) ==> r == Err::<(), FileError>(FileError::HandleUnavailable) && post == pre,
{
}

/// Post-shutdown rejection, for the sink.
pub proof fn lemma_sink_rejects_after_loss(pre: SinkState, l: SinkLabel, post: SinkState)
    requires
        pre is Lost,
        sink_step_labeled(pre, l, post),
    ensures
        post == pre,
        l matches SinkLabel::Accept(c, a) ==> (a matches AcceptAction::Rejected(d) && d@ == c),
        l matches SinkLabel::Complete(a) ==> a is Rejected,
        l matches SinkLabel::Release(r) ==> r == Err::<(), FileError>(FileError::HandleUnavailable),
        !(l is CompletePoll),
{
}

// ---------------------------------------------------------------- reader

/// How many pool submissions of the reader are outstanding.
pub open spec fn reader_outstanding(s: ReaderState) -> nat {
    match s {
        ReaderState::InFlight => 1,
        _ => 0,
    }
}

/// One operation of the reader, with its input and its result.  A poll
/// carries the caller's destination before and after the call.
pub enum ReaderLabel {
    ReadCall(nat, ReadAction),
    ReadPoll(PollReport<(Vec<u8>, usize)>, Seq<u8>, Seq<u8>, ReadOutcome),
    Release(Result<(), FileError>),
}

/// The labelled step relation of the reader.
pub open spec fn reader_step_labeled(pre: ReaderView, l: ReaderLabel, post: ReaderView) -> bool {
    match l {
        ReaderLabel::ReadCall(dest_len, a) => read_step(pre, dest_len, post, a),
        ReaderLabel::ReadPoll(r, dest_pre, dest_post, out) => pre.state is InFlight
            && read_poll_step(pre, r, dest_pre, post, dest_post, out),
        ReaderLabel::Release(r) => reader_release_step(pre, post, r),
    }
}

/// Whether the operation moved the handle and buffer into a new pool task.
pub open spec fn reader_label_submits(l: ReaderLabel) -> bool {
    match l {
        ReaderLabel::ReadCall(dest_len, a) => a is Submit,
        _ => false,
    }
}

/// No duplicate handle, for the reader.
pub proof fn lemma_reader_single_flight(pre: ReaderView, l: ReaderLabel, post: ReaderView)
    requires
        reader_step_labeled(pre, l, post),
    ensures
        reader_outstanding(post.state) <= 1,
        reader_label_submits(l) ==> reader_outstanding(pre.state) == 0 && reader_outstanding(
            post.state,
        ) == 1,
        !reader_label_submits(l) ==> reader_outstanding(post.state) <= reader_outstanding(
            pre.state,
        ),
{
}

/// A run of the reader: `post` is reached from `pre` by the labelled
/// operations, in order.
pub open spec fn reader_run(pre: ReaderView, labels: Seq<ReaderLabel>, post: ReaderView) -> bool
    decreases labels.len(),
{
    if labels.len() == 0 {
        post == pre
    } else {
        exists|mid: ReaderView|
            #[trigger] reader_step_labeled(pre, labels[0], mid) && reader_run(
                mid,
                labels.skip(1),
                post,
            )
    }
}

/// No duplicate handle, over any sequence of operations on one reader.
pub proof fn lemma_reader_run_single_flight(
    pre: ReaderView,
    labels: Seq<ReaderLabel>,
    post: ReaderView,
)
    requires
        reader_outstanding(pre.state) <= 1,
        reader_run(pre, labels, post),
    ensures
        reader_outstanding(post.state) <= 1,
    decreases labels.len(),
{
    if labels.len() > 0 {
        let mid = choose|mid: ReaderView|
            #[trigger] reader_step_labeled(pre, labels[0], mid) && reader_run(
                mid,
                labels.skip(1),
                post,
            );
        lemma_reader_single_flight(pre, labels[0], mid);
        lemma_reader_run_single_flight(mid, labels.skip(1), post);
    }
}

/// Releasing the reader's handle succeeds exactly from the idle state, and
/// success is final.
pub proof fn lemma_reader_release_final(pre: ReaderView, post: ReaderView, r: Result<
    (),
    FileError,
>)
    requires
        reader_release_step(pre, post, r),
    ensures
        r is Ok <==> pre.state is Idle,
        r is Ok ==> post.state is Lost,
        !(r is Ok) ==> r == Err::<(), FileError>(FileError::HandleUnavailable) && post == pre,
{
}

/// Post-shutdown rejection, for the reader.
pub proof fn lemma_reader_rejects_after_loss(pre: ReaderView, l: ReaderLabel, post: ReaderView)
    requires
        pre.state is Lost,
        reader_step_labeled(pre, l, post),
    ensures
        post == pre,
        l matches ReaderLabel::ReadCall(dest_len, a) ==> a is Rejected,
        l matches ReaderLabel::Release(r) ==> r == Err::<(), FileError>(
            FileError::HandleUnavailable,
        ),
        !(l is ReadPoll),
{
}

// ---------------------------------------------------------------- stream

/// How many pool submissions of the stream are outstanding.
pub open spec fn stream_outstanding(s: StreamState) -> nat {
    match s {
        StreamState::InFlight => 1,
        _ => 0,
    }
}

/// One operation of the stream, with its input and its result.
pub enum StreamLabel {
    NextCall(NextAction),
    NextPoll(PollReport<Chunk>, StreamItem),
    Release(Result<(), FileError>),
}

/// The labelled step relation of the stream.
pub open spec fn stream_step_labeled(pre: StreamView, l: StreamLabel, post: StreamView) -> bool {
    match l {
        StreamLabel::NextCall(a) => next_step(pre, post, a),
        StreamLabel::NextPoll(r, item) => pre.state is InFlight && next_poll_step(
            pre,
            r,
            post,
            item,
        ),
        StreamLabel::Release(r) => stream_release_step(pre, post, r),
    }
}

/// Whether the operation moved the handle into a new pool task.
pub open spec fn stream_label_submits(l: StreamLabel) -> bool {
    match l {
        StreamLabel::NextCall(a) => a is Submit,
        _ => false,
    }
}

/// No duplicate handle, for the stream.
pub proof fn lemma_stream_single_flight(pre: StreamView, l: StreamLabel, post: StreamView)
    requires
        stream_step_labeled(pre, l, post),
    ensures
        stream_outstanding(post.state) <= 1,
        stream_label_submits(l) ==> stream_outstanding(pre.state) == 0 && stream_outstanding(
            post.state,
        ) == 1,
        !stream_label_submits(l) ==> stream_outstanding(post.state) <= stream_outstanding(
            pre.state,
        ),
{
}

/// A run of the stream: `post` is reached from `pre` by the labelled
/// operations, in order.
pub open spec fn stream_run(pre: StreamView, labels: Seq<StreamLabel>, post: StreamView) -> bool
    decreases labels.len(),
{
    if labels.len() == 0 {
        post == pre
    } else {
        exists|mid: StreamView|
            #[trigger] stream_step_labeled(pre, labels[0], mid) && stream_run(
                mid,
                labels.skip(1),
                post,
            )
    }
}

/// No duplicate handle, over any sequence of operations on one stream.
pub proof fn lemma_stream_run_single_flight(
    pre: StreamView,
    labels: Seq<StreamLabel>,
    post: StreamView,
)
    requires
        stream_outstanding(pre.state) <= 1,
        stream_run(pre, labels, post),
    ensures
        stream_outstanding(post.state) <= 1,
    decreases labels.len(),
{
    if labels.len() > 0 {
        let mid = choose|mid: StreamView|
            #[trigger] stream_step_labeled(pre, labels[0], mid) && stream_run(
                mid,
                labels.skip(1),
                post,
            );
        lemma_stream_single_flight(pre, labels[0], mid);
        lemma_stream_run_single_flight(mid, labels.skip(1), post);
    }
}

/// A stream never emits an empty chunk: an emitted chunk carries the
/// completed read's bytes unchanged, so it is non-empty, and the empty read
/// is reported as the end of the stream instead.
pub proof fn lemma_stream_chunks_nonempty(
    pre: StreamView,
    r: PollReport<Chunk>,
    post: StreamView,
    item: StreamItem,
)
    requires
        next_poll_step(pre, r, post, item),
    ensures
        item matches StreamItem::Item(d) ==> d@.len() > 0,
        item matches StreamItem::Item(d) ==> (r matches PollReport::Ready(c) && c@ == d@),
        item is Finished ==> (r matches PollReport::Ready(c) && c@.len() == 0),
{
}

/// Releasing the stream's handle succeeds exactly from the idle state, and
/// success is final.
pub proof fn lemma_stream_release_final(pre: StreamView, post: StreamView, r: Result<
    (),
    FileError,
>)
    requires
        stream_release_step(pre, post, r),
    ensures
        r is Ok <==> pre.state is Idle,
        r is Ok ==> post.state is Lost,
        !(r is Ok) ==> r == Err::<(), FileError>(FileError::HandleUnavailable) && post == pre,
{
}

/// Post-shutdown rejection, for the stream.
pub proof fn lemma_stream_rejects_after_loss(pre: StreamView, l: StreamLabel, post: StreamView)
    requires
        pre.state is Lost,
        stream_step_labeled(pre, l, post),
    ensures
        post == pre,
        l matches StreamLabel::NextCall(a) ==> a is Rejected,
        l matches StreamLabel::Release(r) ==> r == Err::<(), FileError>(
            FileError::HandleUnavailable,
        ),
        !(l is NextPoll),
{
}

} // verus!
