//! Driving the stream machine against an in-memory file.

use async_file::chunk::Chunk;
use async_file::stream::FileStream;
use async_file::stream::NextAction;
use async_file::stream::StreamItem;
use async_file::stream::StreamState;
use async_file::FileError;
use async_file::PollReport;

/// One `next` call retried until it yields the next chunk or the end of the
/// stream; the test performs the blocking read against `file` at `pos`.
fn next_chunk(m: &mut FileStream, file: &[u8], pos: &mut usize) -> Option<Chunk> {
    let mut pending: Option<Chunk> = None;
    loop {
        match m.next() {
            NextAction::Submit { limit } => {
                // the worker's blocking read into a fresh buffer, truncated
                // to the bytes actually read
                let mut buffer = vec![0u8; limit];
                let left = file.len() - *pos;
                let n = if limit <= left { limit } else { left };
                buffer[..n].copy_from_slice(&file[*pos..*pos + n]);
                *pos += n;
                pending = Some(Chunk::from_read(buffer, n));
            }
            NextAction::Poll => {
                let chunk = pending.take().expect("no task outstanding");
                match m.next_poll(PollReport::Ready(chunk)) {
                    StreamItem::Item(c) => return Some(c),
                    StreamItem::Finished => return None,
                    StreamItem::NotReady => panic!("the task has completed"),
                    StreamItem::Failed => panic!("the pool does not fail here"),
                }
            }
            NextAction::Rejected => panic!("handle should still be available"),
        }
    }
}

#[test]
fn it_stream() {
    let file = b"Hello world!\n";
    let mut m = FileStream::new(8 * 1024);
    let mut pos = 0;
    let mut output: Vec<u8> = Vec::new();

    while let Some(chunk) = next_chunk(&mut m, file, &mut pos) {
        assert!(chunk.len() > 0, "no emitted chunk is empty");
        output.extend_from_slice(chunk.as_bytes());
    }

    assert_eq!(output, b"Hello world!\n");
}

#[test]
fn stream_finite_with_small_buffer() {
    // a buffer smaller than the file: several chunks, then the end, and the
    // concatenation is exactly the file
    let file = b"Hello world!\n";
    let mut m = FileStream::new(4);
    let mut pos = 0;
    let mut chunks: Vec<Vec<u8>> = Vec::new();

    while let Some(chunk) = next_chunk(&mut m, file, &mut pos) {
        assert!(chunk.len() > 0, "no emitted chunk is empty");
        assert!(chunk.len() <= 4, "no chunk exceeds the buffer size");
        chunks.push(chunk.into_bytes());
    }

    assert_eq!(chunks.len(), 4);
    let mut output: Vec<u8> = Vec::new();
    for c in &chunks {
        output.extend_from_slice(c);
    }
    assert_eq!(output, b"Hello world!\n");

    // the end is permanent: the next read is again the zero-length read
    assert!(next_chunk(&mut m, file, &mut pos).is_none());
}

#[test]
fn stream_empty_read_ends_stream() {
    let mut m = FileStream::new(16);
    match m.next() {
        NextAction::Submit { limit } => assert_eq!(limit, 16),
        _ => panic!("an idle stream submits"),
    }
    match m.next_poll(PollReport::Ready(Chunk::new(Vec::new()))) {
        StreamItem::Finished => {}
        _ => panic!("the empty read ends the stream"),
    }
    assert_eq!(m.state(), StreamState::Idle);
}

#[test]
fn stream_pending_and_failure() {
    let mut m = FileStream::new(16);
    match m.next() {
        NextAction::Submit { .. } => {}
        _ => panic!("an idle stream submits"),
    }
    match m.next_poll(PollReport::Pending) {
        StreamItem::NotReady => {}
        _ => panic!("a pending read is not ready"),
    }
    match m.next_poll(PollReport::Failed) {
        StreamItem::Failed => {}
        _ => panic!("a failed read is propagated"),
    }
    assert_eq!(m.state(), StreamState::Lost);
    match m.next() {
        NextAction::Rejected => {}
        _ => panic!("a lost handle rejects every read"),
    }
    assert_eq!(m.release(), Err(FileError::HandleUnavailable));
}

#[test]
fn stream_release_only_when_idle() {
    let mut m = FileStream::new(16);
    match m.next() {
        NextAction::Submit { .. } => {}
        _ => panic!("an idle stream submits"),
    }
    assert_eq!(m.release(), Err(FileError::HandleUnavailable));
    match m.next_poll(PollReport::Ready(Chunk::new(b"x".to_vec()))) {
        StreamItem::Item(_) => {}
        _ => panic!("a non-empty read is emitted"),
    }
    assert_eq!(m.release(), Ok(()));
    match m.next() {
        NextAction::Rejected => {}
        _ => panic!("an emptied stream rejects every read"),
    }
}
