//! Driving the writer machine against an in-memory file: the test plays the
//! runtime, executing each action the machine returns and reporting the
//! poll results back.

use async_file::writer::FileWriter;
use async_file::writer::FlushAction;
use async_file::writer::FlushOutcome;
use async_file::writer::WriteAction;
use async_file::writer::WriteOutcome;
use async_file::writer::WriterState;
use async_file::FileError;
use async_file::PollReport;

/// One `write(src)` call retried until it reports a byte count, with the
/// pool task executed against `file` at submission time.
fn write_once(w: &mut FileWriter, file: &mut Vec<u8>, src: &Vec<u8>) -> usize {
    let mut pending: Option<usize> = None;
    loop {
        match w.write(src) {
            WriteAction::Submit(buf) => {
                // the worker's blocking write: the whole submitted prefix
                file.extend_from_slice(&buf);
                pending = Some(buf.len());
                // the caller sees WouldBlock and retries
            }
            WriteAction::PollWrite => {
                let n = pending.take().expect("no task outstanding");
                match w.write_poll(PollReport::Ready(n)) {
                    WriteOutcome::Done(count) => return count,
                    _ => panic!("completed write must report its count"),
                }
            }
            WriteAction::Busy => panic!("no flush is outstanding"),
            WriteAction::Rejected => panic!("handle should still be available"),
        }
    }
}

/// Write all of `src`, looping over the per-call byte counts as a caller of
/// a partial writer must.
fn write_all(w: &mut FileWriter, file: &mut Vec<u8>, src: &[u8]) {
    let mut off = 0;
    while off < src.len() {
        let n = write_once(w, file, &src[off..].to_vec());
        assert!(n > 0, "a submitted write of a non-empty prefix reports progress");
        off += n;
    }
}

#[test]
fn it_write() {
    let mut w = FileWriter::new(8 * 1024);
    let mut file: Vec<u8> = Vec::new();

    write_all(&mut w, &mut file, b"Hello");
    write_all(&mut w, &mut file, b" ");
    write_all(&mut w, &mut file, b"world!");

    assert_eq!(file, b"Hello world!");
}

#[test]
fn it_write_long() {
    let mut w = FileWriter::new(8 * 1024);
    let mut file: Vec<u8> = Vec::new();

    for i in 0..10u8 {
        write_all(&mut w, &mut file, &vec![i + 1; 4096]);
    }

    assert_eq!(file.len(), 4096 * 10);
    assert_eq!(&file[..4096], &[1u8; 4096][..]);
    assert_eq!(&file[4096..8192], &[2u8; 4096][..]);
}

#[test]
fn write_truncates_to_capacity() {
    // the partial-write policy: only the capacity-sized prefix goes out
    let mut w = FileWriter::new(4);
    let src: Vec<u8> = vec![10, 20, 30, 40, 50, 60];
    match w.write(&src) {
        WriteAction::Submit(buf) => assert_eq!(buf, vec![10, 20, 30, 40]),
        _ => panic!("an idle writer submits"),
    }
    // the second call finds the write outstanding and asks for a poll
    match w.write(&src) {
        WriteAction::PollWrite => {}
        _ => panic!("a writing writer asks for a poll"),
    }
}

#[test]
fn write_first_call_would_block() {
    // the first call only submits; the result arrives on a later call
    let mut w = FileWriter::new(16);
    let src: Vec<u8> = b"abc".to_vec();
    match w.write(&src) {
        WriteAction::Submit(buf) => assert_eq!(buf, b"abc".to_vec()),
        _ => panic!("an idle writer submits"),
    }
    match w.write_poll(PollReport::Pending) {
        WriteOutcome::Retry => {}
        _ => panic!("a pending write reports the retry signal"),
    }
    match w.write_poll(PollReport::Ready(3)) {
        WriteOutcome::Done(n) => assert_eq!(n, 3),
        _ => panic!("a completed write reports its count"),
    }
    assert_eq!(w.state(), WriterState::Idle);
}

#[test]
fn flush_round_trip() {
    let mut w = FileWriter::new(16);
    match w.flush() {
        FlushAction::Submit => {}
        _ => panic!("an idle writer submits the flush"),
    }
    match w.flush() {
        FlushAction::PollFlush => {}
        _ => panic!("a flushing writer asks for a poll"),
    }
    match w.flush_poll(PollReport::Pending) {
        FlushOutcome::Retry => {}
        _ => panic!("a pending flush reports the retry signal"),
    }
    match w.flush_poll(PollReport::Ready(())) {
        FlushOutcome::Done => {}
        _ => panic!("a completed flush reports success"),
    }
    assert_eq!(w.state(), WriterState::Idle);
}

#[test]
fn write_and_flush_exclude_each_other() {
    // single flight across both operation kinds
    let mut w = FileWriter::new(16);
    let src: Vec<u8> = b"abc".to_vec();
    match w.write(&src) {
        WriteAction::Submit(_) => {}
        _ => panic!("an idle writer submits"),
    }
    match w.flush() {
        FlushAction::Busy => {}
        _ => panic!("a flush never starts while a write is outstanding"),
    }
    match w.write_poll(PollReport::Ready(3)) {
        WriteOutcome::Done(_) => {}
        _ => panic!("a completed write reports its count"),
    }
    match w.flush() {
        FlushAction::Submit => {}
        _ => panic!("the drained writer accepts the flush"),
    }
    match w.write(&src) {
        WriteAction::Busy => {}
        _ => panic!("a write never starts while a flush is outstanding"),
    }
}

#[test]
fn write_failure_loses_handle() {
    let mut w = FileWriter::new(16);
    let src: Vec<u8> = b"abc".to_vec();
    match w.write(&src) {
        WriteAction::Submit(_) => {}
        _ => panic!("an idle writer submits"),
    }
    match w.write_poll(PollReport::Failed) {
        WriteOutcome::Failed => {}
        _ => panic!("a failed write is propagated"),
    }
    assert_eq!(w.state(), WriterState::Lost);
    match w.write(&src) {
        WriteAction::Rejected => {}
        _ => panic!("a lost handle rejects every write"),
    }
    match w.flush() {
        FlushAction::Rejected => {}
        _ => panic!("a lost handle rejects every flush"),
    }
    assert_eq!(w.release(), Err(FileError::HandleUnavailable));
}

#[test]
fn writer_release_only_when_idle() {
    let mut w = FileWriter::new(16);
    let src: Vec<u8> = b"abc".to_vec();
    match w.write(&src) {
        WriteAction::Submit(_) => {}
        _ => panic!("an idle writer submits"),
    }
    // an operation is outstanding: the handle cannot be taken back
    assert_eq!(w.release(), Err(FileError::HandleUnavailable));
    match w.write_poll(PollReport::Ready(3)) {
        WriteOutcome::Done(_) => {}
        _ => panic!("a completed write reports its count"),
    }
    assert_eq!(w.release(), Ok(()));
    // post-shutdown rejection: the instance is empty now
    match w.write(&src) {
        WriteAction::Rejected => {}
        _ => panic!("an emptied writer rejects every write"),
    }
    assert_eq!(w.release(), Err(FileError::HandleUnavailable));
}
