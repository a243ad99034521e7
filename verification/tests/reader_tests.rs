//! Driving the reader machine against an in-memory file.

use async_file::reader::FileReader;
use async_file::reader::ReadAction;
use async_file::reader::ReadOutcome;
use async_file::reader::ReaderState;
use async_file::FileError;
use async_file::PollReport;

/// One `read` call retried until it reports a byte count: the test performs
/// the blocking read against `file` at the position `pos`.
fn read_once(m: &mut FileReader, file: &[u8], pos: &mut usize, dest: &mut Vec<u8>) -> usize {
    let mut pending: Option<(Vec<u8>, usize)> = None;
    loop {
        match m.read(dest.len()) {
            ReadAction::Submit { mut buffer, limit } => {
                // the worker's blocking read into the buffer's front
                let left = file.len() - *pos;
                let n = if limit <= left { limit } else { left };
                buffer[..n].copy_from_slice(&file[*pos..*pos + n]);
                *pos += n;
                pending = Some((buffer, n));
            }
            ReadAction::Poll => {
                let (buffer, n) = pending.take().expect("no task outstanding");
                match m.read_poll(dest, PollReport::Ready((buffer, n))) {
                    ReadOutcome::Done(count) => return count,
                    _ => panic!("a completed read reports its count"),
                }
            }
            ReadAction::Rejected => panic!("handle should still be available"),
        }
    }
}

#[test]
fn it_read() {
    let file = b"Hello world!\n";
    let mut m = FileReader::new(8 * 1024);
    let mut pos = 0;
    let mut output: Vec<u8> = Vec::new();

    // read to the end: loop until the zero-length read
    loop {
        let mut dest = vec![0u8; 32];
        let n = read_once(&mut m, file, &mut pos, &mut dest);
        if n == 0 {
            break;
        }
        output.extend_from_slice(&dest[..n]);
    }

    assert_eq!(output, b"Hello world!\n");
}

#[test]
fn read_clamps_to_capacity() {
    let mut m = FileReader::new(4);
    match m.read(100) {
        ReadAction::Submit { buffer, limit } => {
            assert_eq!(buffer.len(), 4);
            assert_eq!(limit, 4);
        }
        _ => panic!("an idle reader submits"),
    }
    match m.read(100) {
        ReadAction::Poll => {}
        _ => panic!("a reading reader asks for a poll"),
    }
}

#[test]
fn read_clamps_to_destination() {
    let mut m = FileReader::new(1024);
    match m.read(3) {
        ReadAction::Submit { buffer, limit } => {
            assert_eq!(buffer.len(), 1024);
            assert_eq!(limit, 3);
        }
        _ => panic!("an idle reader submits"),
    }
}

#[test]
fn read_copies_only_the_count() {
    // the destination keeps its tail beyond the bytes the read produced
    let mut m = FileReader::new(8);
    match m.read(5) {
        ReadAction::Submit { .. } => {}
        _ => panic!("an idle reader submits"),
    }
    let mut dest = vec![9u8; 5];
    let filled = vec![1u8, 2, 3, 0, 0, 0, 0, 0];
    match m.read_poll(&mut dest, PollReport::Ready((filled, 3))) {
        ReadOutcome::Done(n) => assert_eq!(n, 3),
        _ => panic!("a completed read reports its count"),
    }
    assert_eq!(dest, vec![1, 2, 3, 9, 9]);
    assert_eq!(m.state(), ReaderState::Idle);
}

#[test]
fn read_failure_loses_handle() {
    let mut m = FileReader::new(8);
    match m.read(5) {
        ReadAction::Submit { .. } => {}
        _ => panic!("an idle reader submits"),
    }
    let mut dest = vec![0u8; 5];
    match m.read_poll(&mut dest, PollReport::Failed) {
        ReadOutcome::Failed => {}
        _ => panic!("a failed read is propagated"),
    }
    assert_eq!(dest, vec![0u8; 5]);
    assert_eq!(m.state(), ReaderState::Lost);
    match m.read(5) {
        ReadAction::Rejected => {}
        _ => panic!("a lost handle rejects every read"),
    }
    assert_eq!(m.release(), Err(FileError::HandleUnavailable));
}

#[test]
fn reader_release_only_when_idle() {
    let mut m = FileReader::new(8);
    match m.read(5) {
        ReadAction::Submit { .. } => {}
        _ => panic!("an idle reader submits"),
    }
    assert_eq!(m.release(), Err(FileError::HandleUnavailable));
    let mut dest = vec![0u8; 5];
    let buffer = vec![0u8; 8];
    match m.read_poll(&mut dest, PollReport::Ready((buffer, 0))) {
        ReadOutcome::Done(0) => {}
        _ => panic!("the zero-length read completes"),
    }
    assert_eq!(m.release(), Ok(()));
    match m.read(5) {
        ReadAction::Rejected => {}
        _ => panic!("an emptied reader rejects every read"),
    }
}
