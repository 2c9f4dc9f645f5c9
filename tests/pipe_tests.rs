use v9_worker::error::WorkerErrorKind;
use v9_worker::pipe::{frame_message, line_text, LineReader, LineWriter, ReadStep, WriteStep, PIPE_IO_TIMEOUT_MS};

#[test]
fn write_rejects_embedded_newline() {
    let e = frame_message(&b"a\nb".to_vec()).unwrap_err();
    match e.kind {
        WorkerErrorKind::InvalidSerialization(reason, bytes) => {
            assert_eq!(reason, "contains newline");
            assert_eq!(bytes, b"a\nb".to_vec());
        }
        _ => panic!("wrong error"),
    }
}

#[test]
fn newline_error_message_lists_the_bytes() {
    let e = frame_message(&b"a\nb".to_vec()).unwrap_err();
    assert_eq!(e.message(), "WorkerError, contains newline with invalid series of bytes: [97, 10, 98]");
}

#[test]
fn framing_appends_one_newline() {
    assert_eq!(frame_message(&b"hello".to_vec()).unwrap(), b"hello\n".to_vec());
    assert_eq!(frame_message(&Vec::new()).unwrap(), b"\n".to_vec());
}

#[test]
fn framed_line_read_back_in_chunks() {
    let line = frame_message(&b"abcdef".to_vec()).unwrap();
    let mut r = LineReader::new(0);
    assert!(matches!(r.absorb(&line[0..2]), Ok(ReadStep::Pending)));
    assert!(matches!(r.absorb(&line[2..5]), Ok(ReadStep::Pending)));
    match r.absorb(&line[5..]) {
        Ok(ReadStep::Line(l)) => assert_eq!(l, b"abcdef\n".to_vec()),
        _ => panic!("expected a line"),
    }
}

#[test]
fn bytes_after_newline_are_dropped() {
    let mut r = LineReader::new(0);
    match r.absorb(b"ok\nextra") {
        Ok(ReadStep::Line(l)) => assert_eq!(l, b"ok\n".to_vec()),
        _ => panic!("expected a line"),
    }
}

#[test]
fn zero_byte_read_is_disconnect() {
    let mut r = LineReader::new(0);
    let e = r.absorb(&[]).err().unwrap();
    assert!(matches!(e.kind, WorkerErrorKind::PipeDisconnected));
}

#[test]
fn read_deadline() {
    let r = LineReader::new(100);
    assert_eq!(r.check_deadline(100).unwrap(), PIPE_IO_TIMEOUT_MS);
    assert_eq!(r.check_deadline(100 + PIPE_IO_TIMEOUT_MS).unwrap(), 0);
    let e = r.check_deadline(101 + PIPE_IO_TIMEOUT_MS).unwrap_err();
    match e.kind {
        WorkerErrorKind::OperationTimedOut(what) => assert_eq!(what, "pipe reading"),
        _ => panic!("wrong error"),
    }
}

#[test]
fn write_times_out_when_peer_never_reads() {
    let w = LineWriter::new(&b"ping".to_vec(), 1_000).ok().unwrap();
    match w.next_step(1_000) {
        WriteStep::Write { offset, timeout_ms } => {
            assert_eq!(offset, 0);
            assert_eq!(timeout_ms, PIPE_IO_TIMEOUT_MS);
        }
        _ => panic!("expected a write"),
    }
    match w.next_step(1_000 + PIPE_IO_TIMEOUT_MS) {
        WriteStep::Failed(e) => {
            assert_eq!(e.message(), "WorkerError, pipe writing operation timed out");
            assert_eq!(e.http_status(), 543);
        }
        _ => panic!("expected a timeout"),
    }
}

#[test]
fn partial_writes_advance_until_done() {
    let mut w = LineWriter::new(&b"ping".to_vec(), 0).ok().unwrap();
    assert_eq!(w.line(), &b"ping\n".to_vec());
    w.record_written(2);
    match w.next_step(5) {
        WriteStep::Write { offset, .. } => assert_eq!(offset, 2),
        _ => panic!("expected a write"),
    }
    w.record_written(3);
    assert!(matches!(w.next_step(u64::MAX), WriteStep::Done));
}

#[test]
fn writer_rejects_newline() {
    assert!(LineWriter::new(&b"x\n".to_vec(), 0).is_err());
}

#[test]
fn line_text_checks_utf8() {
    assert_eq!(line_text(b"caf\xc3\xa9\n".to_vec()).unwrap(), "caf\u{e9}\n");
    let e = line_text(vec![0xff, 0x0a]).unwrap_err();
    assert!(matches!(e.kind, WorkerErrorKind::InvalidUtf8));
}
