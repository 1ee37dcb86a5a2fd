use std::collections::VecDeque;
use std::io::{Error as IoError, ErrorKind, Read, Write};

use transfer_buffer::{Attempt, Body, Error, Progress};

/// What a scripted endpoint does on its next call.
enum Step {
    Bytes(Vec<u8>),
    Take(usize),
    Block,
    Fail(ErrorKind),
}

/// An endpoint that follows a script, one step per call, and keeps what was
/// written to it.
struct Scripted {
    steps: VecDeque<Step>,
    calls: usize,
    taken: Vec<u8>,
}

impl Scripted {
    fn new(steps: Vec<Step>) -> Scripted {
        Scripted { steps: steps.into(), calls: 0, taken: Vec::new() }
    }
}

impl Read for Scripted {
    fn read(&mut self, buf: &mut [u8]) -> std::io::Result<usize> {
        self.calls += 1;
        match self.steps.pop_front() {
            Some(Step::Bytes(bytes)) => {
                let count = bytes.len().min(buf.len());
                buf[..count].copy_from_slice(&bytes[..count]);
                Ok(count)
            }
            Some(Step::Block) => Err(IoError::from(ErrorKind::WouldBlock)),
            Some(Step::Fail(kind)) => Err(IoError::from(kind)),
            Some(Step::Take(_)) | None => Ok(0),
        }
    }
}

impl Write for Scripted {
    fn write(&mut self, buf: &[u8]) -> std::io::Result<usize> {
        self.calls += 1;
        match self.steps.pop_front() {
            Some(Step::Take(limit)) => {
                let count = limit.min(buf.len());
                self.taken.extend_from_slice(&buf[..count]);
                Ok(count)
            }
            Some(Step::Block) => Err(IoError::from(ErrorKind::WouldBlock)),
            Some(Step::Fail(kind)) => Err(IoError::from(kind)),
            Some(Step::Bytes(_)) | None => Ok(0),
        }
    }

    fn flush(&mut self) -> std::io::Result<()> {
        Ok(())
    }
}

/// One attempt to read: the endpoint is asked only while bytes are left.
fn read_once<T: Read>(body: &mut Body, endpoint: &mut T) -> Result<Progress, Error> {
    if body.remaining() == 0 {
        return Ok(Progress::Complete);
    }
    let reported = endpoint.read(body.window_mut());
    body.read_from(Attempt::from_io(reported))
}

/// One attempt to write: the endpoint is asked only while bytes are left.
fn write_once<T: Write>(body: &mut Body, endpoint: &mut T) -> Result<Progress, Error> {
    if body.remaining() == 0 {
        return Ok(Progress::Complete);
    }
    let reported = endpoint.write(body.window());
    body.write_to(Attempt::from_io(reported))
}

#[test]
fn four_bytes_then_would_block_then_six() {
    let mut endpoint = Scripted::new(vec![
        Step::Bytes(vec![1, 2, 3, 4]),
        Step::Block,
        Step::Bytes(vec![5, 6, 7, 8, 9, 10]),
    ]);
    let mut body = Body::default();
    body.reset(10);

    assert_eq!(read_once(&mut body, &mut endpoint).unwrap(), Progress::Progressed(4));
    assert_eq!(body.pos, 4);
    assert!(body.remaining() > 0);

    assert_eq!(read_once(&mut body, &mut endpoint).unwrap(), Progress::WouldBlock);
    assert_eq!(body.pos, 4);
    assert!(body.remaining() > 0);

    assert_eq!(read_once(&mut body, &mut endpoint).unwrap(), Progress::Complete);
    assert_eq!(body.pos, 10);
    assert_eq!(body.remaining(), 0);
    assert_eq!(body.as_bytes(), &[1u8, 2, 3, 4, 5, 6, 7, 8, 9, 10]);
}

#[test]
fn stream_closed_before_the_first_byte() {
    let mut endpoint = Scripted::new(vec![Step::Bytes(vec![])]);
    let mut body = Body::default();
    body.reset(5);
    assert_eq!(body.remaining(), 5);

    assert!(matches!(read_once(&mut body, &mut endpoint), Err(Error::PeerClosed)));
    assert_eq!(body.pos, 0);
    assert_eq!(body.remaining(), 5);
}

#[test]
fn stream_closed_in_the_middle() {
    let mut endpoint = Scripted::new(vec![Step::Bytes(vec![7, 7, 7])]);
    let mut body = Body::default();
    body.reset(8);
    assert_eq!(read_once(&mut body, &mut endpoint).unwrap(), Progress::Progressed(3));
    assert!(matches!(read_once(&mut body, &mut endpoint), Err(Error::PeerClosed)));
    assert_eq!(body.pos, 3);
    assert_eq!(body.remaining(), 5);
}

#[test]
fn endpoint_of_one_byte_per_read() {
    for size in [0usize, 1, 3, 33] {
        let message: Vec<u8> = (0..size).map(|i| (i % 251) as u8 + 1).collect();
        let steps = message.iter().map(|byte| Step::Bytes(vec![*byte])).collect();
        let mut endpoint = Scripted::new(steps);
        let mut body = Body::default();
        body.reset(size);

        let mut calls = 0usize;
        while body.remaining() > 0 {
            assert!(read_once(&mut body, &mut endpoint).is_ok());
            calls += 1;
            assert_eq!(body.pos, calls);
        }
        assert_eq!(calls, size);
        assert_eq!(endpoint.calls, size);
        assert_eq!(body.pos, size);
        assert_eq!(body.as_bytes(), message.as_slice());
    }
}

#[test]
fn endpoint_with_more_than_is_expected_fills_the_window_only() {
    let mut endpoint = Scripted::new(vec![Step::Bytes(vec![1, 2, 3, 4, 5, 6, 7])]);
    let mut body = Body::default();
    body.reset(4);
    assert_eq!(read_once(&mut body, &mut endpoint).unwrap(), Progress::Complete);
    assert_eq!(body.pos, 4);
    assert_eq!(body.as_bytes(), &[1u8, 2, 3, 4]);
}

#[test]
fn complete_body_does_not_ask_the_endpoint() {
    let mut endpoint = Scripted::new(vec![Step::Bytes(vec![1, 2]), Step::Fail(ErrorKind::Other)]);
    let mut body = Body::default();
    body.reset(2);
    assert_eq!(read_once(&mut body, &mut endpoint).unwrap(), Progress::Complete);
    assert_eq!(endpoint.calls, 1);

    for _ in 0..3 {
        assert_eq!(read_once(&mut body, &mut endpoint).unwrap(), Progress::Complete);
        assert_eq!(write_once(&mut body, &mut endpoint).unwrap(), Progress::Complete);
        assert_eq!(body.pos, 2);
    }
    assert_eq!(endpoint.calls, 1);
    assert_eq!(body.as_bytes(), &[1u8, 2]);
}

#[test]
fn write_in_three_parts_sends_the_payload_in_order() {
    let mut endpoint = Scripted::new(vec![
        Step::Take(3),
        Step::Block,
        Step::Take(1),
        Step::Take(100),
    ]);
    let mut body = Body::default();
    body.reset(10);
    body.as_mut().copy_from_slice(&[10, 11, 12, 13, 14, 15, 16, 17, 18, 19]);

    assert_eq!(write_once(&mut body, &mut endpoint).unwrap(), Progress::Progressed(3));
    assert_eq!(body.pos, 3);
    assert_eq!(write_once(&mut body, &mut endpoint).unwrap(), Progress::WouldBlock);
    assert_eq!(body.pos, 3);
    assert_eq!(write_once(&mut body, &mut endpoint).unwrap(), Progress::Progressed(1));
    assert_eq!(body.pos, 4);
    assert_eq!(write_once(&mut body, &mut endpoint).unwrap(), Progress::Complete);
    assert_eq!(body.pos, 10);
    assert_eq!(body.remaining(), 0);
    assert_eq!(endpoint.taken, vec![10u8, 11, 12, 13, 14, 15, 16, 17, 18, 19]);
}

#[test]
fn endpoint_that_takes_nothing_is_a_zero_write() {
    let mut endpoint = Scripted::new(vec![Step::Take(2), Step::Take(0)]);
    let mut body = Body::default();
    body.reset(5);
    assert_eq!(write_once(&mut body, &mut endpoint).unwrap(), Progress::Progressed(2));
    assert!(matches!(write_once(&mut body, &mut endpoint), Err(Error::ZeroWrite)));
    assert_eq!(body.pos, 2);
    assert_eq!(body.remaining(), 3);
}

#[test]
fn endpoint_failure_is_handed_on() {
    let mut endpoint = Scripted::new(vec![
        Step::Bytes(vec![1]),
        Step::Fail(ErrorKind::ConnectionReset),
        Step::Fail(ErrorKind::BrokenPipe),
    ]);
    let mut body = Body::default();
    body.reset(4);
    assert_eq!(read_once(&mut body, &mut endpoint).unwrap(), Progress::Progressed(1));
    match read_once(&mut body, &mut endpoint) {
        Err(Error::Io(cause)) => assert_eq!(cause.kind(), ErrorKind::ConnectionReset),
        other => panic!("{:?}", other),
    }
    match write_once(&mut body, &mut endpoint) {
        Err(Error::Io(cause)) => assert_eq!(cause.kind(), ErrorKind::BrokenPipe),
        other => panic!("{:?}", other),
    }
    assert_eq!(body.pos, 1);
}

#[test]
fn body_is_reused_for_the_next_message() {
    let mut endpoint = Scripted::new(vec![
        Step::Bytes(vec![1, 2, 3]),
        Step::Bytes(vec![4, 5]),
        Step::Block,
        Step::Bytes(vec![6, 7]),
    ]);
    let mut body = Body::default();
    body.reset(3);
    assert_eq!(read_once(&mut body, &mut endpoint).unwrap(), Progress::Complete);
    assert_eq!(body.as_bytes(), &[1u8, 2, 3]);

    body.reset(4);
    assert_eq!(body.remaining(), 4);
    assert_eq!(read_once(&mut body, &mut endpoint).unwrap(), Progress::Progressed(2));
    assert_eq!(read_once(&mut body, &mut endpoint).unwrap(), Progress::WouldBlock);
    assert_eq!(read_once(&mut body, &mut endpoint).unwrap(), Progress::Complete);
    assert_eq!(body.as_bytes(), &[4u8, 5, 6, 7]);
}
