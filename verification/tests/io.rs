use can_core::io::{blocking, retryable, Error, Write};
use std::cell::Cell;

struct TestBuffer {
    buffer: [u8; 100],
    index: usize,
}

impl Write for TestBuffer {
    // The ghost model of the sink; never called at runtime.
    fn accepted(&self) -> vstd::seq::Seq<u8> {
        unreachable!()
    }

    fn write(&mut self, buf: &[u8]) -> Result<usize, Error> {
        self.buffer[self.index..self.index + buf.len()].clone_from_slice(buf);
        self.index += buf.len();
        Ok(buf.len())
    }
}

#[test]
fn write_test() {
    let mut test_buffer = TestBuffer { buffer: [0u8; 100], index: 0 };

    let formatted = format!("This {} a {}", "is", "test");
    test_buffer.write_all(formatted.as_bytes()).unwrap();

    assert_eq!(test_buffer.buffer[..test_buffer.index].len(), "This is a test".as_bytes().len());
    assert_eq!(&test_buffer.buffer[..test_buffer.index], "This is a test".as_bytes());
}

#[test]
fn write_str_appends_bytes() {
    let mut test_buffer = TestBuffer { buffer: [0u8; 100], index: 0 };
    test_buffer.write_str("abc").unwrap();
    test_buffer.write_str("de").unwrap();
    assert_eq!(&test_buffer.buffer[..test_buffer.index], b"abcde");
}

/// Accepts at most `k` bytes per call and never errors.
struct ChunkWriter {
    data: Vec<u8>,
    k: usize,
    calls: usize,
}

impl Write for ChunkWriter {
    // The ghost model of the sink; never called at runtime.
    fn accepted(&self) -> vstd::seq::Seq<u8> {
        unreachable!()
    }

    fn write(&mut self, buf: &[u8]) -> Result<usize, Error> {
        self.calls += 1;
        let n = buf.len().min(self.k);
        self.data.extend_from_slice(&buf[..n]);
        Ok(n)
    }
}

#[test]
fn write_all_chunked_calls_ceil_m_over_k_times() {
    let mut w = ChunkWriter { data: Vec::new(), k: 3, calls: 0 };
    let buf = [1u8, 2, 3, 4, 5, 6, 7];
    assert_eq!(w.write_all(&buf), Ok(()));
    // ceil(7 / 3) == 3
    assert_eq!(w.calls, 3);
    assert_eq!(w.data, buf.to_vec());

    let mut w2 = ChunkWriter { data: Vec::new(), k: 2, calls: 0 };
    let buf2 = [1u8, 2, 3, 4, 5, 6, 7, 8];
    assert_eq!(w2.write_all(&buf2), Ok(()));
    // ceil(8 / 2) == 4
    assert_eq!(w2.calls, 4);
    assert_eq!(w2.data, buf2.to_vec());
}

/// Fails with a non-retryable error once two bytes have been accepted.
struct FailingWriter {
    data: Vec<u8>,
}

impl Write for FailingWriter {
    // The ghost model of the sink; never called at runtime.
    fn accepted(&self) -> vstd::seq::Seq<u8> {
        unreachable!()
    }

    fn write(&mut self, buf: &[u8]) -> Result<usize, Error> {
        if self.data.len() >= 2 {
            return Err(Error::ErrorDetectionCode);
        }
        let n = buf.len().min(1);
        self.data.extend_from_slice(&buf[..n]);
        Ok(n)
    }
}

#[test]
fn write_all_empty_buffer_succeeds_without_calling_write() {
    let mut w = ChunkWriter { data: Vec::new(), k: 3, calls: 0 };
    assert_eq!(w.write_all(&[]), Ok(()));
    assert_eq!(w.calls, 0);
    assert!(w.data.is_empty());
}

#[test]
fn write_str_empty_succeeds_without_calling_write() {
    let mut w = ChunkWriter { data: Vec::new(), k: 3, calls: 0 };
    assert_eq!(w.write_str(""), Ok(()));
    assert_eq!(w.calls, 0);
    assert!(w.data.is_empty());
}

#[test]
fn write_all_propagates_non_retryable_error() {
    let mut w = FailingWriter { data: Vec::new() };
    assert_eq!(w.write_all(&[5, 6, 7]), Err(Error::ErrorDetectionCode));
    assert_eq!(w.data, vec![5, 6]);
}

/// Reports its buffer as exhausted a given number of times before accepting
/// anything.
struct SlowWriter {
    data: Vec<u8>,
    stalls: usize,
}

impl Write for SlowWriter {
    // The ghost model of the sink; never called at runtime.
    fn accepted(&self) -> vstd::seq::Seq<u8> {
        unreachable!()
    }

    fn write(&mut self, buf: &[u8]) -> Result<usize, Error> {
        if self.stalls > 0 {
            self.stalls -= 1;
            return Err(Error::BufferExhausted);
        }
        self.data.extend_from_slice(buf);
        Ok(buf.len())
    }
}

#[test]
fn write_all_retries_over_exhausted_buffer() {
    let mut w = SlowWriter { data: Vec::new(), stalls: 3 };
    assert_eq!(w.write_all(&[1, 2, 3]), Ok(()));
    assert_eq!(w.data, vec![1, 2, 3]);
}

#[test]
fn blocking_returns_after_transient_exhaustion() {
    let calls = Cell::new(0usize);
    let op = || {
        calls.set(calls.get() + 1);
        if calls.get() <= 3 {
            Err(Error::BufferExhausted)
        } else {
            Ok(42)
        }
    };
    let r: Result<i32, Error> = blocking(op);
    assert_eq!(r, Ok(42));
    assert_eq!(calls.get(), 4);
}

#[test]
fn blocking_returns_other_errors_without_retrying() {
    let calls = Cell::new(0usize);
    let op = || -> Result<i32, Error> {
        calls.set(calls.get() + 1);
        Err(Error::InvalidInput)
    };
    assert_eq!(blocking(op), Err(Error::InvalidInput));
    assert_eq!(calls.get(), 1);

    let calls2 = Cell::new(0usize);
    let op2 = || -> Result<i32, Error> {
        calls2.set(calls2.get() + 1);
        Err(Error::Other)
    };
    assert_eq!(blocking(op2), Err(Error::Other));
    assert_eq!(calls2.get(), 1);
}

#[test]
fn blocking_immediate_success() {
    let r: Result<u8, Error> = blocking(|| Ok(7));
    assert_eq!(r, Ok(7));
}

#[test]
fn retryable_is_exactly_buffer_exhausted() {
    assert!(retryable(&Error::BufferExhausted));
    assert!(!retryable(&Error::InvalidInput));
    assert!(!retryable(&Error::ErrorDetectionCode));
    assert!(!retryable(&Error::Other));
}
