//! Traits, helpers and type definitions for embedded I/O without an
//! operating system: a byte-oriented write/read capability pair, a common
//! error taxonomy, and an adapter that turns a non-blocking operation into
//! a blocking one by polling retry.

use vstd::prelude::*;
use vstd::pervasive::cloned;
use vstd::slice::slice_subrange;
use vstd::string::StringSliceAdditionalSpecFns;

verus! {

/// Common transmit/receive errors.
/// This list is intended to grow over time and it is not recommended to
/// exhaustively match against it.
#[derive(Clone, Copy, Debug, PartialEq, Eq, Structural)]
pub enum Error {
    /// In case of transmissions: Buffer full. In case of reception: Buffer
    /// empty. The one transient, safe-to-retry condition.
    BufferExhausted,
    /// The caller supplied a malformed argument; not retryable.
    InvalidInput,
    /// A reception can fail with this error if it is grounded in parity
    /// checking, CRC calculation or similar.
    ErrorDetectionCode,
    /// A catch-all for conditions this taxonomy does not name yet.
    Other,
}

/// A specialized `Result` type for embedded I/O operations.
pub type Result<T> = core::result::Result<T, Error>;

/// `conv` could be what converting (a clone of) `err` into the common error
/// taxonomy yields. Clone and conversion are the caller's impls, so only
/// their contracts bound the outcome.
pub open spec fn converts_to<E: Into<Error> + Clone>(err: E, conv: Error) -> bool {
    exists|c: E|
        cloned(err, c) && call_ensures(<E as Into<Error>>::into, (c,), conv)
}

/// Whether the blocking adapter retries after this error: exactly when it
/// converts to the transient `Error::BufferExhausted`.
pub fn retryable<E>(err: &E) -> (b: bool) where E: Into<Error> + Clone
    ensures
        exists|conv: Error|
            converts_to(*err, conv) && (b <==> conv == Error::BufferExhausted),
{
    let c = err.clone();
    let ghost witness = c;
    let conv: Error = c.into();
    proof {
        assert(cloned(*err, witness));
        assert(converts_to(*err, conv));
    }
    conv == Error::BufferExhausted
}

/// Turns a non-blocking transmit/receive into a blocking one: the operation
/// is retried in a tight polling loop as long as it fails with an error
/// that converts to `Error::BufferExhausted`; any success or other error is
/// returned at once. There is no backoff, yield or cancellation: on the
/// intended bare-metal targets the underlying primitive makes progress
/// driven by hardware. Each retry consumes one unit of a spin budget of
/// `u64::MAX`, which keeps the adapter provably total; at any realistic
/// polling rate the budget outlasts the hardware by centuries, and were it
/// ever spent, the most recent error would be returned as it stands.
pub fn blocking<F, O, E>(non_blocking: F) -> (r: core::result::Result<O, E>) where
    F: Fn() -> core::result::Result<O, E>,
    E: Into<Error> + Clone,

    requires
        non_blocking.requires(()),
    ensures
        r matches Ok(o) ==> non_blocking.ensures((), Ok(o)),
        r matches Err(e) ==> non_blocking.ensures((), Err(e)) && exists|conv: Error|
            converts_to(e, conv),
{
    let mut budget: u64 = u64::MAX;
    loop
        invariant
            non_blocking.requires(()),
        decreases budget,
    {
        match non_blocking() {
            Err(x) => {
                if !retryable(&x) || budget == 0 {
                    return Err(x);
                }
                budget = budget - 1;
            },
            Ok(x) => {
                return Ok(x);
            },
        }
    }
}

/// A trait for objects which are byte-oriented sinks.
///
/// This is very similar to the standard library's `io::Write` and shares
/// similarities with `fmt::Write`. This trait is intended to be implemented
/// for custom types used in bare-metal development.
pub trait Write {
    /// The bytes this sink has accepted so far, in order: the model an
    /// implementor gives of itself. A sink must not silently drop bytes it
    /// reports as written.
    spec fn accepted(&self) -> Seq<u8>;

    /// Write a buffer into this object, returning how many bytes were
    /// written.
    ///
    /// This function will attempt to write the entire contents of `buf`,
    /// but the entire write may not succeed, or the write may also generate
    /// an error. A call to `write` represents at most one attempt to write
    /// to any wrapped object: it accepts some prefix of `buf`, or fails
    /// accepting nothing.
    fn write(&mut self, buf: &[u8]) -> (r: Result<usize>)
        ensures
            r matches Ok(n) ==> n <= buf@.len() && final(self).accepted() == old(self).accepted()
                + buf@.take(n as int),
            r is Err ==> final(self).accepted() == old(self).accepted(),
    ;

    /// Attempts to write an entire buffer into this write.
    ///
    /// This method will continuously call `write` until there is no more
    /// data or an error of non-`Error::BufferExhausted` kind is returned.
    /// A call that accepts nothing, or fails with `Error::BufferExhausted`,
    /// is retried; as in `blocking`, each retry consumes one unit of a spin
    /// budget of `u64::MAX` that keeps the loop provably total, and were
    /// the budget ever spent, `Error::BufferExhausted` would be returned.
    fn write_all(&mut self, buf: &[u8]) -> (r: Result<()>)
        ensures
            buf@.len() == 0 ==> r is Ok,
            r is Ok ==> final(self).accepted() == old(self).accepted() + buf@,
            r is Err ==> exists|k: int|
                0 <= k <= buf@.len() && final(self).accepted() == old(self).accepted()
                    + buf@.take(k),
    {
        let mut bytes_written: usize = 0;
        let mut budget: u64 = u64::MAX;
        while bytes_written < buf.len()
            invariant
                bytes_written <= buf@.len(),
                self.accepted() == old(self).accepted() + buf@.take(bytes_written as int),
            decreases budget, buf@.len() - bytes_written,
        {
            let rest = slice_subrange(buf, bytes_written, buf.len());
            match self.write(rest) {
                Ok(n) => {
                    proof {
                        assert(buf@.take(bytes_written as int) + rest@.take(n as int)
                            =~= buf@.take(bytes_written + n));
                    }
                    if n == 0 {
                        if budget == 0 {
                            return Err(Error::BufferExhausted);
                        }
                        budget = budget - 1;
                    }
                    bytes_written += n;
                },
                Err(Error::BufferExhausted) => {
                    if budget == 0 {
                        return Err(Error::BufferExhausted);
                    }
                    budget = budget - 1;
                },
                Err(e) => {
                    return Err(e);
                },
            }
        }
        proof {
            assert(buf@.take(buf@.len() as int) =~= buf@);
        }
        Ok(())
    }

    /// Attempts to write a str into this write.
    ///
    /// This method will continuously call `write` until there is no more
    /// data or an error of non-`Error::BufferExhausted` kind is returned.
    fn write_str(&mut self, s: &str) -> (r: Result<()>)
        ensures
            s.spec_bytes().len() == 0 ==> r is Ok,
            r is Ok ==> final(self).accepted() == old(self).accepted() + s.spec_bytes(),
            r is Err ==> exists|k: int|
                0 <= k <= s.spec_bytes().len() && final(self).accepted() == old(self).accepted()
                    + s.spec_bytes().take(k),
    {
        self.write_all(s.as_bytes())
    }
}

/// The `Read` trait allows for reading bytes from a source.
///
/// Implementors of the `Read` trait are called 'readers'.
///
/// This is very similar to the standard library's `io::Read`. This trait is
/// intended to be implemented for custom types used in bare-metal
/// development.
pub trait Read {
    /// This function will read bytes from the underlying stream until the
    /// buffer is full, the delimiter is found or the end of the source is
    /// found.
    ///
    /// If the return value of this method is `Ok(n)` then it is guaranteed
    /// that `n <= buf.len()`. A nonzero `n` value indicates that the buffer
    /// `buf` has been filled in with `n` bytes of data from this source. If
    /// `n` is 0, then it can indicate one of two scenarios: the reader has
    /// reached its end and is likely no longer able to produce bytes, or
    /// the buffer specified was 0 bytes in length. Callers must
    /// disambiguate using the buffer length, not assume termination.
    fn read_until(&mut self, byte: u8, buf: &mut [u8]) -> (r: Result<usize>)
        ensures
            r matches Ok(n) ==> n <= old(buf)@.len(),
            final(buf)@.len() == old(buf)@.len(),
    ;
}

} // verus!
