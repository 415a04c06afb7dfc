//! Stream driver contracts.
//!
//! Traits for the read and write halves of byte streams, distinguishing
//! at the type level between streams with built-in message framing and
//! plain byte streams. An external driver polls these operations; a
//! pending outcome requires the driver to retry with the same buffer
//! and length arguments once its readiness condition fires — no
//! progress is assumed lost, but none is guaranteed either, and
//! abandoning a pending operation leaves every buffer consistent.
//!
//! Transport errors are opaque, per-implementation values, propagated
//! unchanged and never interpreted or retried here.

use vstd::prelude::*;
use crate::codec::Poll;
use crate::linear::max_capacity;
use crate::traits::{BufRead, BufWrite};

verus! {

/// Trait for the read halves of streams with no message framing.
pub trait UnframedRead {
    /// Opaque transport error.
    type Error;

    /// Reads into the provided buffer: at least `min_len` bytes are
    /// wanted by the caller, and no more than `max_len` may be read.
    ///
    /// A ready value is no less than the length of the next message in
    /// the buffer, with `0` meaning "unknown". A pending outcome writes
    /// nothing — no partial write is ever exposed as readable — and the
    /// caller must retry with the same buffer and bounds.
    fn read<W: BufWrite>(&mut self, buf: &mut W, min_len: usize, max_len: usize) -> (r: Poll<
        Result<usize, Self::Error>,
    >)
        requires
            old(buf).buf_wf(),
            !old(buf).checked_out(),
            old(buf).written().len() + max_len <= max_capacity(),
        ensures
            final(buf).buf_wf(),
            r is Pending ==> final(buf).written() == old(buf).written(),
            (r is Ready && r->Ready_0 is Ok) ==> exists|w: Seq<u8>|
                w.len() <= max_len && final(buf).written() == old(buf).written() + w,
    ;
}

/// Trait for the read halves of streams with built-in message framing.
///
/// This trait imposes an additional condition on [`UnframedRead::read`]:
/// upon a ready success of `len`, precisely one message that is exactly
/// `len` bytes long shall have been written to the provided buffer.
pub trait FramedRead: UnframedRead {

}

/// Trait for the write halves of streams with no message framing.
pub trait UnframedWrite {
    /// Opaque transport error.
    type Error;

    /// Writes bytes from the provided buffer. `msg_len` is a hint
    /// indicating how many bytes are in the next message; no fewer than
    /// that many should be attempted.
    ///
    /// Bytes are only ever consumed from the front of the buffer, and a
    /// pending outcome consumes nothing, so the caller can retry with
    /// the same buffer and hint.
    fn write<R: BufRead>(&mut self, buf: &mut R, msg_len: usize) -> (r: Poll<
        Result<(), Self::Error>,
    >)
        requires
            old(buf).buf_wf(),
        ensures
            final(buf).buf_wf(),
            r is Pending ==> final(buf).readable() == old(buf).readable(),
            exists|k: int|
                0 <= k <= old(buf).readable().len() && final(buf).readable() == old(
                    buf,
                ).readable().skip(k),
    ;

    /// Flushes any internal buffering, consuming from the provided
    /// buffer whatever it writes out.
    fn flush<R: BufRead>(&mut self, buf: &mut R) -> (r: Poll<Result<(), Self::Error>>)
        requires
            old(buf).buf_wf(),
        ensures
            final(buf).buf_wf(),
            r is Pending ==> final(buf).readable() == old(buf).readable(),
            exists|k: int|
                0 <= k <= old(buf).readable().len() && final(buf).readable() == old(
                    buf,
                ).readable().skip(k),
    ;
}

/// Trait for the write halves of streams with built-in message framing.
///
/// This trait imposes an additional condition on
/// [`UnframedWrite::write`]: upon a ready success, exactly `msg_len`
/// bytes must have been written.
pub trait FramedWrite: UnframedWrite {

}

} // verus!
