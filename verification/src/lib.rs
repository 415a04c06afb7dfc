//! A linear, self-compacting byte buffer with separate read and write
//! cursors, together with the surrounding toolkit for building protocol
//! codecs: an initialization-guarding write window, scatter/gather
//! descriptor arithmetic, a capability layer that gates which reference
//! types may be viewed as plain bytes, and the trait contracts that
//! framed and unframed stream drivers must honor.
//!
//! The buffer owns a single contiguous allocation and never wraps
//! around, so readable data is always one slice. Two cursors partition
//! the storage: consumed space in front, then the readable region, then
//! the writable region up to capacity.

pub mod codec;
pub mod io;
pub mod iorepr;
pub mod linear;
pub mod traits;
pub mod uninit;

pub use codec::{ByteDecoder, ByteEncoder, FramedDecoder, FramedEncoder, Poll, UnframedDecoder,
    UnframedEncoder};
pub use io::{FramedRead, FramedWrite, UnframedRead, UnframedWrite};
pub use iorepr::{IoRepr, IoSliceUnix, IoSliceWin};
pub use linear::{LinearBuf, LinearBufReader, LinearBufWriter};
pub use traits::{BufRead, BufWrite, BytesPtr, BytesPtrMut, MutSafe, ReadSafe, WriteSafe};
pub use uninit::UninitSlice;

use vstd::prelude::*;

verus! {

/// Explicit signal for a growth operation that could not obtain memory.
///
/// Operations that only touch existing capacity never fail this way; the
/// infallible growth operations of [`linear::LinearBuf`] abort on
/// exhaustion instead of returning this value.
#[derive(Clone, Copy, PartialEq, Eq, PartialOrd, Ord, Debug, Default)]
pub struct AllocFailure;

impl AllocFailure {
    /// A human-readable description of the failure.
    pub fn message(&self) -> &'static str {
        "memory allocation failure"
    }
}

} // verus!
