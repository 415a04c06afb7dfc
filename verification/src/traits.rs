//! The pointer-conversion capability layer and the buffer access
//! traits.
//!
//! A small capability hierarchy gates which reference-like types may be
//! viewed as a plain run of bytes, narrowed to a sub-range, and read or
//! written through. A type earns exactly the capabilities its memory
//! guarantees justify: a string slice, for instance, could not carry
//! the base capability, because an arbitrary narrower byte range of it
//! cannot be reconstructed safely (it might split a multi-byte
//! character).

use vstd::prelude::*;
use crate::iorepr::IoRepr;
use crate::linear::max_capacity;
use crate::uninit::UninitSlice;

verus! {

/// Base capability: the value can be viewed as a run of bytes and
/// reconstructed from any narrower tail of that run.
///
/// Implementing this trait asserts that narrowing loses nothing the
/// type needs: a value reconstructed over a sub-range is as valid as
/// the original.
pub trait BytesPtr: Sized {
    /// Validity the value itself maintains.
    spec fn ptr_wf(&self) -> bool;

    /// The bytes the value stands for.
    spec fn bytes(&self) -> Seq<u8>;

    /// Returns how many bytes the value stands for.
    fn byte_len(&self) -> (n: usize)
        requires
            self.ptr_wf(),
        ensures
            n == self.bytes().len(),
    ;

    /// Reconstructs the value over the tail of its byte range starting
    /// at `from`.
    fn narrow(self, from: usize) -> (r: Self)
        requires
            self.ptr_wf(),
            from <= self.bytes().len(),
        ensures
            r.ptr_wf(),
            r.bytes() == self.bytes().skip(from as int),
    ;
}

/// Capability for values whose bytes may be overwritten with any bit
/// pattern; a type whose representation excludes some bytes could not
/// carry it.
pub trait BytesPtrMut: BytesPtr {

}

/// Capability for values whose bytes are all initialized and may be
/// soundly exposed as a readable slice.
pub trait ReadSafe: BytesPtr {
    /// Returns the value's bytes as a readable slice.
    fn as_read_slice(&self) -> (r: &[u8])
        requires
            self.ptr_wf(),
        ensures
            r@ == self.bytes(),
    ;
}

/// Capability for values whose bytes may be soundly written through.
pub trait WriteSafe: BytesPtrMut {

}

/// Capability for values that are safe to both read and write through.
pub trait MutSafe: ReadSafe + WriteSafe {

}

impl<'a> BytesPtr for &'a [u8] {
    open spec fn ptr_wf(&self) -> bool {
        true
    }

    open spec fn bytes(&self) -> Seq<u8> {
        self@
    }

    fn byte_len(&self) -> (n: usize) {
        self.len()
    }

    fn narrow(self, from: usize) -> (r: Self) {
        vstd::slice::slice_subrange(self, from, self.len())
    }
}

impl<'a> ReadSafe for &'a [u8] {
    fn as_read_slice(&self) -> (r: &[u8]) {
        self
    }
}

/// Trait for reading from buffer-like structures, phrased over the
/// vectored-I/O descriptor so that implementations can feed
/// scatter/gather transfers.
pub trait BufRead {
    /// Validity the implementing buffer maintains.
    spec fn buf_wf(&self) -> bool;

    /// The bytes available to read.
    spec fn readable(&self) -> Seq<u8>;

    /// Returns a read descriptor over the readable bytes.
    fn get_read_bufs<'a>(&'a self) -> (r: IoRepr<&'a [u8]>)
        requires
            self.buf_wf(),
        ensures
            r.wf(),
            r.view() == self.readable(),
    ;

    /// Marks `len` bytes as having been read.
    fn consume(&mut self, len: usize)
        requires
            old(self).buf_wf(),
            len <= old(self).readable().len(),
        ensures
            final(self).buf_wf(),
            final(self).readable() == old(self).readable().skip(len as int),
    ;

    /// Returns the suggested number of descriptors to request. A value
    /// of `0` means there is no data to read; any other value is a hint
    /// and should not be relied upon.
    fn read_bufs_hint(&self) -> usize {
        1
    }
}

/// Trait for writing to buffer-like structures, phrased over the write
/// guard: storage is checked out as a guard, filled, and supplied back,
/// so no unwritten byte is ever exposed as readable.
pub trait BufWrite {
    /// Validity the implementing buffer maintains.
    spec fn buf_wf(&self) -> bool;

    /// The bytes written so far and available to a reader.
    spec fn written(&self) -> Seq<u8>;

    /// Whether the writable storage is currently checked out.
    spec fn checked_out(&self) -> bool;

    /// Whether the buffer can take back a guard over `storage_len`
    /// bytes of storage.
    spec fn accepts(&self, storage_len: int) -> bool;

    /// Checks the writable storage out as a write guard whose window
    /// holds at least `req_len` bytes, allocating if needed.
    fn get_write_bufs(&mut self, req_len: usize) -> (r: UninitSlice)
        requires
            old(self).buf_wf(),
            old(self).written().len() + req_len <= max_capacity(),
        ensures
            final(self).buf_wf(),
            final(self).written() == old(self).written(),
            final(self).checked_out(),
            r.wf(),
            r.written_len() == 0,
            r.storage().len() >= req_len,
            final(self).accepts(r.storage().len() as int),
    ;

    /// Takes a filled guard back, marking its initialized prefix as
    /// written.
    fn supply(&mut self, filled: UninitSlice)
        requires
            old(self).buf_wf(),
            old(self).checked_out(),
            filled.wf(),
            old(self).accepts(filled.storage().len() as int),
        ensures
            final(self).buf_wf(),
            final(self).written() == old(self).written() + filled.written(),
    ;

    /// Returns the suggested number of descriptors to request. A value
    /// of `0` means there is no remaining capacity; any other value is
    /// a hint and should not be relied upon.
    fn write_bufs_hint(&self) -> usize {
        1
    }
}

} // verus!
