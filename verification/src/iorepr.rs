//! Scatter/gather descriptor arithmetic and the generic vectored-I/O
//! slice built on the pointer-conversion capability layer.
//!
//! Native vectored I/O passes arrays of address/length descriptors whose
//! exact shape the platform dictates: POSIX-like systems order them
//! address first with a machine-word length, Windows-like systems length
//! first with a 32-bit length. The two descriptor models here carry that
//! arithmetic — clamping on construction, saturating advance — with
//! addresses as plain numbers; picking one of the two shapes is a
//! build-time decision of the embedding, not a runtime branch.

use vstd::prelude::*;
use crate::traits::{BytesPtr, ReadSafe};

verus! {

/// POSIX-shaped scatter/gather descriptor: address first, machine-word
/// length.
#[derive(Clone, Copy)]
pub struct IoSliceUnix {
    addr: usize,
    len: usize,
}

impl IoSliceUnix {
    /// The descriptor's address.
    pub closed spec fn spec_addr(&self) -> int {
        self.addr as int
    }

    /// The descriptor's length.
    pub closed spec fn spec_len(&self) -> int {
        self.len as int
    }

    /// Builds a descriptor from an address and a length.
    pub fn new(addr: usize, len: usize) -> (r: IoSliceUnix)
        ensures
            r.spec_addr() == addr,
            r.spec_len() == len,
    {
        IoSliceUnix { addr, len }
    }

    /// Returns the descriptor's address.
    pub fn ptr(&self) -> (r: usize)
        ensures
            r == self.spec_addr(),
    {
        self.addr
    }

    /// Returns the descriptor's length.
    pub fn len(&self) -> (r: usize)
        ensures
            r == self.spec_len(),
    {
        self.len
    }

    /// Advances the descriptor, saturating: the address moves forward by
    /// at most the remaining length, and if `count` overshoots the
    /// descriptor, the excess is returned.
    pub fn advance(&mut self, count: usize) -> (excess: Option<usize>)
        requires
            old(self).spec_addr() + old(self).spec_len() <= usize::MAX,
        ensures
            final(self).spec_addr() == old(self).spec_addr() + if count <= old(self).spec_len() {
                count as int
            } else {
                old(self).spec_len()
            },
            final(self).spec_len() == if count <= old(self).spec_len() {
                old(self).spec_len() - count
            } else {
                0int
            },
            excess == if count <= old(self).spec_len() {
                Option::<usize>::None
            } else {
                Option::<usize>::Some((count - old(self).spec_len()) as usize)
            },
    {
        if count <= self.len {
            self.addr = self.addr + count;
            self.len = self.len - count;
            None
        } else {
            self.addr = self.addr + self.len;
            let excess = count - self.len;
            self.len = 0;
            Some(excess)
        }
    }
}

/// Windows-shaped scatter/gather descriptor: 32-bit length first, then
/// the address. Lengths beyond the 32-bit range are clamped, not
/// wrapped.
#[derive(Clone, Copy)]
pub struct IoSliceWin {
    len: u32,
    addr: usize,
}

impl IoSliceWin {
    /// The descriptor's address.
    pub closed spec fn spec_addr(&self) -> int {
        self.addr as int
    }

    /// The descriptor's length.
    pub closed spec fn spec_len(&self) -> int {
        self.len as int
    }

    /// Builds a descriptor from an address and a length, clamping the
    /// length to the 32-bit field.
    pub fn new(addr: usize, len: usize) -> (r: IoSliceWin)
        ensures
            r.spec_addr() == addr,
            r.spec_len() == if len <= u32::MAX { len as int } else {
                u32::MAX as int
            },
    {
        let len32: u32 = if len <= (u32::MAX as usize) {
            len as u32
        } else {
            u32::MAX
        };
        IoSliceWin { len: len32, addr }
    }

    /// Returns the descriptor's address.
    pub fn ptr(&self) -> (r: usize)
        ensures
            r == self.spec_addr(),
    {
        self.addr
    }

    /// Returns the descriptor's length.
    pub fn len(&self) -> (r: usize)
        ensures
            r == self.spec_len(),
    {
        self.len as usize
    }

    /// Advances the descriptor, saturating, returning the excess when
    /// `count` overshoots. `count` must fit the 32-bit length field.
    pub fn advance(&mut self, count: usize) -> (excess: Option<usize>)
        requires
            count <= u32::MAX,
            old(self).spec_addr() + old(self).spec_len() <= usize::MAX,
        ensures
            final(self).spec_addr() == old(self).spec_addr() + if count <= old(self).spec_len() {
                count as int
            } else {
                old(self).spec_len()
            },
            final(self).spec_len() == if count <= old(self).spec_len() {
                old(self).spec_len() - count
            } else {
                0int
            },
            excess == if count <= old(self).spec_len() {
                Option::<usize>::None
            } else {
                Option::<usize>::Some((count - old(self).spec_len()) as usize)
            },
    {
        let count32 = count as u32;
        if count32 <= self.len {
            self.addr = self.addr + count32 as usize;
            self.len = self.len - count32;
            None
        } else {
            self.addr = self.addr + self.len as usize;
            let excess = count32 - self.len;
            self.len = 0;
            Some(excess as usize)
        }
    }
}

/// Vectored-I/O view over a byte-convertible value.
///
/// Wraps any value carrying the pointer-conversion capability and
/// exposes it as a window that can only shrink from the front — the
/// shape scatter/gather descriptors take as a transfer makes progress.
/// The original value, narrowed to the remaining window, is recovered
/// with [`IoRepr::into_inner`].
#[derive(Clone, Copy)]
pub struct IoRepr<S: BytesPtr> {
    inner: S,
    off: usize,
    len: usize,
}

impl<S: BytesPtr> IoRepr<S> {
    /// Well-formedness: the window reaches exactly to the end of the
    /// wrapped value's bytes.
    pub closed spec fn wf(&self) -> bool {
        &&& self.inner.ptr_wf()
        &&& self.off + self.len == self.inner.bytes().len()
        &&& self.inner.bytes().len() <= usize::MAX
    }

    /// The bytes of the remaining window.
    pub closed spec fn view(&self) -> Seq<u8> {
        self.inner.bytes().skip(self.off as int)
    }

    /// The wrapped value.
    pub closed spec fn spec_inner(&self) -> S {
        self.inner
    }

    /// Wraps a byte-convertible value, with the window covering all of
    /// its bytes.
    pub fn new(slice: S) -> (r: IoRepr<S>)
        requires
            slice.ptr_wf(),
        ensures
            r.wf(),
            r.view() == slice.bytes(),
            r.spec_inner() == slice,
    {
        let len = slice.byte_len();
        let r = IoRepr { inner: slice, off: 0, len };
        proof {
            assert(r.view() =~= r.inner.bytes());
        }
        r
    }

    /// Returns the length of the remaining window in bytes.
    pub fn len(&self) -> (r: usize)
        requires
            self.wf(),
        ensures
            r == self.view().len(),
    {
        self.len
    }

    /// Returns `true` if the remaining window is empty.
    pub fn is_empty(&self) -> (r: bool)
        requires
            self.wf(),
        ensures
            r == (self.view().len() == 0),
    {
        self.len == 0
    }

    /// Advances the window, saturating and returning the excess when
    /// `len` overshoots the window.
    pub fn advance(&mut self, len: usize) -> (excess: Option<usize>)
        requires
            old(self).wf(),
        ensures
            final(self).wf(),
            final(self).spec_inner() == old(self).spec_inner(),
            final(self).view() == old(self).view().skip(
                if len <= old(self).view().len() {
                    len as int
                } else {
                    old(self).view().len() as int
                },
            ),
            excess == if len <= old(self).view().len() {
                Option::<usize>::None
            } else {
                Option::<usize>::Some((len - old(self).view().len()) as usize)
            },
    {
        if len <= self.len {
            self.off = self.off + len;
            self.len = self.len - len;
            None
        } else {
            self.off = self.off + self.len;
            let excess = len - self.len;
            self.len = 0;
            Some(excess)
        }
    }

    /// Recovers the wrapped value, narrowed to the remaining window.
    pub fn into_inner(self) -> (r: S)
        requires
            self.wf(),
        ensures
            r.bytes() == self.view(),
    {
        self.inner.narrow(self.off)
    }
}

impl<S: ReadSafe> IoRepr<S> {
    /// Returns the remaining window as a slice, permitted by the
    /// wrapped value's read capability.
    pub fn as_slice(&self) -> (r: &[u8])
        requires
            self.wf(),
        ensures
            r@ == self.view(),
    {
        let whole = self.inner.as_read_slice();
        vstd::slice::slice_subrange(whole, self.off, self.off + self.len)
    }
}

impl<'a> IoRepr<&'a [u8]> {
    /// Wraps a read-only byte slice for use as a read descriptor.
    pub fn new_read(slice: &'a [u8]) -> (r: IoRepr<&'a [u8]>)
        ensures
            r.wf(),
            r.view() == slice@,
    {
        IoRepr::new(slice)
    }
}

impl IoRepr<crate::uninit::UninitSlice> {
    /// Wraps a write guard for use as a write descriptor.
    pub fn new_write(slice: crate::uninit::UninitSlice) -> (r: IoRepr<crate::uninit::UninitSlice>)
        requires
            slice.wf(),
        ensures
            r.wf(),
            r.view() == slice.window(),
    {
        IoRepr::new(slice)
    }
}

} // verus!
