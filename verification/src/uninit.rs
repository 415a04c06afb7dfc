//! The uninitialized-memory write guard: a bounded window over storage
//! whose contents must not be read until the guard itself has written,
//! zero-filled, or deliberately skipped them.

use vstd::prelude::*;

verus! {

/// A write-only window over possibly-stale storage.
///
/// The guard owns a run of bytes split in two by a cursor: the prefix
/// before the cursor has been made initialized by the guard (written,
/// zero-filled, or deliberately advanced past), and the window after the
/// cursor holds stale bytes whose values must not be relied upon. No
/// operation reports a byte as readable unless it first copied data over
/// it or zero-filled it, so the stale window can never leak out as
/// readable data.
///
/// This is similar to tracking an initialized prefix in a read buffer,
/// but the guard never hands the window back uninitialized, which is
/// what makes it safe to build one over recycled storage.
pub struct UninitSlice {
    data: Vec<u8>,
    pos: usize,
}

impl UninitSlice {
    /// Well-formedness: the cursor stays inside the storage.
    pub closed spec fn wf(&self) -> bool {
        self.pos <= self.data@.len()
    }

    /// All bytes the guard owns.
    pub closed spec fn storage(&self) -> Seq<u8> {
        self.data@
    }

    /// The prefix that the guard has made initialized.
    pub closed spec fn written(&self) -> Seq<u8> {
        self.data@.take(self.pos as int)
    }

    /// How many bytes the guard has made initialized.
    pub closed spec fn written_len(&self) -> int {
        self.pos as int
    }

    /// The remaining window of possibly-stale bytes.
    pub closed spec fn window(&self) -> Seq<u8> {
        self.data@.skip(self.pos as int)
    }

    /// Constructs an empty guard.
    pub fn empty() -> (r: UninitSlice)
        ensures
            r.wf(),
            r.storage() == Seq::<u8>::empty(),
            r.written() == Seq::<u8>::empty(),
            r.window() == Seq::<u8>::empty(),
            r.written_len() == 0,
    {
        let r = UninitSlice { data: Vec::new(), pos: 0 };
        proof {
            assert(r.written() =~= Seq::<u8>::empty());
            assert(r.window() =~= Seq::<u8>::empty());
        }
        r
    }

    /// Constructs a guard over storage that is already initialized.
    /// The guard still refuses to expose it until it is overwritten,
    /// which keeps every guard interchangeable.
    pub fn new(bytes: Vec<u8>) -> (r: UninitSlice)
        ensures
            r.wf(),
            r.storage() == bytes@,
            r.written() == Seq::<u8>::empty(),
            r.window() == bytes@,
            r.written_len() == 0,
    {
        let r = UninitSlice { data: bytes, pos: 0 };
        proof {
            assert(r.written() =~= Seq::<u8>::empty());
            assert(r.window() =~= r.data@);
        }
        r
    }

    /// Constructs a guard over storage whose initialization state is
    /// unknown, such as a buffer's recycled writable region.
    pub fn uninit(bytes: Vec<u8>) -> (r: UninitSlice)
        ensures
            r.wf(),
            r.storage() == bytes@,
            r.written() == Seq::<u8>::empty(),
            r.window() == bytes@,
            r.written_len() == 0,
    {
        let r = UninitSlice { data: bytes, pos: 0 };
        proof {
            assert(r.written() =~= Seq::<u8>::empty());
            assert(r.window() =~= r.data@);
        }
        r
    }

    /// Returns the length in bytes of the remaining window.
    pub fn len(&self) -> (r: usize)
        requires
            self.wf(),
        ensures
            r == self.window().len(),
    {
        self.data.len() - self.pos
    }

    /// Returns `true` if the remaining window is empty.
    pub fn is_empty(&self) -> (r: bool)
        requires
            self.wf(),
        ensures
            r == (self.window().len() == 0),
    {
        self.data.len() == self.pos
    }

    /// Shortens the window from the front without writing, asserting
    /// that the skipped bytes were definitely initialized by other
    /// means. If `count` is longer than the window, returns the excess.
    pub fn advance(&mut self, count: usize) -> (excess: usize)
        requires
            old(self).wf(),
        ensures
            final(self).wf(),
            final(self).storage() == old(self).storage(),
            final(self).written_len() == old(self).written_len() + if count
                <= old(self).window().len() {
                count as int
            } else {
                old(self).window().len() as int
            },
            excess == if count <= old(self).window().len() {
                0int
            } else {
                count - old(self).window().len()
            },
    {
        let window_len = self.data.len() - self.pos;
        if count <= window_len {
            self.pos = self.pos + count;
            0
        } else {
            self.pos = self.data.len();
            count - window_len
        }
    }

    /// Writes data from the provided slice into the front of the
    /// window and advances past it, making exactly those bytes
    /// initialized. If the slice is longer than the window, only the
    /// first `len` bytes are written. Returns how many bytes were
    /// written.
    pub fn write_from(&mut self, src: &[u8]) -> (n: usize)
        requires
            old(self).wf(),
        ensures
            final(self).wf(),
            n == if src@.len() <= old(self).window().len() {
                src@.len() as int
            } else {
                old(self).window().len() as int
            },
            final(self).storage().len() == old(self).storage().len(),
            final(self).written() == old(self).written() + src@.take(n as int),
            final(self).window() == old(self).window().skip(n as int),
    {
        let window_len = self.data.len() - self.pos;
        let n = if src.len() <= window_len {
            src.len()
        } else {
            window_len
        };
        let ghost start = *self;
        let mut i: usize = 0;
        while i < n
            invariant
                i <= n,
                start.wf(),
                n <= src@.len(),
                start.pos + n <= start.data@.len(),
                start.data@.len() <= usize::MAX,
                self.pos == start.pos,
                self.data@.len() == start.data@.len(),
                forall|j: int|
                    0 <= j < i ==> #[trigger] self.data@[start.pos + j] == src@[j],
                forall|j: int|
                    (0 <= j < start.pos || start.pos + i <= j < start.data@.len())
                        ==> #[trigger] self.data@[j] == start.data@[j],
            decreases n - i,
        {
            let b = src[i];
            self.data[self.pos + i] = b;
            i += 1;
        }
        self.pos = self.pos + n;
        proof {
            let combined = old(self).written() + src@.take(n as int);
            assert forall|k: int| 0 <= k < self.written().len() implies self.written()[k]
                == combined[k] by {
                if k < start.pos {
                    assert(self.data@[k] == start.data@[k]);
                } else {
                    assert(self.data@[start.pos + (k - start.pos)] == src@[k - start.pos]);
                }
            }
            assert(self.written() =~= combined);
            assert forall|k: int| 0 <= k < self.window().len() implies self.window()[k]
                == old(self).window().skip(n as int)[k] by {
                assert(self.data@[self.pos + k] == start.data@[self.pos + k]);
            }
            assert(self.window() =~= old(self).window().skip(n as int));
        }
        n
    }

    /// Writes data through the provided closure and advances past what
    /// it reports written. The closure receives a fully zero-filled
    /// prefix of the window, `max` bytes long (shorter only if the
    /// window is), so no stale byte is ever exposed; it returns the
    /// filled bytes together with how many of them it wrote, which must
    /// be no more than it was given.
    pub fn write_with<F: FnOnce(Vec<u8>) -> (Vec<u8>, usize)>(
        &mut self,
        max: usize,
        f: F,
    ) -> (written: usize)
        requires
            old(self).wf(),
            forall|z: Vec<u8>|
                z@.len() <= max && z@ == Seq::new(z@.len(), |i: int| 0u8)
                    ==> #[trigger] call_requires(f, (z,)),
            forall|z: Vec<u8>, r: (Vec<u8>, usize)|
                #[trigger] call_ensures(f, (z,), r) ==> r.0@.len() == z@.len() && r.1
                    <= z@.len(),
        ensures
            final(self).wf(),
            final(self).storage().len() == old(self).storage().len(),
            ({
                let k = if max <= old(self).window().len() {
                    max as int
                } else {
                    old(self).window().len() as int
                };
                &&& written <= k
                &&& final(self).written_len() == old(self).written_len() + written
                &&& exists|z: Vec<u8>, out: Vec<u8>|
                    {
                        &&& z@ == Seq::new(k as nat, |i: int| 0u8)
                        &&& #[trigger] call_ensures(f, (z,), (out, written))
                        &&& out@.len() == k
                        &&& final(self).written() == old(self).written() + out@.take(
                            written as int,
                        )
                        &&& final(self).window() == out@.skip(written as int) + old(
                            self,
                        ).window().skip(k)
                    }
            }),
    {
        let window_len = self.data.len() - self.pos;
        let k = if max <= window_len {
            max
        } else {
            window_len
        };
        let mut z: Vec<u8> = Vec::new();
        while z.len() < k
            invariant
                z@.len() <= k,
                z@ == Seq::new(z@.len(), |i: int| 0u8),
            decreases k - z@.len(),
        {
            z.push(0u8);
            proof {
                assert(z@ =~= Seq::new(z@.len(), |i: int| 0u8));
            }
        }
        let ghost zs = z@;
        let (out, written) = f(z);
        let ghost start = *self;
        let mut i: usize = 0;
        while i < k
            invariant
                i <= k,
                start.wf(),
                out@.len() == k,
                start.pos + k <= start.data@.len(),
                start.data@.len() <= usize::MAX,
                self.pos == start.pos,
                self.data@.len() == start.data@.len(),
                forall|j: int|
                    0 <= j < i ==> #[trigger] self.data@[start.pos + j] == out@[j],
                forall|j: int|
                    (0 <= j < start.pos || start.pos + i <= j < start.data@.len())
                        ==> #[trigger] self.data@[j] == start.data@[j],
            decreases k - i,
        {
            let b = out[i];
            self.data[self.pos + i] = b;
            i += 1;
        }
        self.pos = self.pos + written;
        proof {
            let combined = old(self).written() + out@.take(written as int);
            assert forall|j: int| 0 <= j < self.written().len() implies self.written()[j]
                == combined[j] by {
                if j < start.pos {
                    assert(self.data@[j] == start.data@[j]);
                } else {
                    assert(self.data@[start.pos + (j - start.pos)] == out@[j - start.pos]);
                }
            }
            assert(self.written() =~= combined);
            let tail = out@.skip(written as int) + old(self).window().skip(k as int);
            assert forall|j: int| 0 <= j < self.window().len() implies self.window()[j]
                == tail[j] by {
                if j < k - written {
                    assert(self.data@[start.pos + (written + j)] == out@[written + j]);
                } else {
                    assert(self.data@[self.pos + j] == start.data@[self.pos + j]);
                }
            }
            assert(self.window() =~= tail);
        }
        written
    }

    /// Zeroes `len` bytes at the start of the window, without advancing,
    /// so that they may be exposed without leaking stale data. Returns
    /// how many bytes were zeroed, which is less than `len` only when
    /// the window is shorter.
    pub fn zeroed(&mut self, len: usize) -> (n: usize)
        requires
            old(self).wf(),
        ensures
            final(self).wf(),
            n == if len <= old(self).window().len() {
                len as int
            } else {
                old(self).window().len() as int
            },
            final(self).written() == old(self).written(),
            final(self).storage().len() == old(self).storage().len(),
            final(self).window().len() == old(self).window().len(),
            forall|j: int| 0 <= j < n ==> final(self).window()[j] == 0u8,
            forall|j: int|
                n <= j < old(self).window().len() ==> final(self).window()[j] == old(
                    self,
                ).window()[j],
    {
        let window_len = self.data.len() - self.pos;
        let n = if len <= window_len {
            len
        } else {
            window_len
        };
        let ghost start = *self;
        let mut i: usize = 0;
        while i < n
            invariant
                i <= n,
                start.wf(),
                start.pos + n <= start.data@.len(),
                start.data@.len() <= usize::MAX,
                self.pos == start.pos,
                self.data@.len() == start.data@.len(),
                forall|j: int| 0 <= j < i ==> #[trigger] self.data@[start.pos + j] == 0u8,
                forall|j: int|
                    (0 <= j < start.pos || start.pos + i <= j < start.data@.len())
                        ==> #[trigger] self.data@[j] == start.data@[j],
            decreases n - i,
        {
            self.data[self.pos + i] = 0u8;
            i += 1;
        }
        proof {
            assert(self.written() =~= old(self).written());
            assert forall|j: int| 0 <= j < n implies self.window()[j] == 0u8 by {
                assert(self.data@[start.pos + j] == 0u8);
            }
            assert forall|j: int| n <= j < old(self).window().len() implies self.window()[j]
                == old(self).window()[j] by {
                assert(self.data@[start.pos + j] == start.data@[start.pos + j]);
            }
        }
        n
    }

    /// Zeroes the entire window and returns it as ordinary initialized
    /// bytes, consuming the guard's remainder.
    pub fn into_zeroed(self) -> (r: Vec<u8>)
        requires
            self.wf(),
        ensures
            r@.len() == self.window().len(),
            forall|j: int| 0 <= j < r@.len() ==> r@[j] == 0u8,
    {
        let mut this = self;
        let window_len = this.data.len() - this.pos;
        let n = this.zeroed(window_len);
        let r = this.data.split_off(this.pos);
        r
    }

    /// Gives up the guard, handing back its storage together with how
    /// many bytes of the front it made initialized. Buffer types use
    /// this to take a filled window back.
    pub fn into_parts(self) -> (r: (Vec<u8>, usize))
        requires
            self.wf(),
        ensures
            r.0@ == self.storage(),
            r.1 == self.written_len(),
            r.1 <= r.0@.len(),
    {
        let UninitSlice { data, pos } = self;
        (data, pos)
    }
}

/// How a guard's written prefix and stale window relate to its storage:
/// they are exactly the front and the back of the storage, split at the
/// written length.
pub proof fn lemma_guard_parts(g: UninitSlice)
    requires
        g.wf(),
    ensures
        0 <= g.written_len() <= g.storage().len(),
        g.written() == g.storage().take(g.written_len()),
        g.window() == g.storage().skip(g.written_len()),
        g.written().len() == g.written_len(),
        g.window().len() == g.storage().len() - g.written_len(),
{
}

impl crate::traits::BytesPtr for UninitSlice {
    open spec fn ptr_wf(&self) -> bool {
        self.wf()
    }

    open spec fn bytes(&self) -> Seq<u8> {
        self.window()
    }

    fn byte_len(&self) -> (n: usize) {
        self.len()
    }

    fn narrow(self, from: usize) -> (r: Self) {
        let mut this = self;
        this.advance(from);
        proof {
            lemma_guard_parts(this);
            lemma_guard_parts(self);
            assert(this.window() =~= self.window().skip(from as int));
        }
        this
    }
}

impl crate::traits::BytesPtrMut for UninitSlice {

}

impl crate::traits::WriteSafe for UninitSlice {

}

impl Default for UninitSlice {
    /// An empty guard.
    fn default() -> (r: Self)
        ensures
            r.wf(),
            r.storage() == Seq::<u8>::empty(),
            r.window() == Seq::<u8>::empty(),
            r.written_len() == 0,
    {
        Self::empty()
    }
}

} // verus!
