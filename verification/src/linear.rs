//! The linear buffer engine: a growable byte buffer with an input and an
//! output cursor, reservation, compaction, and reader/writer projections.

use vstd::prelude::*;

verus! {

/// Largest capacity a single buffer may reach, matching the largest
/// single allocation the platform permits.
pub open spec fn max_capacity() -> int {
    isize::MAX as int
}

/// Linear resizeable byte buffer.
///
/// Unlike a ring buffer, this buffer does not wrap around at the end.
/// This can result in additional copies and wasted space, however it
/// guarantees that the data is always contiguous.
///
/// The storage is partitioned by two cursors with
/// `output_idx <= input_idx <= capacity`: bytes before `output_idx` are
/// consumed space reclaimable by compaction, bytes in
/// `[output_idx, input_idx)` are the readable region, and bytes from
/// `input_idx` to capacity are the writable region.
#[derive(Clone)]
pub struct LinearBuf {
    data: Vec<u8>,
    /// Right index: the start of the part of the buffer for input.
    input_idx: usize,
    /// Left index: the start of the part of the buffer for output.
    output_idx: usize,
}

impl LinearBuf {
    /// Well-formedness: the cursors stay in order and inside the
    /// allocation, the allocation stays within the platform limit, and
    /// an empty buffer keeps both cursors at the start.
    pub closed spec fn wf(&self) -> bool {
        &&& self.output_idx <= self.input_idx <= self.data@.len()
        &&& self.data@.len() <= max_capacity()
        &&& self.input_idx == self.output_idx ==> self.output_idx == 0
    }

    /// The readable region: the bytes available to read out.
    pub closed spec fn readable(&self) -> Seq<u8> {
        self.data@.subrange(self.output_idx as int, self.input_idx as int)
    }

    /// How many bytes of memory the buffer has allocated.
    pub closed spec fn spec_capacity(&self) -> int {
        self.data@.len() as int
    }

    /// How many bytes the writable region holds.
    pub closed spec fn spec_capacity_in(&self) -> int {
        self.data@.len() - self.input_idx
    }

    /// Position of the input cursor.
    pub closed spec fn spec_input_idx(&self) -> int {
        self.input_idx as int
    }

    /// Position of the output cursor.
    pub closed spec fn spec_output_idx(&self) -> int {
        self.output_idx as int
    }

    /// Creates an empty buffer with no allocation.
    pub fn new() -> (r: LinearBuf)
        ensures
            r.wf(),
            r.readable() == Seq::<u8>::empty(),
            r.spec_capacity() == 0,
            r.spec_capacity_in() == 0,
    {
        let r = LinearBuf { data: Vec::new(), input_idx: 0, output_idx: 0 };
        proof {
            assert(r.readable() =~= Seq::<u8>::empty());
        }
        r
    }

    /// Returns true if there is no output available.
    pub fn is_empty(&self) -> (r: bool)
        requires
            self.wf(),
        ensures
            r == (self.readable().len() == 0),
    {
        self.input_idx == self.output_idx
    }

    /// Returns how many bytes of memory are allocated by `self`.
    ///
    /// This value may be more than the sum of available input and output
    /// bytes.
    pub fn capacity(&self) -> (r: usize)
        ensures
            r == self.spec_capacity(),
    {
        self.data.len()
    }

    /// Returns how many bytes of space are available to read into.
    pub fn capacity_in(&self) -> (r: usize)
        requires
            self.wf(),
        ensures
            r == self.spec_capacity_in(),
    {
        self.data.len() - self.input_idx
    }

    /// Returns how many bytes are available to read out of.
    pub fn len(&self) -> (r: usize)
        requires
            self.wf(),
        ensures
            r == self.readable().len(),
    {
        self.input_idx - self.output_idx
    }

    /// Grows or shrinks the allocation to `len` bytes, capped at the
    /// platform's maximum single-allocation size. New bytes start
    /// zeroed; the cursors do not move, so `len` must not cut into the
    /// region before the input cursor.
    fn realloc(&mut self, len: usize)
        requires
            old(self).wf(),
            old(self).spec_input_idx() <= len,
        ensures
            final(self).wf(),
            final(self).spec_capacity() == if len <= max_capacity() { len as int } else {
                max_capacity()
            },
            final(self).spec_input_idx() == old(self).spec_input_idx(),
            final(self).spec_output_idx() == old(self).spec_output_idx(),
            final(self).readable() == old(self).readable(),
            final(self).spec_capacity() >= len || final(self).spec_capacity() == max_capacity(),
    {
        let capped: usize = if len > (isize::MAX as usize) {
            isize::MAX as usize
        } else {
            len
        };
        if capped < self.data.len() {
            self.data.truncate(capped);
        } else {
            let ghost prefix = self.data@;
            while self.data.len() < capped
                invariant
                    prefix.len() <= self.data@.len() <= capped,
                    self.data@.subrange(0, prefix.len() as int) == prefix,
                    self.input_idx == old(self).spec_input_idx(),
                    self.output_idx == old(self).spec_output_idx(),
                decreases capped - self.data@.len(),
            {
                self.data.push(0u8);
                proof {
                    assert(self.data@.subrange(0, prefix.len() as int) =~= prefix);
                }
            }
        }
        proof {
            assert(self.readable() =~= old(self).readable());
        }
    }

    /// Allocates a buffer with a starting capacity that is at least
    /// `capacity` bytes, capped at the platform's maximum
    /// single-allocation size.
    pub fn with_capacity(capacity: usize) -> (r: LinearBuf)
        ensures
            r.wf(),
            r.readable() == Seq::<u8>::empty(),
            r.spec_capacity() == if capacity <= max_capacity() { capacity as int } else {
                max_capacity()
            },
            r.spec_capacity_in() == r.spec_capacity(),
    {
        let mut this = Self::new();
        this.realloc(capacity);
        this
    }

    /// Move all readable bytes to the start in order to maximize input
    /// space, and return how much input space that leaves.
    fn shift_to_start(&mut self) -> (r: usize)
        requires
            old(self).wf(),
        ensures
            final(self).wf(),
            final(self).readable() == old(self).readable(),
            final(self).spec_capacity() == old(self).spec_capacity(),
            final(self).spec_output_idx() == 0,
            final(self).spec_input_idx() == old(self).readable().len(),
            r == final(self).spec_capacity_in(),
            final(self).spec_capacity_in() == final(self).spec_capacity() - old(self).readable().len(),
    {
        if self.output_idx == 0 {
            return self.data.len() - self.input_idx;
        }
        let len = self.input_idx - self.output_idx;
        let mut i: usize = 0;
        while i < len
            invariant
                i <= len,
                self.data@.len() == old(self).data@.len(),
                self.data@.len() <= max_capacity(),
                self.input_idx == old(self).spec_input_idx(),
                self.output_idx == old(self).spec_output_idx(),
                0 < self.output_idx <= self.input_idx <= self.data@.len(),
                len == self.input_idx - self.output_idx,
                forall|j: int|
                    0 <= j < i ==> #[trigger] self.data@[j] == old(self).data@[
                        old(self).spec_output_idx() + j
                    ],
                forall|j: int|
                    i <= j < len ==> #[trigger] self.data@[self.output_idx + j] == old(
                        self,
                    ).data@[old(self).spec_output_idx() + j],
            decreases len - i,
        {
            let b = self.data[self.output_idx + i];
            self.data[i] = b;
            i += 1;
        }
        self.input_idx = len;
        self.output_idx = 0;
        proof {
            assert(self.readable() =~= old(self).readable());
        }
        self.data.len() - self.input_idx
    }

    /// Ensures that at least `bytes` bytes are available for input to
    /// the buffer. Compaction is tried before the allocation is grown;
    /// growth never shrinks the allocation.
    pub fn reserve(&mut self, bytes: usize)
        requires
            old(self).wf(),
            old(self).readable().len() + bytes <= max_capacity(),
        ensures
            final(self).wf(),
            final(self).readable() == old(self).readable(),
            final(self).spec_capacity_in() >= bytes,
            final(self).spec_capacity() >= old(self).spec_capacity(),
            old(self).spec_capacity() - old(self).readable().len() >= bytes
                ==> final(self).spec_capacity() == old(self).spec_capacity(),
    {
        if self.capacity_in() < bytes {
            let freed = self.shift_to_start();
            if freed < bytes {
                let new_capacity = self.data.len() + self.input_idx + bytes;
                self.realloc(new_capacity);
            }
        }
    }

    /// Shrinks the allocation to the size of the contained data or
    /// `min`, whichever is greater, after compacting. The result is
    /// capped at the platform's maximum single-allocation size.
    pub fn shrink_to_fit(&mut self, min: usize)
        requires
            old(self).wf(),
        ensures
            final(self).wf(),
            final(self).readable() == old(self).readable(),
            final(self).spec_output_idx() == 0,
            final(self).spec_input_idx() == old(self).readable().len(),
            final(self).spec_capacity() == {
                let want = if min >= old(self).readable().len() { min as int } else {
                    old(self).readable().len() as int
                };
                if want <= max_capacity() { want } else {
                    max_capacity()
                }
            },
    {
        self.shift_to_start();
        // Following compaction the input cursor is equal to the
        // readable length.
        let new_size = if min > self.input_idx { min } else { self.input_idx };
        self.realloc(new_size);
    }

    /// Marks `count` bytes of the front of the readable region as having
    /// been read out of. Consuming the entire readable region resets both
    /// cursors to the start, making the full capacity writable again.
    ///
    /// Callers must not consume more than is readable; doing so would
    /// indicate a logic bug in the caller and is excluded by contract.
    pub fn consume(&mut self, count: usize)
        requires
            old(self).wf(),
            count <= old(self).readable().len(),
        ensures
            final(self).wf(),
            final(self).readable() == old(self).readable().skip(count as int),
            final(self).spec_capacity() == old(self).spec_capacity(),
            count == old(self).readable().len() ==> {
                &&& final(self).spec_output_idx() == 0
                &&& final(self).spec_input_idx() == 0
                &&& final(self).spec_capacity_in() == final(self).spec_capacity()
            },
            count < old(self).readable().len() ==> {
                &&& final(self).spec_output_idx() == old(self).spec_output_idx() + count
                &&& final(self).spec_input_idx() == old(self).spec_input_idx()
            },
    {
        self.output_idx = self.output_idx + count;
        if self.input_idx == self.output_idx {
            self.output_idx = 0;
            self.input_idx = 0;
        }
        proof {
            assert(self.readable() =~= old(self).readable().skip(count as int));
        }
    }

    /// Marks the entire readable region as having been read out of.
    pub fn consume_all(&mut self)
        requires
            old(self).wf(),
        ensures
            final(self).wf(),
            final(self).readable() == Seq::<u8>::empty(),
            final(self).spec_capacity() == old(self).spec_capacity(),
            final(self).spec_capacity_in() == final(self).spec_capacity(),
    {
        self.output_idx = 0;
        self.input_idx = 0;
        proof {
            assert(self.readable() =~= Seq::<u8>::empty());
        }
    }

    /// Marks `count` bytes of the front of the writable region as having
    /// been written, making them available at the end of the readable
    /// region. The bytes themselves are whatever the writable region
    /// held; only operations that state what they wrote make the new
    /// readable bytes predictable.
    pub fn supply(&mut self, count: usize)
        requires
            old(self).wf(),
            count <= old(self).spec_capacity_in(),
        ensures
            final(self).wf(),
            final(self).readable().len() == old(self).readable().len() + count,
            final(self).readable().subrange(0, old(self).readable().len() as int) == old(
                self,
            ).readable(),
            final(self).spec_capacity() == old(self).spec_capacity(),
            final(self).spec_capacity_in() == old(self).spec_capacity_in() - count,
            final(self).spec_output_idx() == old(self).spec_output_idx(),
    {
        self.input_idx = self.input_idx + count;
        proof {
            assert(final(self).readable().subrange(0, old(self).readable().len() as int)
                =~= old(self).readable());
        }
    }

    /// Appends the bytes of `src` to the readable region, growing the
    /// allocation as needed.
    pub fn write_from(&mut self, src: &[u8]) -> (n: usize)
        requires
            old(self).wf(),
            old(self).readable().len() + src@.len() <= max_capacity(),
        ensures
            final(self).wf(),
            n == src@.len(),
            final(self).readable() == old(self).readable() + src@,
            final(self).spec_capacity() >= old(self).spec_capacity(),
    {
        let n = src.len();
        self.reserve(n);
        let ghost mid = *self;
        let mut i: usize = 0;
        while i < n
            invariant
                i <= n,
                n == src@.len(),
                mid.wf(),
                self.data@.len() == mid.data@.len(),
                self.data@.len() <= max_capacity(),
                self.input_idx == mid.spec_input_idx(),
                self.output_idx == mid.spec_output_idx(),
                self.input_idx + n <= self.data@.len(),
                self.data@.subrange(self.output_idx as int, self.input_idx as int)
                    == mid.readable(),
                forall|j: int|
                    0 <= j < i ==> #[trigger] self.data@[self.input_idx + j] == src@[j],
            decreases n - i,
        {
            let b = src[i];
            self.data[self.input_idx + i] = b;
            i += 1;
            proof {
                assert(self.data@.subrange(self.output_idx as int, self.input_idx as int)
                    =~= mid.readable());
            }
        }
        self.input_idx = self.input_idx + n;
        proof {
            let merged = mid.readable() + src@;
            assert forall|k: int| 0 <= k < merged.len() implies self.readable()[k] == merged[k] by {
                if k < mid.readable().len() {
                    assert(self.data@.subrange(
                        mid.spec_output_idx(),
                        mid.spec_input_idx(),
                    )[k] == mid.readable()[k]);
                } else {
                    assert(self.data@[mid.spec_input_idx() + (k - mid.readable().len())]
                        == src@[k - mid.readable().len()]);
                }
            }
            assert(self.readable() =~= merged);
        }
        n
    }

    /// Converts the buffer into its read-only projection, giving access
    /// to the operations that take data out of the readable region.
    pub fn reader(self) -> (r: LinearBufReader)
        ensures
            r.spec_buf() == self,
    {
        LinearBufReader { buf: self }
    }

    /// Converts the buffer into its write-only projection, giving access
    /// to the operations that put data into the writable region.
    pub fn writer(self) -> (r: LinearBufWriter)
        ensures
            r.spec_buf() == self,
    {
        LinearBufWriter { buf: self }
    }
}

impl Default for LinearBuf {
    /// An empty buffer with no allocation.
    fn default() -> (r: Self)
        ensures
            r.wf(),
            r.readable() == Seq::<u8>::empty(),
            r.spec_capacity() == 0,
    {
        Self::new()
    }
}

/// Relies on std::io::Read::read: its documentation requires that a
/// successful call return how many bytes of the front of the
/// destination were filled, never more than its length. Nothing is
/// assumed about the bytes an arbitrary source wrote, nor that it left
/// the rest untouched.
#[verifier::external_body]
fn source_read<T: std::io::Read>(source: &mut T, dest: &mut Vec<u8>) -> (r: Result<
    usize,
    std::io::Error,
>)
    ensures
        final(dest)@.len() == old(dest)@.len(),
        r is Ok ==> r->Ok_0 <= old(dest)@.len(),
{
    source.read(dest.as_mut_slice())
}

/// Output interface to [`LinearBuf`].
///
/// A buffer becomes this type with [`LinearBuf::reader`] and is
/// recovered with [`LinearBufReader::into_buf`]; exclusive ownership
/// makes it impossible to hold a read view and a write view over the
/// same buffer at once.
pub struct LinearBufReader {
    buf: LinearBuf,
}

impl LinearBufReader {
    /// The wrapped buffer.
    pub closed spec fn spec_buf(&self) -> LinearBuf {
        self.buf
    }

    /// Well-formedness of the wrapped buffer.
    pub open spec fn wf(&self) -> bool {
        self.spec_buf().wf()
    }

    /// The readable region of the wrapped buffer.
    pub open spec fn readable(&self) -> Seq<u8> {
        self.spec_buf().readable()
    }

    /// Gives the buffer back, ending the projection.
    pub fn into_buf(self) -> (r: LinearBuf)
        ensures
            r == self.spec_buf(),
    {
        self.buf
    }

    /// Returns a shared reference to a slice for reading out of.
    ///
    /// If a read operation conceptually consumes bytes (e.g. due to
    /// message parsing), [`LinearBufReader::consume`] should be called
    /// afterward.
    pub fn slice(&self) -> (r: &[u8])
        requires
            self.wf(),
        ensures
            r@ == self.readable(),
    {
        vstd::slice::slice_subrange(
            self.buf.data.as_slice(),
            self.buf.output_idx,
            self.buf.input_idx,
        )
    }

    /// Returns how many bytes are available to read out of.
    pub fn len(&self) -> (r: usize)
        requires
            self.wf(),
        ensures
            r == self.readable().len(),
    {
        self.buf.len()
    }

    /// Returns true if there is no output available.
    pub fn is_empty(&self) -> (r: bool)
        requires
            self.wf(),
        ensures
            r == (self.readable().len() == 0),
    {
        self.buf.is_empty()
    }

    /// Marks `count` bytes of the front of the readable region as having
    /// been read out of. Consuming everything resets both cursors, so
    /// the full capacity becomes writable again.
    pub fn consume(&mut self, count: usize)
        requires
            old(self).wf(),
            count <= old(self).readable().len(),
        ensures
            final(self).wf(),
            final(self).readable() == old(self).readable().skip(count as int),
            final(self).spec_buf().spec_capacity() == old(self).spec_buf().spec_capacity(),
            count == old(self).readable().len() ==> final(self).spec_buf().spec_capacity_in()
                == final(self).spec_buf().spec_capacity(),
    {
        self.buf.consume(count)
    }

    /// Marks the entire readable region as having been read out of.
    pub fn consume_all(&mut self)
        requires
            old(self).wf(),
        ensures
            final(self).wf(),
            final(self).readable() == Seq::<u8>::empty(),
            final(self).spec_buf().spec_capacity() == old(self).spec_buf().spec_capacity(),
            final(self).spec_buf().spec_capacity_in() == final(self).spec_buf().spec_capacity(),
    {
        self.buf.consume_all()
    }

    /// Parses a value out of the readable region.
    ///
    /// Accepts a fallible closure that inspects the full readable slice
    /// and returns both the parsed value and how many bytes were
    /// consumed during parsing; the buffer then advances past exactly
    /// that many. A closure that would report more bytes consumed than
    /// were readable is a logic bug and is excluded by contract.
    pub fn parse<O, E, F: FnOnce(&[u8]) -> Result<(O, usize), E>>(&mut self, f: F) -> (r: Result<
        O,
        E,
    >)
        requires
            old(self).wf(),
            forall|s: &[u8]| s@ == old(self).readable() ==> #[trigger] call_requires(f, (s,)),
            forall|s: &[u8], ret: Result<(O, usize), E>|
                #[trigger] call_ensures(f, (s,), ret) ==> match ret {
                    Ok(p) => p.1 <= s@.len(),
                    Err(_) => true,
                },
        ensures
            final(self).wf(),
            final(self).spec_buf().spec_capacity() == old(self).spec_buf().spec_capacity(),
            r is Ok ==> exists|s: &[u8], k: usize|
                {
                    &&& s@ == old(self).readable()
                    &&& #[trigger] call_ensures(f, (s,), Ok::<(O, usize), E>((r->Ok_0, k)))
                    &&& k <= old(self).readable().len()
                    &&& final(self).readable() == old(self).readable().skip(k as int)
                    &&& (k == old(self).readable().len() ==> final(self).spec_buf().spec_capacity_in() == final(self).spec_buf().spec_capacity())
                },
            r is Err ==> *final(self) == *old(self) && exists|s: &[u8]|
                s@ == old(self).readable() && #[trigger] call_ensures(
                    f,
                    (s,),
                    Err::<(O, usize), E>(r->Err_0),
                ),
    {
        let s = vstd::slice::slice_subrange(
            self.buf.data.as_slice(),
            self.buf.output_idx,
            self.buf.input_idx,
        );
        let res = f(s);
        match res {
            Ok(p) => {
                let (retval, consumed) = p;
                let ghost rres: Result<O, E> = Ok(retval);
                proof {
                    assert(call_ensures(f, (s,), Ok::<(O, usize), E>((rres->Ok_0, consumed))));
                }
                self.buf.consume(consumed);
                Ok(retval)
            },
            Err(e) => {
                let ghost rres: Result<O, E> = Err(e);
                proof {
                    assert(call_ensures(f, (s,), Err::<(O, usize), E>(rres->Err_0)));
                }
                Err(e)
            },
        }
    }

    /// Writes the readable region to a provided byte sink, consuming
    /// exactly as many bytes as the sink accepted.
    pub fn write_to<T: std::io::Write>(&mut self, write: &mut T) -> (r: Result<
        usize,
        std::io::Error,
    >)
        requires
            old(self).wf(),
        ensures
            final(self).wf(),
            final(self).spec_buf().spec_capacity() == old(self).spec_buf().spec_capacity(),
            r is Ok ==> {
                &&& r->Ok_0 <= old(self).readable().len()
                &&& final(self).readable() == old(self).readable().skip(r->Ok_0 as int)
            },
            r is Err ==> *final(self) == *old(self),
    {
        let s = vstd::slice::slice_subrange(
            self.buf.data.as_slice(),
            self.buf.output_idx,
            self.buf.input_idx,
        );
        match sink_write(write, s) {
            Ok(count) => {
                self.buf.consume(count);
                Ok(count)
            },
            Err(e) => Err(e),
        }
    }
}

/// Declares the standard I/O error type so that sink results can flow
/// through contracts; the type itself stays opaque.
#[verifier::external_type_specification]
#[verifier::external_body]
pub struct ExIoError(std::io::Error);

/// Relies on std::io::Write::write: its documentation requires that a
/// successful call return how many bytes of the front of `data` the
/// sink accepted, never more than `data.len()`. Nothing more is assumed
/// of an arbitrary sink.
#[verifier::external_body]
fn sink_write<T: std::io::Write>(sink: &mut T, data: &[u8]) -> (r: Result<usize, std::io::Error>)
    ensures
        r is Ok ==> r->Ok_0 <= data@.len(),
{
    sink.write(data)
}

/// Input interface to [`LinearBuf`].
///
/// A buffer becomes this type with [`LinearBuf::writer`] and is
/// recovered with [`LinearBufWriter::into_buf`]; exclusive ownership
/// makes it impossible to hold a read view and a write view over the
/// same buffer at once.
pub struct LinearBufWriter {
    buf: LinearBuf,
}

impl LinearBufWriter {
    /// The wrapped buffer.
    pub closed spec fn spec_buf(&self) -> LinearBuf {
        self.buf
    }

    /// Well-formedness of the wrapped buffer.
    pub open spec fn wf(&self) -> bool {
        self.spec_buf().wf()
    }

    /// The readable region of the wrapped buffer: what has been written
    /// and not yet consumed.
    pub open spec fn readable(&self) -> Seq<u8> {
        self.spec_buf().readable()
    }

    /// Gives the buffer back, ending the projection.
    pub fn into_buf(self) -> (r: LinearBuf)
        ensures
            r == self.spec_buf(),
    {
        self.buf
    }

    /// Ensures that at least `bytes` bytes are available for input to
    /// the buffer.
    pub fn reserve(&mut self, bytes: usize)
        requires
            old(self).wf(),
            old(self).readable().len() + bytes <= max_capacity(),
        ensures
            final(self).wf(),
            final(self).readable() == old(self).readable(),
            final(self).spec_buf().spec_capacity_in() >= bytes,
            final(self).spec_buf().spec_capacity() >= old(self).spec_buf().spec_capacity(),
            old(self).spec_buf().spec_capacity() - old(self).readable().len() >= bytes
                ==> final(self).spec_buf().spec_capacity() == old(self).spec_buf().spec_capacity(),
    {
        self.buf.reserve(bytes)
    }

    /// Appends the bytes of `src` to the readable region, growing the
    /// allocation as needed.
    pub fn write_from(&mut self, src: &[u8]) -> (n: usize)
        requires
            old(self).wf(),
            old(self).readable().len() + src@.len() <= max_capacity(),
        ensures
            final(self).wf(),
            n == src@.len(),
            final(self).readable() == old(self).readable() + src@,
    {
        self.buf.write_from(src)
    }

    /// Checks the writable region out of the buffer as a write guard
    /// whose window holds at least `min` bytes, reserving capacity
    /// first. While the guard is out, the buffer keeps only its
    /// consumed and readable bytes; [`LinearBufWriter::supply`] takes
    /// the filled guard back.
    pub fn slice_mut(&mut self, min: usize) -> (r: crate::uninit::UninitSlice)
        requires
            old(self).wf(),
            old(self).readable().len() + min <= max_capacity(),
        ensures
            final(self).wf(),
            final(self).readable() == old(self).readable(),
            r.wf(),
            r.written_len() == 0,
            r.storage().len() >= min,
            final(self).spec_buf().spec_capacity_in() == 0,
            final(self).spec_buf().spec_input_idx() + r.storage().len() <= max_capacity(),
    {
        self.buf.reserve(min);
        let tail = self.buf.data.split_off(self.buf.input_idx);
        crate::uninit::UninitSlice::uninit(tail)
    }

    /// Takes a filled write guard back, appending its storage to the
    /// buffer and marking the guard's initialized prefix as written,
    /// making it available at the end of the readable region. The
    /// guard certifies that those bytes were really written or
    /// zero-filled, which is what makes this safe.
    pub fn supply(&mut self, filled: crate::uninit::UninitSlice)
        requires
            old(self).wf(),
            filled.wf(),
            old(self).spec_buf().spec_capacity_in() == 0,
            old(self).spec_buf().spec_input_idx() + filled.storage().len() <= max_capacity(),
        ensures
            final(self).wf(),
            final(self).readable() == old(self).readable() + filled.written(),
            final(self).spec_buf().spec_capacity() == old(self).spec_buf().spec_capacity()
                + filled.storage().len(),
            final(self).spec_buf().spec_capacity_in() == filled.storage().len()
                - filled.written_len(),
    {
        let (mut v, written) = filled.into_parts();
        self.buf.data.append(&mut v);
        self.buf.input_idx = self.buf.input_idx + written;
        proof {
            crate::uninit::lemma_guard_parts(filled);
            let combined = old(self).readable() + filled.written();
            assert forall|k: int| 0 <= k < combined.len() implies self.buf.readable()[k]
                == combined[k] by {
                if k < old(self).readable().len() {
                    assert(self.buf.data@[old(self).spec_buf().spec_output_idx() + k]
                        == old(self).spec_buf().data@[old(self).spec_buf().spec_output_idx()
                        + k]);
                } else {
                    assert(self.buf.data@[old(self).spec_buf().spec_input_idx() + (k - old(
                        self,
                    ).readable().len())] == filled.storage()[k - old(self).readable().len()]);
                }
            }
            assert(self.buf.readable() =~= combined);
        }
    }

    /// Reads data once from a provided byte source into the writable
    /// region, after growing it to at least `min` bytes. The region is
    /// zero-filled before the source sees it, so a source that lies
    /// about how much it wrote can expose zeros, never stale bytes.
    pub fn read_from<T: std::io::Read>(&mut self, min: usize, read: &mut T) -> (r: Result<
        usize,
        std::io::Error,
    >)
        requires
            old(self).wf(),
            old(self).readable().len() + min <= max_capacity(),
        ensures
            final(self).wf(),
            r is Ok ==> {
                &&& final(self).readable().len() == old(self).readable().len() + r->Ok_0
                &&& final(self).readable().subrange(0, old(self).readable().len() as int)
                    == old(self).readable()
            },
            r is Err ==> final(self).readable() == old(self).readable(),
    {
        let guard = self.slice_mut(min);
        let ghost checked = guard;
        proof {
            crate::uninit::lemma_guard_parts(checked);
        }
        let mut window = guard.into_zeroed();
        match source_read(read, &mut window) {
            Ok(count) => {
                let mut refilled = crate::uninit::UninitSlice::new(window);
                refilled.advance(count);
                self.supply(refilled);
                proof {
                    crate::uninit::lemma_guard_parts(refilled);
                }
                Ok(count)
            },
            Err(e) => {
                self.supply(crate::uninit::UninitSlice::new(window));
                Err(e)
            },
        }
    }
}

impl crate::traits::BufRead for LinearBufReader {
    open spec fn buf_wf(&self) -> bool {
        self.wf()
    }

    open spec fn readable(&self) -> Seq<u8> {
        self.spec_buf().readable()
    }

    fn get_read_bufs<'a>(&'a self) -> (r: crate::iorepr::IoRepr<&'a [u8]>) {
        crate::iorepr::IoRepr::new_read(self.slice())
    }

    fn consume(&mut self, len: usize) {
        LinearBufReader::consume(self, len)
    }
}

impl crate::traits::BufWrite for LinearBufWriter {
    open spec fn buf_wf(&self) -> bool {
        self.wf()
    }

    open spec fn written(&self) -> Seq<u8> {
        self.spec_buf().readable()
    }

    open spec fn checked_out(&self) -> bool {
        self.spec_buf().spec_capacity_in() == 0
    }

    open spec fn accepts(&self, storage_len: int) -> bool {
        self.spec_buf().spec_input_idx() + storage_len <= max_capacity()
    }

    fn get_write_bufs(&mut self, req_len: usize) -> (r: crate::uninit::UninitSlice) {
        self.slice_mut(req_len)
    }

    fn supply(&mut self, filled: crate::uninit::UninitSlice) {
        LinearBufWriter::supply(self, filled)
    }
}

/// The readable region after writing a sequence of chunks in order:
/// each write appends its chunk, exactly as
/// [`LinearBuf::write_from`] guarantees.
pub open spec fn write_all(v: Seq<u8>, chunks: Seq<Seq<u8>>) -> Seq<u8>
    decreases chunks.len(),
{
    if chunks.len() == 0 {
        v
    } else {
        write_all(v + chunks.first(), chunks.drop_first())
    }
}

/// The total of a sequence of read sizes.
pub open spec fn cuts_total(cuts: Seq<int>) -> int
    decreases cuts.len(),
{
    if cuts.len() == 0 {
        0
    } else {
        cuts.first() + cuts_total(cuts.drop_first())
    }
}

/// Whether a sequence of read sizes never reads more than remains of a
/// region of `len` bytes.
pub open spec fn cuts_valid(len: int, cuts: Seq<int>) -> bool
    decreases cuts.len(),
{
    if cuts.len() == 0 {
        true
    } else {
        0 <= cuts.first() <= len && cuts_valid(len - cuts.first(), cuts.drop_first())
    }
}

/// The bytes obtained by reading a region piecewise with the given
/// sizes, each read taking the front and consuming it, exactly as
/// [`LinearBufReader::slice`] and [`LinearBufReader::consume`]
/// guarantee.
pub open spec fn read_all(v: Seq<u8>, cuts: Seq<int>) -> Seq<u8>
    decreases cuts.len(),
{
    if cuts.len() == 0 {
        Seq::empty()
    } else {
        v.take(cuts.first()) + read_all(v.skip(cuts.first()), cuts.drop_first())
    }
}

/// Writing chunks in order accumulates exactly their concatenation:
/// how the writes were chunked leaves no trace in the readable region.
pub proof fn lemma_write_all_flattens(v: Seq<u8>, chunks: Seq<Seq<u8>>)
    ensures
        write_all(v, chunks) == v + chunks.flatten(),
    decreases chunks.len(),
{
    if chunks.len() == 0 {
        assert(write_all(v, chunks) =~= v + chunks.flatten());
    } else {
        lemma_write_all_flattens(v + chunks.first(), chunks.drop_first());
        assert((v + chunks.first()) + chunks.drop_first().flatten() =~= v + (chunks.first()
            + chunks.drop_first().flatten()));
    }
}

/// Reading a region piecewise returns its prefix of the total size
/// read: how the reads were chunked leaves no trace in the bytes
/// obtained.
pub proof fn lemma_read_all_reassembles(v: Seq<u8>, cuts: Seq<int>)
    requires
        cuts_valid(v.len() as int, cuts),
    ensures
        0 <= cuts_total(cuts) <= v.len(),
        read_all(v, cuts) == v.take(cuts_total(cuts)),
    decreases cuts.len(),
{
    if cuts.len() == 0 {
        assert(read_all(v, cuts) =~= v.take(0));
    } else {
        let c = cuts.first();
        lemma_read_all_reassembles(v.skip(c), cuts.drop_first());
        assert(v.take(c) + v.skip(c).take(cuts_total(cuts.drop_first())) =~= v.take(
            cuts_total(cuts),
        ));
    }
}

/// Round trip: for any sequence of writes followed by reads of the same
/// total length, the bytes read equal the bytes written, in order,
/// regardless of how either side was chunked.
pub proof fn lemma_round_trip(chunks: Seq<Seq<u8>>, cuts: Seq<int>)
    requires
        cuts_valid(chunks.flatten().len() as int, cuts),
        cuts_total(cuts) == chunks.flatten().len(),
    ensures
        read_all(write_all(Seq::empty(), chunks), cuts) == chunks.flatten(),
{
    lemma_write_all_flattens(Seq::empty(), chunks);
    assert(write_all(Seq::empty(), chunks) =~= chunks.flatten());
    lemma_read_all_reassembles(chunks.flatten(), cuts);
    assert(chunks.flatten().take(chunks.flatten().len() as int) =~= chunks.flatten());
}

} // verus!
