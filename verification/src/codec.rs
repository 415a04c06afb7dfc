//! Message codec contracts: the per-call state machines that decode
//! discrete messages out of a buffer's readable region and encode them
//! into a writer's writable region.

use vstd::prelude::*;
use crate::linear::{max_capacity, LinearBufReader};
use crate::traits::{BufRead, BufWrite};

verus! {

/// Suspension signal: an operation either completed with a value or
/// could not make progress yet.
///
/// Returning `Pending` never blocks a thread; it hands control back to
/// an external driver, which must retry with the same arguments once
/// progress is possible. The contracts below guarantee that a pending
/// outcome exposes no partial progress, so abandoning the attempt is
/// always safe.
#[derive(Clone, Copy, Debug, PartialEq, Eq)]
pub enum Poll<T> {
    /// The operation completed.
    Ready(T),
    /// The operation needs to be retried with unchanged arguments.
    Pending,
}

impl<T> Poll<T> {
    /// Returns `true` if this is the `Ready` variant.
    pub fn is_ready(&self) -> (r: bool)
        ensures
            r == (self is Ready),
    {
        match self {
            Poll::Ready(_) => true,
            Poll::Pending => false,
        }
    }

    /// Returns `true` if this is the `Pending` variant.
    pub fn is_pending(&self) -> (r: bool)
        ensures
            r == (self is Pending),
    {
        match self {
            Poll::Ready(_) => false,
            Poll::Pending => true,
        }
    }
}

/// Trait for message decoders that operate on framed streams.
///
/// One call decodes at most one message out of the buffer's readable
/// region. `msg_len`, when known, is the length of the first message in
/// the buffer; it may exceed the readable length, meaning the buffer
/// holds a partial message, and a value of the maximum representable
/// length means only that at least that much remains. A decoder that
/// cannot make progress without the length must report pending rather
/// than guess.
pub trait FramedDecoder {
    /// Opaque per-implementation error, propagated unchanged.
    type Error;

    /// The decoded message type.
    type Message;

    /// Decodes one message from the buffer, or reports pending when the
    /// readable region does not yet hold a full message.
    ///
    /// A ready message consumes no more than was readable, and
    /// consuming leaves the unread remainder intact; pending consumes
    /// nothing, so the caller can retry with the same buffer.
    fn decode(&mut self, buf: &mut LinearBufReader, msg_len: Option<usize>) -> (r: Poll<
        Result<Self::Message, Self::Error>,
    >)
        requires
            old(buf).wf(),
        ensures
            final(buf).wf(),
            final(buf).spec_buf().spec_capacity() == old(buf).spec_buf().spec_capacity(),
            r is Pending ==> final(buf).readable() == old(buf).readable(),
            r is Ready ==> exists|k: int|
                0 <= k <= old(buf).readable().len() && final(buf).readable() == old(
                    buf,
                ).readable().skip(k),
    ;
}

/// Trait for message decoders that operate on unframed streams.
///
/// Implementing this trait asserts that [`FramedDecoder::decode`] never
/// needs to be given the message length in order to parse a message.
pub trait UnframedDecoder: FramedDecoder {

}

/// Trait for message encoders that operate on framed streams.
///
/// Encoding may be buffered internally and not yet materialized into
/// the writer; flushing forces materialization, and finishing emits any
/// stream-closing trailer.
pub trait FramedEncoder {
    /// The type of messages this encoder can encode.
    type Message;

    /// Bytes encoded but still held internally, not yet written out.
    spec fn buffered(&self) -> Seq<u8>;

    /// The encoding this encoder gives to a message in its current
    /// state.
    spec fn encoding(&self, value: &Self::Message) -> Seq<u8>;

    /// The stream-closing trailer this encoder emits in its current
    /// state.
    spec fn trailer(&self) -> Seq<u8>;

    /// Encodes `value` toward the provided buffer. The encoding joins
    /// the stream — part written out, the rest held internally — with
    /// nothing lost and nothing invented.
    fn encode<W: BufWrite>(&mut self, value: &Self::Message, buf: &mut W)
        requires
            old(buf).buf_wf(),
            !old(buf).checked_out(),
            old(buf).written().len() + old(self).buffered().len() + old(self).encoding(value).len()
                <= max_capacity(),
        ensures
            final(buf).buf_wf(),
            final(buf).written() + final(self).buffered() == old(buf).written() + old(
                self,
            ).buffered() + old(self).encoding(value),
    ;

    /// Flushes any internal buffering into the provided buffer.
    fn flush<W: BufWrite>(&mut self, buf: &mut W)
        requires
            old(buf).buf_wf(),
            !old(buf).checked_out(),
            old(buf).written().len() + old(self).buffered().len() <= max_capacity(),
        ensures
            final(buf).buf_wf(),
            final(self).buffered().len() == 0,
            final(buf).written() == old(buf).written() + old(self).buffered(),
    ;

    /// Emits any data necessary for the end of a closing stream,
    /// flushing internal buffering first.
    fn finish<W: BufWrite>(&mut self, buf: &mut W)
        requires
            old(buf).buf_wf(),
            !old(buf).checked_out(),
            old(buf).written().len() + old(self).buffered().len() + old(self).trailer().len()
                <= max_capacity(),
        ensures
            final(buf).buf_wf(),
            final(self).buffered().len() == 0,
            final(buf).written() == old(buf).written() + old(self).buffered() + old(
                self,
            ).trailer(),
    ;
}

/// Trait for message encoders that operate on unframed streams.
///
/// Implementing this trait asserts that messages written by this
/// encoder can be decoded back from a plain stream of bytes.
pub trait UnframedEncoder: FramedEncoder {

}

/// Trait for byte stream decoders: transformers that move bytes from a
/// readable buffer into a writable one.
pub trait ByteDecoder {
    /// Opaque per-implementation error, propagated unchanged.
    type Error;

    /// Decodes bytes from `data` into `buf`. Input is only ever
    /// consumed from the front, and output only ever appended.
    fn decode<R: BufRead, W: BufWrite>(&mut self, data: &mut R, buf: &mut W) -> (r: Result<
        (),
        Self::Error,
    >)
        requires
            old(data).buf_wf(),
            old(buf).buf_wf(),
        ensures
            final(data).buf_wf(),
            final(buf).buf_wf(),
            exists|k: int|
                0 <= k <= old(data).readable().len() && final(data).readable() == old(
                    data,
                ).readable().skip(k),
            exists|w: Seq<u8>| final(buf).written() == old(buf).written() + w,
    ;
}

/// Trait for byte stream encoders: the writing counterpart of
/// [`ByteDecoder`], with the same buffering discipline as
/// [`FramedEncoder`].
pub trait ByteEncoder {
    /// Bytes encoded but still held internally, not yet written out.
    spec fn buffered(&self) -> Seq<u8>;

    /// Encodes bytes from `data` toward `buf`. Input is only ever
    /// consumed from the front, and output only ever appended.
    fn encode<R: BufRead, W: BufWrite>(&mut self, data: &mut R, buf: &mut W)
        requires
            old(data).buf_wf(),
            old(buf).buf_wf(),
        ensures
            final(data).buf_wf(),
            final(buf).buf_wf(),
            exists|k: int|
                0 <= k <= old(data).readable().len() && final(data).readable() == old(
                    data,
                ).readable().skip(k),
            exists|w: Seq<u8>| final(buf).written() == old(buf).written() + w,
    ;

    /// Flushes any internal buffering into the provided buffer.
    fn flush<W: BufWrite>(&mut self, buf: &mut W)
        requires
            old(buf).buf_wf(),
        ensures
            final(buf).buf_wf(),
            final(self).buffered().len() == 0,
            final(buf).written() == old(buf).written() + old(self).buffered(),
    ;

    /// Emits any data necessary for the end of a closing stream.
    fn finish<W: BufWrite>(&mut self, buf: &mut W)
        requires
            old(buf).buf_wf(),
        ensures
            final(buf).buf_wf(),
            final(self).buffered().len() == 0,
            exists|w: Seq<u8>| final(buf).written() == old(buf).written() + old(
                self,
            ).buffered() + w,
    ;
}

} // verus!
