use linear_buf::codec::{FramedDecoder, Poll};
use linear_buf::linear::{LinearBuf, LinearBufReader};
use linear_buf::traits::{BufRead, BufWrite};

/// A length-prefixed decoder: one length byte, then that many payload
/// bytes.
struct LenPrefixDecoder;

impl FramedDecoder for LenPrefixDecoder {
    type Error = ();
    type Message = Vec<u8>;

    fn decode(
        &mut self,
        buf: &mut LinearBufReader,
        _msg_len: Option<usize>,
    ) -> Poll<Result<Vec<u8>, ()>> {
        let readable = buf.slice();
        if readable.is_empty() {
            return Poll::Pending;
        }
        let need = 1 + readable[0] as usize;
        if readable.len() < need {
            return Poll::Pending;
        }
        let message = readable[1..need].to_vec();
        buf.consume(need);
        Poll::Ready(Ok(message))
    }
}

/// A decoder given a readable region shorter than one full message
/// returns pending without consuming, and once the region holds a full
/// message it returns exactly one message consuming exactly its encoded
/// length.
#[test]
fn decoder_pending_until_full_message() {
    let mut decoder = LenPrefixDecoder;
    let mut buffer = LinearBuf::with_capacity(16);
    buffer.write_from(&[3, 10]);
    let mut reader = buffer.reader();
    assert!(decoder.decode(&mut reader, None).is_pending());
    assert_eq!(reader.slice(), &[3, 10]);
    let mut buffer = reader.into_buf();
    buffer.write_from(&[20]);
    let mut reader = buffer.reader();
    assert!(decoder.decode(&mut reader, None).is_pending());
    assert_eq!(reader.slice(), &[3, 10, 20]);
    let mut buffer = reader.into_buf();
    buffer.write_from(&[30, 99]);
    let mut reader = buffer.reader();
    match decoder.decode(&mut reader, Some(4)) {
        Poll::Ready(Ok(message)) => assert_eq!(message, vec![10, 20, 30]),
        _ => panic!("expected a decoded message"),
    }
    // Exactly the encoded length was consumed; the next byte remains.
    assert_eq!(reader.slice(), &[99]);
}

#[test]
fn decoder_empty_region_is_pending() {
    let mut decoder = LenPrefixDecoder;
    let buffer = LinearBuf::new();
    let mut reader = buffer.reader();
    assert!(decoder.decode(&mut reader, None).is_pending());
}

#[test]
fn poll_variants() {
    let ready: Poll<u8> = Poll::Ready(5);
    assert!(ready.is_ready());
    assert!(!ready.is_pending());
    let pending: Poll<u8> = Poll::Pending;
    assert!(pending.is_pending());
    assert!(!pending.is_ready());
}

#[test]
fn parse_consumes_reported_count() {
    let mut buffer = LinearBuf::with_capacity(8);
    buffer.write_from(&[2, 40, 50, 60]);
    let mut reader = buffer.reader();
    let parsed: Result<u16, ()> = reader.parse(|bytes: &[u8]| {
        let count = bytes[0] as usize;
        let mut sum: u16 = 0;
        for i in 0..count {
            sum += bytes[1 + i] as u16;
        }
        Ok((sum, 1 + count))
    });
    assert_eq!(parsed, Ok(90));
    assert_eq!(reader.slice(), &[60]);
}

#[test]
fn parse_error_leaves_buffer() {
    let mut buffer = LinearBuf::with_capacity(8);
    buffer.write_from(&[1, 2, 3]);
    let mut reader = buffer.reader();
    let parsed: Result<u8, &'static str> = reader.parse(|_bytes: &[u8]| Err("not yet"));
    assert_eq!(parsed, Err("not yet"));
    assert_eq!(reader.slice(), &[1, 2, 3]);
}

#[test]
fn parse_full_consumption_resets() {
    let mut buffer = LinearBuf::with_capacity(8);
    buffer.write_from(&[5, 6]);
    let mut reader = buffer.reader();
    let parsed: Result<u8, ()> = reader.parse(|bytes: &[u8]| Ok((bytes[0], bytes.len())));
    assert_eq!(parsed, Ok(5));
    let buffer = reader.into_buf();
    assert_eq!(buffer.capacity_in(), buffer.capacity());
}

#[test]
fn buf_traits_move_bytes() {
    // Fill a writer through the BufWrite trait.
    let buffer = LinearBuf::new();
    let mut writer = buffer.writer();
    let mut guard = BufWrite::get_write_bufs(&mut writer, 4);
    guard.write_from(&[4, 5, 6]);
    BufWrite::supply(&mut writer, guard);
    assert_eq!(BufWrite::write_bufs_hint(&writer), 1);
    let buffer = writer.into_buf();
    // Drain it through the BufRead trait.
    let mut reader = buffer.reader();
    assert_eq!(BufRead::read_bufs_hint(&reader), 1);
    {
        let repr = BufRead::get_read_bufs(&reader);
        assert_eq!(repr.as_slice(), &[4, 5, 6]);
    }
    BufRead::consume(&mut reader, 2);
    let repr = BufRead::get_read_bufs(&reader);
    assert_eq!(repr.as_slice(), &[6]);
}
