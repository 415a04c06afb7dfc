use linear_buf::linear::LinearBuf;
use linear_buf::uninit::UninitSlice;

#[test]
fn write_from_takes_prefix() {
    let mut guard = UninitSlice::uninit(vec![0xAA; 4]);
    assert_eq!(guard.len(), 4);
    let n = guard.write_from(&[1, 2, 3, 4, 5, 6]);
    assert_eq!(n, 4);
    assert_eq!(guard.len(), 0);
    assert!(guard.is_empty());
}

#[test]
fn write_from_short_source() {
    let mut guard = UninitSlice::uninit(vec![0xAA; 8]);
    let n = guard.write_from(&[5, 6]);
    assert_eq!(n, 2);
    assert_eq!(guard.len(), 6);
}

#[test]
fn advance_returns_excess() {
    let mut guard = UninitSlice::uninit(vec![0; 5]);
    assert_eq!(guard.advance(3), 0);
    assert_eq!(guard.len(), 2);
    assert_eq!(guard.advance(7), 5);
    assert_eq!(guard.len(), 0);
}

#[test]
fn into_zeroed_erases_window() {
    let mut guard = UninitSlice::new(vec![9, 9, 9, 9]);
    guard.advance(1);
    let zeroed = guard.into_zeroed();
    assert_eq!(zeroed, vec![0, 0, 0]);
}

#[test]
fn zeroed_clears_prefix_only() {
    let mut guard = UninitSlice::uninit(vec![7; 6]);
    let n = guard.zeroed(4);
    assert_eq!(n, 4);
    // The zeroed prefix was not advanced past; writing now lands on it.
    let written = guard.write_from(&[1, 2]);
    assert_eq!(written, 2);
    assert_eq!(guard.len(), 4);
}

#[test]
fn empty_guard() {
    let guard = UninitSlice::empty();
    assert!(guard.is_empty());
    let other = UninitSlice::default();
    assert_eq!(other.len(), 0);
}

/// The closure of `write_with` sees only zero-filled storage, never the
/// stale bytes underneath, and only the prefix it reports written
/// becomes readable through the buffer.
#[test]
fn write_with_zero_fills_before_exposing() {
    let mut buffer = LinearBuf::with_capacity(8);
    // Dirty the storage, then consume it so it becomes stale writable
    // space again.
    buffer.write_from(&[0xEE; 8]);
    buffer.consume(8);
    let mut writer = buffer.writer();
    let mut guard = writer.slice_mut(8);
    let written = guard.write_with(6, |mut given: Vec<u8>| {
        // Pre-zeroed: no stale 0xEE byte is ever exposed.
        assert_eq!(given, vec![0u8; 6]);
        given[0] = 11;
        given[1] = 22;
        (given, 2)
    });
    assert_eq!(written, 2);
    writer.supply(guard);
    buffer = writer.into_buf();
    // Only the reported prefix became readable.
    let mut reader = buffer.reader();
    assert_eq!(reader.slice(), &[11, 22]);
    reader.consume(2);
}

/// A closure that reports fewer bytes than the zeroed region leaves the
/// tail zero, never stale memory: writing again exposes zeros, not the
/// dirtied bytes.
#[test]
fn write_with_unwritten_tail_reads_zero() {
    let mut guard = UninitSlice::uninit(vec![0xEE; 8]);
    let written = guard.write_with(5, |given: Vec<u8>| (given, 1));
    assert_eq!(written, 1);
    // Advance past the rest of the zeroed region; those bytes were
    // zero-filled, so supplying them to a buffer exposes zeros.
    guard.advance(4);
    let buffer = LinearBuf::new();
    let mut writer = buffer.writer();
    writer.supply(guard);
    let buffer = writer.into_buf();
    let mut reader = buffer.reader();
    assert_eq!(reader.slice(), &[0, 0, 0, 0, 0]);
    reader.consume(5);
}

#[test]
fn guard_roundtrip_through_writer() {
    let mut buffer = LinearBuf::new();
    let mut writer = buffer.writer();
    let mut guard = writer.slice_mut(4);
    let n = guard.write_from(&[1, 2, 3]);
    assert_eq!(n, 3);
    writer.supply(guard);
    buffer = writer.into_buf();
    assert_eq!(buffer.len(), 3);
    let mut reader = buffer.reader();
    assert_eq!(reader.slice(), &[1, 2, 3]);
    reader.consume(3);
}
