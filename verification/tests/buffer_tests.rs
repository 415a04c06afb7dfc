use linear_buf::linear::LinearBuf;

/// Pumps `byte_count` patterned bytes through a buffer, writing up to
/// `in_rate` bytes per turn through the write guard and reading up to
/// `out_rate` bytes per turn from the readable region, then checks the
/// output reproduces the source exactly.
fn io_test(in_rate: usize, out_rate: usize) {
    let byte_count = 5000usize;
    let bytes: Vec<u8> =
        core::iter::successors(Some(1u8), |byte| Some(byte.overflowing_add(3u8).0))
            .take(byte_count)
            .collect();
    let mut buffer = LinearBuf::with_capacity(1024);
    let mut read_pos = 0usize;
    let mut output: Vec<u8> = Vec::new();
    let mut should_loop = true;
    while should_loop {
        should_loop = false;
        // Input.
        let mut writer = buffer.writer();
        let mut guard = writer.slice_mut(in_rate);
        let mut len = guard.len();
        if len > in_rate {
            len = in_rate;
        }
        if len > byte_count - read_pos {
            len = byte_count - read_pos;
        }
        let written = guard.write_from(&bytes[read_pos..read_pos + len]);
        read_pos += written;
        writer.supply(guard);
        buffer = writer.into_buf();
        should_loop |= written != 0;
        // Output.
        let mut reader = buffer.reader();
        let slice = reader.slice();
        let mut len = slice.len();
        if len > out_rate {
            len = out_rate;
        }
        output.extend_from_slice(&slice[..len]);
        reader.consume(len);
        buffer = reader.into_buf();
        should_loop |= len != 0;
    }
    assert_eq!(bytes, output);
}

#[test]
fn zero_capacity() {
    let mut buffer = LinearBuf::with_capacity(0);
    assert_eq!(buffer.capacity_in(), 0);
    let mut writer = buffer.writer();
    let guard = writer.slice_mut(64);
    writer.supply(guard);
    buffer = writer.into_buf();
    assert!(buffer.capacity_in() >= 64);
}

#[test]
fn equal_rates() {
    io_test(300, 300);
}

#[test]
fn slow_input() {
    io_test(300, 500);
}

#[test]
fn slow_output() {
    io_test(500, 300);
}

#[test]
fn very_slow_output() {
    io_test(500, 30);
}

#[test]
fn full_ops() {
    io_test(5000, 5000);
}

#[test]
fn single_resizing_input() {
    io_test(6000, 1000);
}

#[test]
fn reserve_grows_writable() {
    let mut buffer = LinearBuf::with_capacity(8);
    buffer.write_from(&[1, 2, 3, 4, 5]);
    buffer.reserve(100);
    assert!(buffer.capacity_in() >= 100);
    assert!(buffer.capacity() >= 8);
    let mut reader = buffer.reader();
    assert_eq!(reader.slice(), &[1, 2, 3, 4, 5]);
    reader.consume(5);
}

#[test]
fn reserve_prefers_compaction() {
    let mut buffer = LinearBuf::with_capacity(10);
    buffer.write_from(&[9; 8]);
    let mut reader = buffer.reader();
    reader.consume(6);
    buffer = reader.into_buf();
    let capacity_before = buffer.capacity();
    // Two readable bytes remain; compaction alone frees eight slots.
    buffer.reserve(8);
    assert_eq!(buffer.capacity(), capacity_before);
    assert!(buffer.capacity_in() >= 8);
    assert_eq!(buffer.len(), 2);
}

#[test]
fn consume_full_resets_cursors() {
    let mut buffer = LinearBuf::with_capacity(16);
    buffer.write_from(&[7, 8, 9]);
    assert_eq!(buffer.len(), 3);
    buffer.consume(3);
    assert!(buffer.is_empty());
    // Both cursors are back at the start: the full capacity is
    // immediately writable again.
    assert_eq!(buffer.capacity_in(), buffer.capacity());
}

#[test]
fn consume_partial_keeps_cursor() {
    let mut buffer = LinearBuf::with_capacity(16);
    buffer.write_from(&[1, 2, 3, 4]);
    buffer.consume(1);
    assert_eq!(buffer.len(), 3);
    let mut reader = buffer.reader();
    assert_eq!(reader.slice(), &[2, 3, 4]);
    reader.consume_all();
    buffer = reader.into_buf();
    assert_eq!(buffer.capacity_in(), buffer.capacity());
}

#[test]
fn shrink_to_fit_keeps_data() {
    let mut buffer = LinearBuf::with_capacity(100);
    buffer.write_from(&[1, 2, 3]);
    buffer.shrink_to_fit(0);
    assert_eq!(buffer.capacity(), 3);
    let mut reader = buffer.reader();
    assert_eq!(reader.slice(), &[1, 2, 3]);
    reader.consume(3);
}

#[test]
fn shrink_to_fit_respects_min() {
    let mut buffer = LinearBuf::with_capacity(100);
    buffer.write_from(&[1, 2]);
    buffer.shrink_to_fit(50);
    assert_eq!(buffer.capacity(), 50);
}

#[test]
fn new_buffer_is_unallocated() {
    let buffer = LinearBuf::new();
    assert_eq!(buffer.capacity(), 0);
    assert_eq!(buffer.capacity_in(), 0);
    assert_eq!(buffer.len(), 0);
    assert!(buffer.is_empty());
    let other = LinearBuf::default();
    assert_eq!(other.capacity(), 0);
}

#[test]
fn write_to_drains_into_sink() {
    let mut buffer = LinearBuf::with_capacity(16);
    buffer.write_from(&[10, 20, 30]);
    let mut reader = buffer.reader();
    let mut sink: Vec<u8> = Vec::new();
    let n = reader.write_to(&mut sink).unwrap();
    assert_eq!(n, 3);
    assert_eq!(sink, vec![10, 20, 30]);
    assert!(reader.is_empty());
}

#[test]
fn alloc_failure_message() {
    let failure = linear_buf::AllocFailure;
    assert_eq!(failure.message(), "memory allocation failure");
    assert_eq!(failure, linear_buf::AllocFailure::default());
}

#[test]
fn read_from_fills_buffer() {
    let buffer = LinearBuf::new();
    let mut writer = buffer.writer();
    let mut source = std::io::Cursor::new(vec![1u8, 2, 3, 4]);
    let n = writer.read_from(16, &mut source).unwrap();
    assert_eq!(n, 4);
    let buffer = writer.into_buf();
    let mut reader = buffer.reader();
    assert_eq!(reader.slice(), &[1, 2, 3, 4]);
    reader.consume(4);
}

#[test]
fn buffer_zero_capacity() {
    // The eagerly-zeroing buffer variant is folded into the guard-based
    // engine; at zero capacity it behaves the same way.
    let mut buffer = LinearBuf::with_capacity(0);
    assert_eq!(buffer.capacity_in(), 0);
    buffer.reserve(64);
    assert!(buffer.capacity_in() >= 64);
}
