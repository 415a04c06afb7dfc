use linear_buf::iorepr::{IoRepr, IoSliceUnix, IoSliceWin};
use linear_buf::uninit::UninitSlice;

#[test]
fn unix_descriptor_advance() {
    let mut desc = IoSliceUnix::new(0x1000, 10);
    assert_eq!(desc.ptr(), 0x1000);
    assert_eq!(desc.len(), 10);
    assert_eq!(desc.advance(4), None);
    assert_eq!(desc.ptr(), 0x1004);
    assert_eq!(desc.len(), 6);
    // Overshooting saturates the descriptor and returns the excess.
    assert_eq!(desc.advance(9), Some(3));
    assert_eq!(desc.ptr(), 0x100A);
    assert_eq!(desc.len(), 0);
}

#[test]
fn win_descriptor_clamps_length() {
    let big = (u32::MAX as usize) + 500;
    let desc = IoSliceWin::new(0x2000, big);
    // The 32-bit length field clamps, it does not wrap.
    assert_eq!(desc.len(), u32::MAX as usize);
    let small = IoSliceWin::new(0x2000, 123);
    assert_eq!(small.len(), 123);
    assert_eq!(small.ptr(), 0x2000);
}

#[test]
fn win_descriptor_advance() {
    let mut desc = IoSliceWin::new(0x3000, 8);
    assert_eq!(desc.advance(8), None);
    assert_eq!(desc.ptr(), 0x3008);
    assert_eq!(desc.len(), 0);
    assert_eq!(desc.advance(2), Some(2));
}

#[test]
fn read_repr_views_slice() {
    let data = [1u8, 2, 3, 4, 5];
    let mut repr = IoRepr::new_read(&data[..]);
    assert_eq!(repr.len(), 5);
    assert!(!repr.is_empty());
    assert_eq!(repr.as_slice(), &[1, 2, 3, 4, 5]);
    assert_eq!(repr.advance(2), None);
    assert_eq!(repr.as_slice(), &[3, 4, 5]);
    assert_eq!(repr.advance(99), Some(96));
    assert!(repr.is_empty());
}

#[test]
fn read_repr_into_inner_narrows() {
    let data = [7u8, 8, 9];
    let mut repr = IoRepr::new_read(&data[..]);
    repr.advance(1);
    let rest: &[u8] = repr.into_inner();
    assert_eq!(rest, &[8, 9]);
}

#[test]
fn write_repr_wraps_guard() {
    let guard = UninitSlice::uninit(vec![0; 6]);
    let mut repr = IoRepr::new_write(guard);
    assert_eq!(repr.len(), 6);
    repr.advance(2);
    assert_eq!(repr.len(), 4);
    let narrowed = repr.into_inner();
    assert_eq!(narrowed.len(), 4);
}
