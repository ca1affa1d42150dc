use avislya::reader::{be16, be32, offset_by, ptr_at, read_be16, BoundsError};

#[test]
fn ptr_at_borrows_the_requested_bytes() {
    let frame = [1u8, 2, 3, 4, 5];
    assert_eq!(ptr_at(&frame, 1, 3), Ok(&frame[1..4]));
    assert_eq!(ptr_at(&frame, 0, 5), Ok(&frame[..]));
    assert_eq!(ptr_at(&frame, 4, 1), Ok(&frame[4..]));
}

#[test]
fn ptr_at_grants_an_empty_window_up_to_the_end() {
    let frame = [1u8, 2, 3, 4, 5];
    let empty: &[u8] = &[];
    assert_eq!(ptr_at(&frame, 0, 0), Ok(empty));
    assert_eq!(ptr_at(&frame, 5, 0), Ok(empty));
    assert_eq!(ptr_at(&[], 0, 0), Ok(empty));
}

#[test]
fn ptr_at_rejects_a_read_past_the_end() {
    let frame = [1u8, 2, 3, 4, 5];
    assert_eq!(ptr_at(&frame, 3, 3), Err(BoundsError));
    assert_eq!(ptr_at(&frame, 0, 6), Err(BoundsError));
    assert_eq!(ptr_at(&frame, 6, 0), Err(BoundsError));
    assert_eq!(ptr_at(&[], 0, 1), Err(BoundsError));
}

#[test]
fn ptr_at_rejects_an_overflowing_bound() {
    let frame = [1u8, 2, 3, 4, 5];
    assert_eq!(ptr_at(&frame, usize::MAX, 2), Err(BoundsError));
    assert_eq!(ptr_at(&frame, 2, usize::MAX), Err(BoundsError));
    assert_eq!(ptr_at(&frame, usize::MAX, usize::MAX), Err(BoundsError));
    assert_eq!(ptr_at(&frame, usize::MAX, 0), Err(BoundsError));
}

#[test]
fn ptr_at_view_aliases_the_frame() {
    let frame = [9u8, 8, 7, 6];
    let view = ptr_at(&frame, 2, 2).unwrap();
    assert!(std::ptr::eq(view.as_ptr(), frame[2..].as_ptr()));
}

#[test]
fn be16_puts_the_first_byte_on_top() {
    assert_eq!(be16(0x12, 0x34), 0x1234);
    assert_eq!(be16(0x00, 0x35), 53);
    assert_eq!(be16(0x08, 0x00), 0x0800);
    assert_eq!(be16(0xff, 0xff), u16::MAX);
    assert_eq!(be16(0, 0), 0);
}

#[test]
fn be16_agrees_with_the_standard_library() {
    for hi in 0..=255u8 {
        for lo in [0u8, 1, 0x35, 0x7f, 0x80, 0xff] {
            assert_eq!(be16(hi, lo), u16::from_be_bytes([hi, lo]));
        }
    }
}

#[test]
fn be32_puts_the_first_byte_on_top() {
    assert_eq!(be32(10, 0, 0, 1), 0x0a00_0001);
    assert_eq!(be32(0x12, 0x34, 0x56, 0x78), 0x1234_5678);
    assert_eq!(be32(0xff, 0xff, 0xff, 0xff), u32::MAX);
    assert_eq!(be32(192, 168, 1, 20), u32::from_be_bytes([192, 168, 1, 20]));
}

#[test]
fn offset_by_adds_or_refuses() {
    assert_eq!(offset_by(42, 2), Ok(44));
    assert_eq!(offset_by(0, 0), Ok(0));
    assert_eq!(offset_by(usize::MAX - 2, 2), Ok(usize::MAX));
    assert_eq!(offset_by(usize::MAX - 1, 2), Err(BoundsError));
    assert_eq!(offset_by(usize::MAX, usize::MAX), Err(BoundsError));
}

#[test]
fn read_be16_is_big_endian() {
    let frame = [0x12u8, 0x34, 0x00, 0x35];
    assert_eq!(read_be16(&frame, 0), Ok(0x1234));
    assert_eq!(read_be16(&frame, 1), Ok(0x3400));
    assert_eq!(read_be16(&frame, 2), Ok(53));
}

#[test]
fn read_be16_needs_both_bytes() {
    let frame = [0x12u8, 0x34, 0x00, 0x35];
    assert_eq!(read_be16(&frame, 3), Err(BoundsError));
    assert_eq!(read_be16(&frame, 4), Err(BoundsError));
    assert_eq!(read_be16(&frame, usize::MAX), Err(BoundsError));
    assert_eq!(read_be16(&frame, usize::MAX - 1), Err(BoundsError));
}
