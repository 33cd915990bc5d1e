use wallbox_manager::e3dc::read_big_little_i32;
use wallbox_manager::registers::{take_i32, take_u16, take_u32, take_u8, DecodeError};

#[test]
fn numbers_are_read_high_byte_first() {
    let bytes = [0x12u8, 0x34, 0x56, 0x78, 0x9a];
    assert_eq!(take_u8(&bytes, 4), Ok(0x9a));
    assert_eq!(take_u16(&bytes, 0), Ok(0x1234));
    assert_eq!(take_u16(&bytes, 3), Ok(0x789a));
    assert_eq!(take_u32(&bytes, 0), Ok(0x1234_5678));
    assert_eq!(take_u32(&bytes, 1), Ok(0x3456_789a));
    assert_eq!(take_i32(&bytes, 0), Ok(0x1234_5678));
}

#[test]
fn signed_numbers_are_twos_complement() {
    assert_eq!(take_i32(&[0xff, 0xff, 0xff, 0xff], 0), Ok(-1));
    assert_eq!(take_i32(&[0x80, 0, 0, 0], 0), Ok(i32::MIN));
    assert_eq!(take_i32(&[0x7f, 0xff, 0xff, 0xff], 0), Ok(i32::MAX));
    assert_eq!(take_i32(&[0xff, 0xff, 0xfc, 0x18], 0), Ok(-1000));
}

#[test]
fn short_payloads_are_truncated() {
    let bytes = [1u8, 2, 3];
    assert_eq!(take_u8(&bytes, 3), Err(DecodeError::Truncated));
    assert_eq!(take_u16(&bytes, 2), Err(DecodeError::Truncated));
    assert_eq!(take_u16(&bytes, 3), Err(DecodeError::Truncated));
    assert_eq!(take_u16(&bytes, 9), Err(DecodeError::Truncated));
    assert_eq!(take_u32(&bytes, 0), Err(DecodeError::Truncated));
    assert_eq!(take_i32(&bytes, 0), Err(DecodeError::Truncated));
    assert_eq!(take_u32(&bytes, usize::MAX), Err(DecodeError::Truncated));
    assert_eq!(take_u16(&[], 0), Err(DecodeError::Truncated));
}

#[test]
fn inverter_numbers_have_their_halves_swapped() {
    // 3000 = 0x0000_0bb8: the low half comes first.
    assert_eq!(read_big_little_i32(&[0x0b, 0xb8, 0x00, 0x00], 0), Ok(3000));
    // -1000 = 0xffff_fc18
    assert_eq!(read_big_little_i32(&[0xfc, 0x18, 0xff, 0xff], 0), Ok(-1000));
    assert_eq!(read_big_little_i32(&[9, 0x56, 0x78, 0x12, 0x34], 1), Ok(0x1234_5678));
    assert_eq!(read_big_little_i32(&[1, 2, 3], 0), Err(DecodeError::Truncated));
    assert_eq!(read_big_little_i32(&[1, 2, 3, 4], 1), Err(DecodeError::Truncated));
    assert_eq!(read_big_little_i32(&[1, 2, 3, 4], usize::MAX), Err(DecodeError::Truncated));
}
