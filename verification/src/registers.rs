//! Register payloads: 16-bit registers as bytes, and big-endian numbers in
//! those bytes.

use byteorder::ReadBytesExt;
use vstd::prelude::*;

verus! {

/// Why a register payload does not decode.
#[derive(Debug, Clone, Copy, PartialEq, Eq, Structural)]
pub enum DecodeError {
    /// The payload ends before the value does.
    Truncated,
    /// A text field is not well-formed UTF-8.
    InvalidText,
}

/// A range of registers on a device.
#[derive(Debug, Clone, Copy, PartialEq, Eq, Structural)]
pub struct RegisterRange {
    pub address: u16,
    pub quantity: u16,
}

/// The bytes of a run of registers: each register's high byte, then its low byte.
pub open spec fn unpacked(registers: Seq<u16>) -> Seq<u8> {
    Seq::new(
        2 * registers.len(),
        |i: int|
            if i % 2 == 0 {
                (registers[i / 2] / 256) as u8
            } else {
                (registers[i / 2] % 256) as u8
            },
    )
}

/// The registers that hold a run of bytes, two bytes to a register, high byte first.
pub open spec fn packed(bytes: Seq<u8>) -> Seq<u16> {
    Seq::new(bytes.len() / 2, |i: int| (bytes[2 * i] * 256 + bytes[2 * i + 1]) as u16)
}

/// The big-endian 16-bit number at an offset, if the bytes reach that far.
pub open spec fn u16_at(bytes: Seq<u8>, at: int) -> Option<u16> {
    if 0 <= at && at + 2 <= bytes.len() {
        Some((bytes[at] * 256 + bytes[at + 1]) as u16)
    } else {
        None
    }
}

/// The big-endian 32-bit number at an offset, if the bytes reach that far.
pub open spec fn u32_at(bytes: Seq<u8>, at: int) -> Option<u32> {
    if 0 <= at && at + 4 <= bytes.len() {
        Some(
            (((bytes[at] * 256 + bytes[at + 1]) * 256 + bytes[at + 2]) * 256 + bytes[at
                + 3]) as u32,
        )
    } else {
        None
    }
}

/// A 32-bit pattern read as a signed number in two's complement.
pub open spec fn signed(pattern: u32) -> i32 {
    if pattern >= 0x8000_0000 {
        (pattern - 0x1_0000_0000) as i32
    } else {
        pattern as i32
    }
}

/// The big-endian signed 32-bit number at an offset, if the bytes reach that far.
pub open spec fn i32_at(bytes: Seq<u8>, at: int) -> Option<i32> {
    match u32_at(bytes, at) {
        Some(pattern) => Some(signed(pattern)),
        None => None,
    }
}

/// The byte at an offset, if there is one.
pub open spec fn u8_at(bytes: Seq<u8>, at: int) -> Option<u8> {
    if 0 <= at < bytes.len() {
        Some(bytes[at])
    } else {
        None
    }
}

/// Calls `modbus::binary::unpack_bytes`.  Trusted: every register gives two
/// bytes, the high one first.
#[verifier::external_body]
pub(crate) fn unpack_bytes(registers: &[u16]) -> (bytes: Vec<u8>)
    ensures
        bytes@ == unpacked(registers@),
{
    modbus::binary::unpack_bytes(registers)
}

/// Calls `modbus::binary::pack_bytes`.  Trusted: an even number of bytes is
/// packed two to a register, the high byte first; an odd number is refused.
#[verifier::external_body]
pub(crate) fn pack_bytes(bytes: &[u8]) -> (registers: Option<Vec<u16>>)
    ensures
        registers is Some <==> bytes@.len() % 2 == 0,
        registers matches Some(r) ==> r@ == packed(bytes@),
{
    modbus::binary::pack_bytes(bytes).ok()
}

/// Calls `byteorder::ReadBytesExt::read_u16` in big-endian order on the bytes
/// from an offset on.  Trusted: the two bytes at the offset make the number,
/// and fewer than two bytes give none.
#[verifier::external_body]
fn read_u16(bytes: &[u8], at: usize) -> (value: Option<u16>)
    requires
        at <= bytes@.len(),
    ensures
        value == u16_at(bytes@, at as int),
{
    let mut rest = &bytes[at..];
    rest.read_u16::<byteorder::BigEndian>().ok()
}

/// Calls `byteorder::ReadBytesExt::read_u32` in big-endian order on the bytes
/// from an offset on.  Trusted: the four bytes at the offset make the number,
/// and fewer than four bytes give none.
#[verifier::external_body]
fn read_u32(bytes: &[u8], at: usize) -> (value: Option<u32>)
    requires
        at <= bytes@.len(),
    ensures
        value == u32_at(bytes@, at as int),
{
    let mut rest = &bytes[at..];
    rest.read_u32::<byteorder::BigEndian>().ok()
}

/// Calls `byteorder::ReadBytesExt::read_i32` in big-endian order on the bytes
/// from an offset on.  Trusted: the four bytes at the offset make the number
/// in two's complement, and fewer than four bytes give none.
#[verifier::external_body]
fn read_i32(bytes: &[u8], at: usize) -> (value: Option<i32>)
    requires
        at <= bytes@.len(),
    ensures
        value == i32_at(bytes@, at as int),
{
    let mut rest = &bytes[at..];
    rest.read_i32::<byteorder::BigEndian>().ok()
}

/// The big-endian 16-bit number at an offset.
pub fn take_u16(bytes: &[u8], at: usize) -> (value: Result<u16, DecodeError>)
    ensures
        value == match u16_at(bytes@, at as int) {
            Some(v) => Ok::<u16, DecodeError>(v),
            None => Err(DecodeError::Truncated),
        },
{
    if at > bytes.len() {
        return Err(DecodeError::Truncated);
    }
    match read_u16(bytes, at) {
        Some(v) => Ok(v),
        None => Err(DecodeError::Truncated),
    }
}

/// The big-endian 32-bit number at an offset.
pub fn take_u32(bytes: &[u8], at: usize) -> (value: Result<u32, DecodeError>)
    ensures
        value == match u32_at(bytes@, at as int) {
            Some(v) => Ok::<u32, DecodeError>(v),
            None => Err(DecodeError::Truncated),
        },
{
    if at > bytes.len() {
        return Err(DecodeError::Truncated);
    }
    match read_u32(bytes, at) {
        Some(v) => Ok(v),
        None => Err(DecodeError::Truncated),
    }
}

/// The big-endian signed 32-bit number at an offset.
pub fn take_i32(bytes: &[u8], at: usize) -> (value: Result<i32, DecodeError>)
    ensures
        value == match i32_at(bytes@, at as int) {
            Some(v) => Ok::<i32, DecodeError>(v),
            None => Err(DecodeError::Truncated),
        },
{
    if at > bytes.len() {
        return Err(DecodeError::Truncated);
    }
    match read_i32(bytes, at) {
        Some(v) => Ok(v),
        None => Err(DecodeError::Truncated),
    }
}

/// The byte at an offset.
pub fn take_u8(bytes: &[u8], at: usize) -> (value: Result<u8, DecodeError>)
    ensures
        value == match u8_at(bytes@, at as int) {
            Some(v) => Ok::<u8, DecodeError>(v),
            None => Err(DecodeError::Truncated),
        },
{
    if at < bytes.len() {
        Ok(bytes[at])
    } else {
        Err(DecodeError::Truncated)
    }
}

/// A register read back from its own bytes is the register.
pub proof fn lemma_register_round_trip(registers: Seq<u16>, k: int)
    requires
        0 <= k < registers.len(),
    ensures
        u16_at(unpacked(registers), 2 * k) == Some(registers[k]),
{
    let bytes = unpacked(registers);
    assert(bytes[2 * k] == (registers[k] / 256) as u8);
    assert(bytes[2 * k + 1] == (registers[k] % 256) as u8);
}

/// Packing the bytes of registers gives the registers back.
pub proof fn lemma_pack_unpack(registers: Seq<u16>)
    ensures
        packed(unpacked(registers)) == registers,
{
    let bytes = unpacked(registers);
    assert forall|i: int| 0 <= i < registers.len() implies packed(bytes)[i] == registers[i] by {
        lemma_register_round_trip(registers, i);
    }
    assert(packed(bytes) =~= registers);
}

} // verus!
