//! The photovoltaic inverter: its snapshot and the layout of its register block.

use crate::registers::{
    i32_at, take_i32, take_u16, take_u8, u16_at, u8_at, unpack_bytes, unpacked, DecodeError,
    RegisterRange,
};
use crate::text::utf8_text;
use vstd::prelude::*;
use vstd::utf8::{decode_utf8, valid_utf8};

verus! {

/// The first register of the block that one poll reads.
pub const BLOCK_ADDRESS: u16 = 40000;

/// The number of registers that one poll reads.
pub const BLOCK_QUANTITY: u16 = 126;

/// Offset of the first version text in the block's bytes.
pub const TEXTS_AT: usize = 6;

/// Bytes of one version text.
pub const TEXT_BYTES: usize = 32;

/// The number of version texts.
pub const TEXT_COUNT: usize = 4;

/// Bytes of the block that a reading is made of.
pub const BLOCK_BYTES: usize = 208;

/// One reading of the inverter.
#[derive(Debug, Clone)]
pub struct E3DCParams {
    /// Unix time of the poll, in seconds.
    pub update: u64,
    pub magic: u16,
    pub v1: u8,
    pub v2: u8,
    pub v3: u16,
    pub version_strings: Vec<String>,
    pub pv_power: i32,
    pub batt_power: i32,
    pub haus_power: i32,
    pub netz_power: i32,
    pub misc_1: i32,
    pub misc_2: i32,
    pub misc_3: i32,
    pub autarky: u8,
    pub self_utilisation: u8,
    pub akku_charge_percentage: u16,
    pub emergency_power: u16,
    pub s1v: u16,
    pub s2v: u16,
    pub s1a: u16,
    pub s2a: u16,
    pub s1p: u16,
    pub s2p: u16,
}

/// The range to read for one poll.
pub fn range() -> (r: RegisterRange)
    ensures
        r == (RegisterRange { address: BLOCK_ADDRESS, quantity: BLOCK_QUANTITY }),
{
    RegisterRange { address: BLOCK_ADDRESS, quantity: BLOCK_QUANTITY }
}

/// The inverter's signed 32-bit number at an offset: two big-endian 16-bit
/// halves, the low half first.
pub open spec fn big_little_i32_at(bytes: Seq<u8>, at: int) -> Option<i32> {
    if 0 <= at && at + 4 <= bytes.len() {
        i32_at(seq![bytes[at + 2], bytes[at + 3], bytes[at], bytes[at + 1]], 0)
    } else {
        None
    }
}

/// Reads the inverter's signed 32-bit number at an offset.
pub fn read_big_little_i32(bytes: &[u8], at: usize) -> (value: Result<i32, DecodeError>)
    ensures
        value == match big_little_i32_at(bytes@, at as int) {
            Some(v) => Ok::<i32, DecodeError>(v),
            None => Err(DecodeError::Truncated),
        },
{
    if bytes.len() < 4 || at > bytes.len() - 4 {
        return Err(DecodeError::Truncated);
    }
    let a: u8 = take_u8(bytes, at)?;
    let b: u8 = take_u8(bytes, at + 1)?;
    let c: u8 = take_u8(bytes, at + 2)?;
    let d: u8 = take_u8(bytes, at + 3)?;
    let mut swapped: Vec<u8> = Vec::new();
    swapped.push(c);
    swapped.push(d);
    swapped.push(a);
    swapped.push(b);
    assert(swapped@ =~= seq![bytes@[at + 2], bytes@[at + 3], bytes@[at as int], bytes@[at + 1]]);
    take_i32(swapped.as_slice(), 0)
}

/// The bytes of the version text with the given number.
pub open spec fn text_bytes(bytes: Seq<u8>, k: int) -> Seq<u8> {
    bytes.subrange(TEXTS_AT + TEXT_BYTES * k, TEXTS_AT + TEXT_BYTES * (k + 1))
}

/// The first fault among the version texts from the given number on: a text
/// that the bytes do not reach, or one that is not well-formed.
pub open spec fn text_fault(bytes: Seq<u8>, k: int) -> Option<DecodeError>
    decreases TEXT_COUNT - k,
{
    if k < 0 || k >= TEXT_COUNT {
        None
    } else if bytes.len() < TEXTS_AT + TEXT_BYTES * (k + 1) {
        Some(DecodeError::Truncated)
    } else if !valid_utf8(text_bytes(bytes, k)) {
        Some(DecodeError::InvalidText)
    } else {
        text_fault(bytes, k + 1)
    }
}

/// The block decodes: it is long enough and its texts are well-formed.
pub open spec fn decodable(registers: Seq<u16>) -> bool {
    unpacked(registers).len() >= BLOCK_BYTES && text_fault(unpacked(registers), 0) is None
}

/// Why a block that does not decode is refused.
pub open spec fn decode_failure(registers: Seq<u16>) -> DecodeError {
    match text_fault(unpacked(registers), 0) {
        Some(e) => e,
        None => DecodeError::Truncated,
    }
}

/// A reading holds what the block holds, field by field.
pub open spec fn reading_of(registers: Seq<u16>, update: u64, p: E3DCParams) -> bool {
    let bytes = unpacked(registers);
    &&& p.update == update
    &&& Some(p.magic) == u16_at(bytes, 0)
    &&& Some(p.v1) == u8_at(bytes, 2)
    &&& Some(p.v2) == u8_at(bytes, 3)
    &&& Some(p.v3) == u16_at(bytes, 4)
    &&& p.version_strings@.len() == TEXT_COUNT
    &&& forall|k: int|
        0 <= k < TEXT_COUNT ==> (#[trigger] p.version_strings@[k])@ == decode_utf8(
            text_bytes(bytes, k),
        )
    &&& Some(p.pv_power) == big_little_i32_at(bytes, 134)
    &&& Some(p.batt_power) == big_little_i32_at(bytes, 138)
    &&& Some(p.haus_power) == big_little_i32_at(bytes, 142)
    &&& Some(p.netz_power) == big_little_i32_at(bytes, 146)
    &&& Some(p.misc_1) == big_little_i32_at(bytes, 150)
    &&& Some(p.misc_2) == big_little_i32_at(bytes, 154)
    &&& Some(p.misc_3) == big_little_i32_at(bytes, 158)
    &&& Some(p.autarky) == u8_at(bytes, 162)
    &&& Some(p.self_utilisation) == u8_at(bytes, 163)
    &&& Some(p.akku_charge_percentage) == u16_at(bytes, 164)
    &&& Some(p.emergency_power) == u16_at(bytes, 166)
    &&& Some(p.s1v) == u16_at(bytes, 190)
    &&& Some(p.s2v) == u16_at(bytes, 192)
    &&& Some(p.s1a) == u16_at(bytes, 196)
    &&& Some(p.s2a) == u16_at(bytes, 198)
    &&& Some(p.s1p) == u16_at(bytes, 202)
    &&& Some(p.s2p) == u16_at(bytes, 204)
}

/// A copy of the bytes in a range.
fn copy_range(bytes: &[u8], from: usize, to: usize) -> (copy: Vec<u8>)
    requires
        from <= to <= bytes@.len(),
    ensures
        copy@ == bytes@.subrange(from as int, to as int),
{
    let mut copy: Vec<u8> = Vec::new();
    let mut i: usize = from;
    while i < to
        invariant
            from <= i <= to <= bytes@.len(),
            copy@ == bytes@.subrange(from as int, i as int),
        decreases to - i,
    {
        copy.push(bytes[i]);
        assert(copy@ =~= bytes@.subrange(from as int, i + 1));
        i += 1;
    }
    copy
}

/// Decodes the block of one poll into a reading stamped with the poll's time.
pub fn decode(registers: &[u16], update: u64) -> (reading: Result<E3DCParams, DecodeError>)
    ensures
        match reading {
            Ok(p) => decodable(registers@) && reading_of(registers@, update, p),
            Err(e) => !decodable(registers@) && e == decode_failure(registers@),
        },
{
    let block = unpack_bytes(registers);
    let bytes = block.as_slice();
    let magic: u16 = take_u16(bytes, 0)?;
    let v1: u8 = take_u8(bytes, 2)?;
    let v2: u8 = take_u8(bytes, 3)?;
    let v3: u16 = take_u16(bytes, 4)?;

    let mut version_strings: Vec<String> = Vec::new();
    let mut k: usize = 0;
    while k < TEXT_COUNT
        invariant
            k <= TEXT_COUNT,
            bytes@ == unpacked(registers@),
            version_strings@.len() == k,
            text_fault(bytes@, 0) == text_fault(bytes@, k as int),
            forall|j: int|
                0 <= j < k ==> (#[trigger] version_strings@[j])@ == decode_utf8(
                    text_bytes(bytes@, j),
                ),
        decreases TEXT_COUNT - k,
    {
        let from: usize = TEXTS_AT + TEXT_BYTES * k;
        let to: usize = from + TEXT_BYTES;
        if bytes.len() < to {
            return Err(DecodeError::Truncated);
        }
        match utf8_text(copy_range(bytes, from, to)) {
            Some(text) => {
                version_strings.push(text);
            },
            None => {
                return Err(DecodeError::InvalidText);
            },
        }
        k += 1;
    }

    let pv_power: i32 = read_big_little_i32(bytes, 134)?;
    let batt_power: i32 = read_big_little_i32(bytes, 138)?;
    let haus_power: i32 = read_big_little_i32(bytes, 142)?;
    let netz_power: i32 = read_big_little_i32(bytes, 146)?;
    let misc_1: i32 = read_big_little_i32(bytes, 150)?;
    let misc_2: i32 = read_big_little_i32(bytes, 154)?;
    let misc_3: i32 = read_big_little_i32(bytes, 158)?;
    let autarky: u8 = take_u8(bytes, 162)?;
    let self_utilisation: u8 = take_u8(bytes, 163)?;
    let akku_charge_percentage: u16 = take_u16(bytes, 164)?;
    let emergency_power: u16 = take_u16(bytes, 166)?;
    let s1v: u16 = take_u16(bytes, 190)?;
    let s2v: u16 = take_u16(bytes, 192)?;
    let s1a: u16 = take_u16(bytes, 196)?;
    let s2a: u16 = take_u16(bytes, 198)?;
    let s1p: u16 = take_u16(bytes, 202)?;
    let s2p: u16 = take_u16(bytes, 204)?;
    // The block ends with the third string's power, which no reading keeps.
    take_u16(bytes, 206)?;

    Ok(
        E3DCParams {
            update,
            magic,
            v1,
            v2,
            v3,
            version_strings,
            pv_power,
            batt_power,
            haus_power,
            netz_power,
            misc_1,
            misc_2,
            misc_3,
            autarky,
            self_utilisation,
            akku_charge_percentage,
            emergency_power,
            s1v,
            s2v,
            s1a,
            s2a,
            s1p,
            s2p,
        },
    )
}

} // verus!
