//! The energy meter: its snapshot and the layout of its register block.
//! The meter reports single-precision floating-point numbers; a reading
//! keeps each as the 32 bits that the meter sent.

use crate::registers::{take_u32, u32_at, unpack_bytes, unpacked, DecodeError, RegisterRange};
use vstd::prelude::*;

verus! {

/// The first register of the block that one poll reads.
pub const BLOCK_ADDRESS: u16 = 1;

/// The number of registers that one poll reads.
pub const BLOCK_QUANTITY: u16 = 72;

/// Bytes of the block that a reading is made of.
pub const BLOCK_BYTES: usize = 144;

/// One reading of the energy meter.  But for `update`, every field holds the
/// bits of a single-precision floating-point number.
#[derive(Debug, Clone, Copy, PartialEq, Eq, Structural)]
pub struct Pac2200Params {
    /// Unix time of the poll, in seconds.
    pub update: u64,
    pub u_l1: u32,
    pub u_l2: u32,
    pub u_l3: u32,
    pub u_l1l2: u32,
    pub u_l2l3: u32,
    pub u_l1l3: u32,
    pub i_l1: u32,
    pub i_l2: u32,
    pub i_l3: u32,
    pub pva_l1: u32,
    pub pva_l2: u32,
    pub pva_l3: u32,
    pub p_l1: u32,
    pub p_l2: u32,
    pub p_l3: u32,
    pub pvar_l1: u32,
    pub pvar_l2: u32,
    pub pvar_l3: u32,
    pub pf_l1: u32,
    pub pf_l2: u32,
    pub pf_l3: u32,
    pub frequency: u32,
    pub u_avg_ln: u32,
    pub u_avg_ll: u32,
    pub i_avg: u32,
    pub p_avg: u32,
    pub pva_avg: u32,
    pub pvar_avg: u32,
    pub pf_tot: u32,
    pub i_n: u32,
}

/// The range to read for one poll.
pub fn range() -> (r: RegisterRange)
    ensures
        r == (RegisterRange { address: BLOCK_ADDRESS, quantity: BLOCK_QUANTITY }),
{
    RegisterRange { address: BLOCK_ADDRESS, quantity: BLOCK_QUANTITY }
}

/// The reading that a block holds, if the block is long enough.  The 24
/// bytes after the power factors belong to no field.
pub open spec fn reading_of(registers: Seq<u16>, update: u64) -> Result<Pac2200Params, DecodeError> {
    let bytes = unpacked(registers);
    if bytes.len() >= BLOCK_BYTES {
        Ok(
            Pac2200Params {
                update,
                u_l1: u32_at(bytes, 0)->0,
                u_l2: u32_at(bytes, 4)->0,
                u_l3: u32_at(bytes, 8)->0,
                u_l1l2: u32_at(bytes, 12)->0,
                u_l2l3: u32_at(bytes, 16)->0,
                u_l1l3: u32_at(bytes, 20)->0,
                i_l1: u32_at(bytes, 24)->0,
                i_l2: u32_at(bytes, 28)->0,
                i_l3: u32_at(bytes, 32)->0,
                pva_l1: u32_at(bytes, 36)->0,
                pva_l2: u32_at(bytes, 40)->0,
                pva_l3: u32_at(bytes, 44)->0,
                p_l1: u32_at(bytes, 48)->0,
                p_l2: u32_at(bytes, 52)->0,
                p_l3: u32_at(bytes, 56)->0,
                pvar_l1: u32_at(bytes, 60)->0,
                pvar_l2: u32_at(bytes, 64)->0,
                pvar_l3: u32_at(bytes, 68)->0,
                pf_l1: u32_at(bytes, 72)->0,
                pf_l2: u32_at(bytes, 76)->0,
                pf_l3: u32_at(bytes, 80)->0,
                frequency: u32_at(bytes, 108)->0,
                u_avg_ln: u32_at(bytes, 112)->0,
                u_avg_ll: u32_at(bytes, 116)->0,
                i_avg: u32_at(bytes, 120)->0,
                p_avg: u32_at(bytes, 124)->0,
                pva_avg: u32_at(bytes, 128)->0,
                pvar_avg: u32_at(bytes, 132)->0,
                pf_tot: u32_at(bytes, 136)->0,
                i_n: u32_at(bytes, 140)->0,
            },
        )
    } else {
        Err(DecodeError::Truncated)
    }
}

/// Decodes the block of one poll into a reading stamped with the poll's time.
pub fn decode(registers: &[u16], update: u64) -> (reading: Result<Pac2200Params, DecodeError>)
    ensures
        reading == reading_of(registers@, update),
{
    let block = unpack_bytes(registers);
    let bytes = block.as_slice();
    if bytes.len() < BLOCK_BYTES {
        return Err(DecodeError::Truncated);
    }
    let u_l1: u32 = take_u32(bytes, 0)?;
    let u_l2: u32 = take_u32(bytes, 4)?;
    let u_l3: u32 = take_u32(bytes, 8)?;
    let u_l1l2: u32 = take_u32(bytes, 12)?;
    let u_l2l3: u32 = take_u32(bytes, 16)?;
    let u_l1l3: u32 = take_u32(bytes, 20)?;
    let i_l1: u32 = take_u32(bytes, 24)?;
    let i_l2: u32 = take_u32(bytes, 28)?;
    let i_l3: u32 = take_u32(bytes, 32)?;
    let pva_l1: u32 = take_u32(bytes, 36)?;
    let pva_l2: u32 = take_u32(bytes, 40)?;
    let pva_l3: u32 = take_u32(bytes, 44)?;
    let p_l1: u32 = take_u32(bytes, 48)?;
    let p_l2: u32 = take_u32(bytes, 52)?;
    let p_l3: u32 = take_u32(bytes, 56)?;
    let pvar_l1: u32 = take_u32(bytes, 60)?;
    let pvar_l2: u32 = take_u32(bytes, 64)?;
    let pvar_l3: u32 = take_u32(bytes, 68)?;
    let pf_l1: u32 = take_u32(bytes, 72)?;
    let pf_l2: u32 = take_u32(bytes, 76)?;
    let pf_l3: u32 = take_u32(bytes, 80)?;
    let frequency: u32 = take_u32(bytes, 108)?;
    let u_avg_ln: u32 = take_u32(bytes, 112)?;
    let u_avg_ll: u32 = take_u32(bytes, 116)?;
    let i_avg: u32 = take_u32(bytes, 120)?;
    let p_avg: u32 = take_u32(bytes, 124)?;
    let pva_avg: u32 = take_u32(bytes, 128)?;
    let pvar_avg: u32 = take_u32(bytes, 132)?;
    let pf_tot: u32 = take_u32(bytes, 136)?;
    let i_n: u32 = take_u32(bytes, 140)?;
    Ok(
        Pac2200Params {
            update,
            u_l1,
            u_l2,
            u_l3,
            u_l1l2,
            u_l2l3,
            u_l1l3,
            i_l1,
            i_l2,
            i_l3,
            pva_l1,
            pva_l2,
            pva_l3,
            p_l1,
            p_l2,
            p_l3,
            pvar_l1,
            pvar_l2,
            pvar_l3,
            pf_l1,
            pf_l2,
            pf_l3,
            frequency,
            u_avg_ln,
            u_avg_ll,
            i_avg,
            p_avg,
            pva_avg,
            pvar_avg,
            pf_tot,
            i_n,
        },
    )
}

} // verus!
