//! The residual-current monitor: its snapshot, its alarm bit fields and the
//! layout of its register block.

use crate::registers::{take_u16, u16_at, unpack_bytes, unpacked, DecodeError, RegisterRange};
use vstd::prelude::*;

verus! {

/// The first register of the block that one poll reads.
pub const BLOCK_ADDRESS: u16 = 0;

/// The number of registers that one poll reads.
pub const BLOCK_QUANTITY: u16 = 36;

/// Bytes of the block that a reading is made of.
pub const BLOCK_BYTES: usize = 70;

/// Residual currents, categorized by frequency.
#[derive(Debug, Clone, Copy, PartialEq, Eq, Structural)]
pub struct Currents {
    pub dc: u16,
    pub ac_total: u16,
    pub ac_50hz: u16,
    pub ac_lt100hz: u16,
    pub ac_150hz: u16,
    pub ac_100hz_1khz: u16,
    pub ac_gt1khz: u16,
    pub ac_gt10khz: u16,
}

/// One alarm flag per category of residual current: an alarm is raised when
/// the current of its category exceeds a threshold.
#[derive(Debug, Clone, Copy, PartialEq, Eq, Structural)]
pub struct AlarmBitField {
    pub dc: bool,
    pub ac_total: bool,
    pub ac_50hz: bool,
    pub ac_lt100hz: bool,
    pub ac_150hz: bool,
    pub ac_100hz_1khz: bool,
    pub ac_gt1khz: bool,
    pub ac_gt10khz: bool,
}

/// One reading of the residual-current monitor.
#[derive(Debug, Clone, Copy, PartialEq, Eq, Structural)]
pub struct DctrParams {
    /// Unix time of the poll, in seconds.
    pub update: u64,
    pub validity: u16,
    pub f_i: Currents,
    pub raised_alarm_a: AlarmBitField,
    pub raised_alarm_b: AlarmBitField,
    pub thresholds_a: Currents,
    pub activated_alarms_a: AlarmBitField,
    pub thresholds_b: Currents,
    pub activated_alarms_b: AlarmBitField,
    pub alarm_delay: u16,
}

/// The flags that a register's low eight bits stand for.
pub open spec fn flags_of(register: u16) -> AlarmBitField {
    AlarmBitField {
        dc: register as int / 128 % 2 == 1,
        ac_total: register as int / 64 % 2 == 1,
        ac_50hz: register as int / 32 % 2 == 1,
        ac_lt100hz: register as int / 16 % 2 == 1,
        ac_150hz: register as int / 8 % 2 == 1,
        ac_100hz_1khz: register as int / 4 % 2 == 1,
        ac_gt1khz: register as int / 2 % 2 == 1,
        ac_gt10khz: register as int % 2 == 1,
    }
}

/// The number whose bits are the flags.
pub open spec fn number_of(flags: AlarmBitField) -> int {
    (if flags.dc {
        128int
    } else {
        0
    }) + (if flags.ac_total {
        64int
    } else {
        0
    }) + (if flags.ac_50hz {
        32int
    } else {
        0
    }) + (if flags.ac_lt100hz {
        16int
    } else {
        0
    }) + (if flags.ac_150hz {
        8int
    } else {
        0
    }) + (if flags.ac_100hz_1khz {
        4int
    } else {
        0
    }) + (if flags.ac_gt1khz {
        2int
    } else {
        0
    }) + (if flags.ac_gt10khz {
        1int
    } else {
        0
    })
}

impl Default for AlarmBitField {
    fn default() -> (flags: AlarmBitField)
        ensures
            flags == flags_of(0),
    {
        AlarmBitField {
            dc: false,
            ac_total: false,
            ac_50hz: false,
            ac_lt100hz: false,
            ac_150hz: false,
            ac_100hz_1khz: false,
            ac_gt1khz: false,
            ac_gt10khz: false,
        }
    }
}

/// The value of a flag at a bit position of a register.
fn boolbit(flag: bool, position: u16) -> (value: u16)
    requires
        position < 8,
    ensures
        value == (if flag {
            1u16 << position
        } else {
            0u16
        }),
        value < 256,
{
    assert((1u16 << position) < 256) by (bit_vector)
        requires
            position < 8,
    ;
    if flag {
        1 << position
    } else {
        0
    }
}

impl AlarmBitField {
    /// Create a bit field from an integer.
    pub fn from_int(i: u16) -> (flags: AlarmBitField)
        ensures
            flags == flags_of(i),
    {
        assert((i & 1 == 1) == (i % 2 == 1)) by (bit_vector);
        assert(((i >> 1) & 1 == 1) == (i / 2 % 2 == 1)) by (bit_vector);
        assert(((i >> 2) & 1 == 1) == (i / 4 % 2 == 1)) by (bit_vector);
        assert(((i >> 3) & 1 == 1) == (i / 8 % 2 == 1)) by (bit_vector);
        assert(((i >> 4) & 1 == 1) == (i / 16 % 2 == 1)) by (bit_vector);
        assert(((i >> 5) & 1 == 1) == (i / 32 % 2 == 1)) by (bit_vector);
        assert(((i >> 6) & 1 == 1) == (i / 64 % 2 == 1)) by (bit_vector);
        assert(((i >> 7) & 1 == 1) == (i / 128 % 2 == 1)) by (bit_vector);
        AlarmBitField {
            dc: (i >> 7) & 1 == 1,
            ac_total: (i >> 6) & 1 == 1,
            ac_50hz: (i >> 5) & 1 == 1,
            ac_lt100hz: (i >> 4) & 1 == 1,
            ac_150hz: (i >> 3) & 1 == 1,
            ac_100hz_1khz: (i >> 2) & 1 == 1,
            ac_gt1khz: (i >> 1) & 1 == 1,
            ac_gt10khz: i & 1 == 1,
        }
    }

    /// Convert the bit field to an integer.
    pub fn to_int(&self) -> (i: u16)
        ensures
            i == number_of(*self),
    {
        assert(1u16 << 7u16 == 128 && 1u16 << 6u16 == 64 && 1u16 << 5u16 == 32 && 1u16 << 4u16
            == 16 && 1u16 << 3u16 == 8 && 1u16 << 2u16 == 4 && 1u16 << 1u16 == 2 && 1u16 << 0u16
            == 1) by (bit_vector);
        let mut i: u16 = boolbit(self.dc, 7);
        i = i + boolbit(self.ac_total, 6);
        i = i + boolbit(self.ac_50hz, 5);
        i = i + boolbit(self.ac_lt100hz, 4);
        i = i + boolbit(self.ac_150hz, 3);
        i = i + boolbit(self.ac_100hz_1khz, 2);
        i = i + boolbit(self.ac_gt1khz, 1);
        i = i + boolbit(self.ac_gt10khz, 0);
        i
    }

    /// Whether any alarm is raised.
    pub open spec fn any(&self) -> bool {
        self.ac_gt10khz || self.ac_gt1khz || self.ac_100hz_1khz || self.ac_150hz || self.ac_lt100hz
            || self.ac_50hz || self.ac_total || self.dc
    }

    /// Return whether an alarm was raised.
    pub fn raised(&self) -> (r: bool)
        ensures
            r == self.any(),
            r == (number_of(*self) != 0),
    {
        self.ac_gt10khz || self.ac_gt1khz || self.ac_100hz_1khz || self.ac_150hz || self.ac_lt100hz
            || self.ac_50hz || self.ac_total || self.dc
    }
}

/// Flags survive the way through a register.
pub proof fn lemma_flags_round_trip(flags: AlarmBitField)
    ensures
        0 <= number_of(flags) < 256,
        flags_of(number_of(flags) as u16) == flags,
{
}

/// A register keeps its low eight bits on the way through flags.
pub proof fn lemma_register_keeps_low_bits(register: u16)
    ensures
        number_of(flags_of(register)) == register % 256,
{
    let r = register;
    assert((if r / 128 % 2 == 1 {
        128u16
    } else {
        0u16
    }) + (if r / 64 % 2 == 1 {
        64u16
    } else {
        0u16
    }) + (if r / 32 % 2 == 1 {
        32u16
    } else {
        0u16
    }) + (if r / 16 % 2 == 1 {
        16u16
    } else {
        0u16
    }) + (if r / 8 % 2 == 1 {
        8u16
    } else {
        0u16
    }) + (if r / 4 % 2 == 1 {
        4u16
    } else {
        0u16
    }) + (if r / 2 % 2 == 1 {
        2u16
    } else {
        0u16
    }) + (if r % 2 == 1 {
        1u16
    } else {
        0u16
    }) == r % 256) by (bit_vector);
}

/// The eight currents that start at an offset.
pub open spec fn currents_at(bytes: Seq<u8>, at: int) -> Option<Currents> {
    if 0 <= at && at + 16 <= bytes.len() {
        Some(
            Currents {
                dc: u16_at(bytes, at)->0,
                ac_total: u16_at(bytes, at + 2)->0,
                ac_50hz: u16_at(bytes, at + 4)->0,
                ac_lt100hz: u16_at(bytes, at + 6)->0,
                ac_150hz: u16_at(bytes, at + 8)->0,
                ac_100hz_1khz: u16_at(bytes, at + 10)->0,
                ac_gt1khz: u16_at(bytes, at + 12)->0,
                ac_gt10khz: u16_at(bytes, at + 14)->0,
            },
        )
    } else {
        None
    }
}

/// Reads the eight currents that start at an offset.
pub fn read_currents(bytes: &[u8], at: usize) -> (currents: Result<Currents, DecodeError>)
    ensures
        currents == match currents_at(bytes@, at as int) {
            Some(c) => Ok::<Currents, DecodeError>(c),
            None => Err(DecodeError::Truncated),
        },
{
    if bytes.len() < 16 || at > bytes.len() - 16 {
        return Err(DecodeError::Truncated);
    }
    let dc: u16 = take_u16(bytes, at)?;
    let ac_total: u16 = take_u16(bytes, at + 2)?;
    let ac_50hz: u16 = take_u16(bytes, at + 4)?;
    let ac_lt100hz: u16 = take_u16(bytes, at + 6)?;
    let ac_150hz: u16 = take_u16(bytes, at + 8)?;
    let ac_100hz_1khz: u16 = take_u16(bytes, at + 10)?;
    let ac_gt1khz: u16 = take_u16(bytes, at + 12)?;
    let ac_gt10khz: u16 = take_u16(bytes, at + 14)?;
    Ok(
        Currents {
            dc,
            ac_total,
            ac_50hz,
            ac_lt100hz,
            ac_150hz,
            ac_100hz_1khz,
            ac_gt1khz,
            ac_gt10khz,
        },
    )
}

/// The range to read for one poll.
pub fn range() -> (r: RegisterRange)
    ensures
        r == (RegisterRange { address: BLOCK_ADDRESS, quantity: BLOCK_QUANTITY }),
{
    RegisterRange { address: BLOCK_ADDRESS, quantity: BLOCK_QUANTITY }
}

/// The reading that a block holds, if the block is long enough.
pub open spec fn reading_of(registers: Seq<u16>, update: u64) -> Result<DctrParams, DecodeError> {
    let bytes = unpacked(registers);
    if bytes.len() >= BLOCK_BYTES {
        Ok(
            DctrParams {
                update,
                validity: u16_at(bytes, 0)->0,
                f_i: currents_at(bytes, 2)->0,
                raised_alarm_a: flags_of(u16_at(bytes, 18)->0),
                raised_alarm_b: flags_of(u16_at(bytes, 20)->0),
                thresholds_a: currents_at(bytes, 32)->0,
                activated_alarms_a: flags_of(u16_at(bytes, 48)->0),
                thresholds_b: currents_at(bytes, 50)->0,
                activated_alarms_b: flags_of(u16_at(bytes, 66)->0),
                alarm_delay: u16_at(bytes, 68)->0,
            },
        )
    } else {
        Err(DecodeError::Truncated)
    }
}

/// Decodes the block of one poll into a reading stamped with the poll's time.
pub fn decode(registers: &[u16], update: u64) -> (reading: Result<DctrParams, DecodeError>)
    ensures
        reading == reading_of(registers@, update),
{
    let block = unpack_bytes(registers);
    let bytes = block.as_slice();
    let validity: u16 = take_u16(bytes, 0)?;
    let f_i = read_currents(bytes, 2)?;
    let alarm_a: u16 = take_u16(bytes, 18)?;
    let alarm_b: u16 = take_u16(bytes, 20)?;
    let thresholds_a = read_currents(bytes, 32)?;
    let active_alarms_a: u16 = take_u16(bytes, 48)?;
    let thresholds_b = read_currents(bytes, 50)?;
    let active_alarms_b: u16 = take_u16(bytes, 66)?;
    let alarm_delay: u16 = take_u16(bytes, 68)?;
    Ok(
        DctrParams {
            update,
            validity,
            f_i,
            raised_alarm_a: AlarmBitField::from_int(alarm_a),
            raised_alarm_b: AlarmBitField::from_int(alarm_b),
            thresholds_a,
            activated_alarms_a: AlarmBitField::from_int(active_alarms_a),
            thresholds_b,
            activated_alarms_b: AlarmBitField::from_int(active_alarms_b),
            alarm_delay,
        },
    )
}

} // verus!
