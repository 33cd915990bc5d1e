//! The wallbox: its snapshot, the commands it accepts and the layout of its
//! register blocks.

use crate::registers::{
    pack_bytes, packed, take_u16, take_u32, u16_at, u32_at, unpack_bytes, unpacked, DecodeError,
    RegisterRange,
};
use crate::text::{trimmed, trimmed_of, utf8_text};
use vstd::prelude::*;
use vstd::utf8::{decode_utf8, encode_utf8, valid_utf8};

verus! {

/// The control-pilot value that the wallbox reports while no vehicle is plugged in.
pub const NO_VEHICLE: u16 = 0;

/// The largest current that the wallbox may be told to allow, in amperes.
pub const MAX_HEMS_CURRENT: u16 = 16;

/// The register that holds the allowed current.
pub const HEMS_CURRENT_REGISTER: u16 = 1000;

/// The first register of the identifier that authorizes a user.
pub const AUTHORIZE_REGISTER: u16 = 1110;

/// One reading of the wallbox.
#[derive(Debug, Clone)]
pub struct MennekesParams {
    /// Unix time of the poll, in seconds.
    pub update: u64,
    pub control_pilot: u16,
    pub f_i_ac: u16,
    pub f_i_dc: u16,
    pub i_l1: u32,
    pub i_l2: u32,
    pub i_l3: u32,
    pub energy: u32,
    pub power: u32,
    pub u_l1: u32,
    pub u_l2: u32,
    pub u_l3: u32,
    pub max_allowed_current_signalled: u16,
    pub start_time: u32,
    pub ev_required_energy: u32,
    pub max_allowed_ev_current: u16,
    pub current_energy: u32,
    pub charging_duration: u32,
    pub user_id: Option<String>,
    pub hems_current: u16,
}

impl MennekesParams {
    /// The identifier that the wallbox reports for the plugged-in vehicle,
    /// empty when it reports none.
    pub open spec fn vehicle_id(&self) -> Seq<char> {
        match self.user_id {
            Some(id) => id@,
            None => Seq::empty(),
        }
    }
}

/// The register blocks of one poll, as they were read.
#[derive(Debug, Clone)]
pub struct MennekesRegisters {
    /// 1 register from 104.
    pub control_pilot: Vec<u16>,
    /// 2 registers from 136.
    pub fault_currents: Vec<u16>,
    /// 16 registers from 212.
    pub measurements: Vec<u16>,
    /// 3 registers from 706.
    pub signalled: Vec<u16>,
    /// 7 registers from 713.
    pub session: Vec<u16>,
    /// 10 registers from 720.
    pub user_id: Vec<u16>,
    /// 1 register from 1000.
    pub hems_current: Vec<u16>,
}

/// The ranges that make one poll, in the order of `MennekesRegisters`' fields.
pub open spec fn poll_ranges() -> Seq<RegisterRange> {
    seq![
        RegisterRange { address: 104, quantity: 1 },
        RegisterRange { address: 136, quantity: 2 },
        RegisterRange { address: 212, quantity: 16 },
        RegisterRange { address: 706, quantity: 3 },
        RegisterRange { address: 713, quantity: 7 },
        RegisterRange { address: 720, quantity: 10 },
        RegisterRange { address: HEMS_CURRENT_REGISTER, quantity: 1 },
    ]
}

/// The ranges to read for one poll.
pub fn ranges() -> (list: Vec<RegisterRange>)
    ensures
        list@ == poll_ranges(),
{
    let mut list: Vec<RegisterRange> = Vec::new();
    list.push(RegisterRange { address: 104, quantity: 1 });
    list.push(RegisterRange { address: 136, quantity: 2 });
    list.push(RegisterRange { address: 212, quantity: 16 });
    list.push(RegisterRange { address: 706, quantity: 3 });
    list.push(RegisterRange { address: 713, quantity: 7 });
    list.push(RegisterRange { address: 720, quantity: 10 });
    list.push(RegisterRange { address: HEMS_CURRENT_REGISTER, quantity: 1 });
    assert(list@ =~= poll_ranges());
    list
}

/// The blocks hold all the registers that a reading is made of.
pub open spec fn complete(registers: MennekesRegisters) -> bool {
    &&& registers.control_pilot@.len() >= 1
    &&& registers.fault_currents@.len() >= 2
    &&& registers.measurements@.len() >= 16
    &&& registers.signalled@.len() >= 3
    &&& registers.session@.len() >= 7
    &&& registers.hems_current@.len() >= 1
}

/// The blocks decode: they are complete and the identifier is well-formed text.
pub open spec fn decodable(registers: MennekesRegisters) -> bool {
    complete(registers) && valid_utf8(unpacked(registers.user_id@))
}

/// Why blocks that do not decode are refused: the first fault in the order of the blocks.
pub open spec fn decode_failure(registers: MennekesRegisters) -> DecodeError {
    if registers.control_pilot@.len() >= 1 && registers.fault_currents@.len() >= 2
        && registers.measurements@.len() >= 16 && registers.signalled@.len() >= 3
        && registers.session@.len() >= 7 && !valid_utf8(unpacked(registers.user_id@)) {
        DecodeError::InvalidText
    } else {
        DecodeError::Truncated
    }
}

/// The identifier in a block of text registers: the text without surrounding
/// white space, none if nothing is left.
pub open spec fn identifier(registers: Seq<u16>) -> Option<Seq<char>> {
    named(trimmed_of(decode_utf8(unpacked(registers))))
}

/// A text as an identifier: none for the empty text.
pub open spec fn named(text: Seq<char>) -> Option<Seq<char>> {
    if text.len() == 0 {
        None
    } else {
        Some(text)
    }
}

/// Computes `named`.
pub fn identifier_from(text: String) -> (id: Option<String>)
    ensures
        named(text@) == match id {
            Some(kept) => Some(kept@),
            None => None,
        },
{
    if text.as_str().is_empty() {
        None
    } else {
        Some(text)
    }
}

/// A reading holds what the blocks hold, field by field.
pub open spec fn reading_of(registers: MennekesRegisters, update: u64, p: MennekesParams) -> bool {
    let measurements = unpacked(registers.measurements@);
    let signalled = unpacked(registers.signalled@);
    let session = unpacked(registers.session@);
    &&& p.update == update
    &&& Some(p.control_pilot) == u16_at(unpacked(registers.control_pilot@), 0)
    &&& Some(p.f_i_ac) == u16_at(unpacked(registers.fault_currents@), 0)
    &&& Some(p.f_i_dc) == u16_at(unpacked(registers.fault_currents@), 2)
    &&& Some(p.i_l1) == u32_at(measurements, 0)
    &&& Some(p.i_l2) == u32_at(measurements, 4)
    &&& Some(p.i_l3) == u32_at(measurements, 8)
    &&& Some(p.energy) == u32_at(measurements, 12)
    &&& Some(p.power) == u32_at(measurements, 16)
    &&& Some(p.u_l1) == u32_at(measurements, 20)
    &&& Some(p.u_l2) == u32_at(measurements, 24)
    &&& Some(p.u_l3) == u32_at(measurements, 28)
    &&& Some(p.max_allowed_current_signalled) == u16_at(signalled, 0)
    &&& Some(p.start_time) == u32_at(signalled, 2)
    &&& Some(p.ev_required_energy) == u32_at(session, 0)
    &&& Some(p.max_allowed_ev_current) == u16_at(session, 4)
    &&& Some(p.current_energy) == u32_at(session, 6)
    &&& Some(p.charging_duration) == u32_at(session, 10)
    &&& match p.user_id {
        Some(id) => identifier(registers.user_id@) == Some(id@),
        None => identifier(registers.user_id@) is None,
    }
    &&& Some(p.hems_current) == u16_at(unpacked(registers.hems_current@), 0)
}

/// Decodes the blocks of one poll into a reading stamped with the poll's time.
pub fn decode(registers: &MennekesRegisters, update: u64) -> (reading: Result<
    MennekesParams,
    DecodeError,
>)
    ensures
        match reading {
            Ok(p) => decodable(*registers) && reading_of(*registers, update, p),
            Err(e) => !decodable(*registers) && e == decode_failure(*registers),
        },
{
    let pilot = unpack_bytes(registers.control_pilot.as_slice());
    let control_pilot: u16 = take_u16(pilot.as_slice(), 0)?;

    let faults = unpack_bytes(registers.fault_currents.as_slice());
    let f_i_ac: u16 = take_u16(faults.as_slice(), 0)?;
    let f_i_dc: u16 = take_u16(faults.as_slice(), 2)?;

    let measurements = unpack_bytes(registers.measurements.as_slice());
    let i_l1: u32 = take_u32(measurements.as_slice(), 0)?;
    let i_l2: u32 = take_u32(measurements.as_slice(), 4)?;
    let i_l3: u32 = take_u32(measurements.as_slice(), 8)?;
    let energy: u32 = take_u32(measurements.as_slice(), 12)?;
    let power: u32 = take_u32(measurements.as_slice(), 16)?;
    let u_l1: u32 = take_u32(measurements.as_slice(), 20)?;
    let u_l2: u32 = take_u32(measurements.as_slice(), 24)?;
    let u_l3: u32 = take_u32(measurements.as_slice(), 28)?;

    let signalled = unpack_bytes(registers.signalled.as_slice());
    let max_allowed_current_signalled: u16 = take_u16(signalled.as_slice(), 0)?;
    let start_time: u32 = take_u32(signalled.as_slice(), 2)?;

    let session = unpack_bytes(registers.session.as_slice());
    let ev_required_energy: u32 = take_u32(session.as_slice(), 0)?;
    let max_allowed_ev_current: u16 = take_u16(session.as_slice(), 4)?;
    let current_energy: u32 = take_u32(session.as_slice(), 6)?;
    let charging_duration: u32 = take_u32(session.as_slice(), 10)?;

    let user_id = match utf8_text(unpack_bytes(registers.user_id.as_slice())) {
        Some(text) => identifier_from(trimmed(text.as_str())),
        None => {
            return Err(DecodeError::InvalidText);
        },
    };

    let hems = unpack_bytes(registers.hems_current.as_slice());
    let hems_current: u16 = take_u16(hems.as_slice(), 0)?;

    Ok(
        MennekesParams {
            update,
            control_pilot,
            f_i_ac,
            f_i_dc,
            i_l1,
            i_l2,
            i_l3,
            energy,
            power,
            u_l1,
            u_l2,
            u_l3,
            max_allowed_current_signalled,
            start_time,
            ev_required_energy,
            max_allowed_ev_current,
            current_energy,
            charging_duration,
            user_id,
            hems_current,
        },
    )
}

/// Tells the wallbox which current to allow.
#[derive(Debug, Clone, Copy, PartialEq, Eq, Structural)]
pub struct SetAmpsAction {
    pub max_hems_current: u16,
}

/// Authorizes a user by identifier.
#[derive(Debug, Clone)]
pub struct AuthorizeUserAction {
    pub user_id: String,
}

/// A command for the wallbox.
#[derive(Debug, Clone)]
pub enum MennekesAction {
    SetAmps(SetAmpsAction),
    AuthorizeUser(AuthorizeUserAction),
}

/// The command that sets the allowed current.
pub fn set_amps(max_hems_current: u16) -> (action: MennekesAction)
    ensures
        action == MennekesAction::SetAmps(SetAmpsAction { max_hems_current }),
{
    MennekesAction::SetAmps(SetAmpsAction { max_hems_current })
}

/// The command that authorizes a user.
pub fn authorize_user(user_id: String) -> (action: MennekesAction)
    ensures
        action == MennekesAction::AuthorizeUser(AuthorizeUserAction { user_id }),
{
    MennekesAction::AuthorizeUser(AuthorizeUserAction { user_id })
}

/// Why a command is dropped without touching the device.
#[derive(Debug, Clone, Copy, PartialEq, Eq, Structural)]
pub enum ActionError {
    /// The current is above what the wallbox may be told.
    IllegalCurrent,
    /// The identifier does not fill whole registers.
    OddIdentifier,
}

/// What applying a command asks of the device.
#[derive(Debug, Clone)]
pub enum ActionPlan {
    /// Nothing: the command is dropped.
    Rejected(ActionError),
    /// Read the register at `address`, then write `wanted` unless it holds it already.
    ReadThenSet { address: u16, wanted: u16 },
    /// Write the registers from `address` on.
    WriteRegisters { address: u16, values: Vec<u16> },
}

/// A plan as contracts see it.
pub enum PlanView {
    Rejected(ActionError),
    ReadThenSet { address: u16, wanted: u16 },
    WriteRegisters { address: u16, values: Seq<u16> },
}

impl View for ActionPlan {
    type V = PlanView;

    open spec fn view(&self) -> PlanView {
        match self {
            ActionPlan::Rejected(e) => PlanView::Rejected(*e),
            ActionPlan::ReadThenSet { address, wanted } => PlanView::ReadThenSet {
                address: *address,
                wanted: *wanted,
            },
            ActionPlan::WriteRegisters { address, values } => PlanView::WriteRegisters {
                address: *address,
                values: values@,
            },
        }
    }
}

/// What a command asks of the device.  A current above the limit is refused;
/// an allowed one is compared with the register first.  An identifier is
/// written as it is, two bytes to a register, and refused if its bytes do
/// not come out even.
pub open spec fn plan_of(action: MennekesAction) -> PlanView {
    match action {
        MennekesAction::SetAmps(amps) => if amps.max_hems_current > MAX_HEMS_CURRENT {
            PlanView::Rejected(ActionError::IllegalCurrent)
        } else {
            PlanView::ReadThenSet { address: HEMS_CURRENT_REGISTER, wanted: amps.max_hems_current }
        },
        MennekesAction::AuthorizeUser(user) => if encode_utf8(user.user_id@).len() % 2 == 0 {
            PlanView::WriteRegisters {
                address: AUTHORIZE_REGISTER,
                values: packed(encode_utf8(user.user_id@)),
            }
        } else {
            PlanView::Rejected(ActionError::OddIdentifier)
        },
    }
}

/// Computes `plan_of`.
pub fn plan(action: &MennekesAction) -> (steps: ActionPlan)
    ensures
        steps@ == plan_of(*action),
{
    match action {
        MennekesAction::SetAmps(amps) => {
            if amps.max_hems_current > MAX_HEMS_CURRENT {
                ActionPlan::Rejected(ActionError::IllegalCurrent)
            } else {
                ActionPlan::ReadThenSet {
                    address: HEMS_CURRENT_REGISTER,
                    wanted: amps.max_hems_current,
                }
            }
        },
        MennekesAction::AuthorizeUser(user) => {
            match pack_bytes(user.user_id.as_str().as_bytes()) {
                Some(values) => ActionPlan::WriteRegisters { address: AUTHORIZE_REGISTER, values },
                None => ActionPlan::Rejected(ActionError::OddIdentifier),
            }
        },
    }
}

/// The value to write after the allowed current was read back: none if the
/// register holds the wanted current already.
pub open spec fn value_to_write(present: Seq<u16>, wanted: u16) -> Result<Option<u16>, DecodeError> {
    match u16_at(unpacked(present), 0) {
        None => Err(DecodeError::Truncated),
        Some(current) => if current == wanted {
            Ok(None)
        } else {
            Ok(Some(wanted))
        },
    }
}

/// Computes `value_to_write` from the registers that the read returned.
pub fn set_amps_write(present: &[u16], wanted: u16) -> (value: Result<Option<u16>, DecodeError>)
    ensures
        value == value_to_write(present@, wanted),
{
    let bytes = unpack_bytes(present);
    let current: u16 = take_u16(bytes.as_slice(), 0)?;
    if current == wanted {
        Ok(None)
    } else {
        Ok(Some(wanted))
    }
}

} // verus!
