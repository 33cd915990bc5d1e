//! The charging control engine: from the latest inverter and wallbox readings
//! to the next current that the wallbox is told to allow.

use crate::config::{Config, ConfigRfid, PhasesConfig};
use crate::e3dc::E3DCParams;
use crate::mennekes::{MennekesAction, MennekesParams, SetAmpsAction, NO_VEHICLE};
use vstd::prelude::*;

verus! {

/// Seconds between two evaluations.
pub const TICK_SECS: u64 = 20;

/// Seconds until the next evaluation after the default current was signalled
/// to a freshly plugged-in vehicle, or charging was refused to an unknown one.
pub const SETTLE_SECS: u64 = 80;

/// Seconds until the next evaluation after charging was halted for want of solar power.
pub const PV_HALT_SECS: u64 = 120;

/// The process's exit code when the inverter gave no reading in time.
pub const EXIT_NO_INVERTER: i32 = 10;

/// The process's exit code when the wallbox gave no reading in time.
pub const EXIT_NO_WALLBOX: i32 = 11;

/// The largest current that fits the wallbox's register.
pub const AMPS_LIMIT: u16 = 0xffff;

/// Session settings that can be changed while the engine runs.
#[derive(Debug, Clone, Copy, PartialEq, Eq, Structural)]
pub struct CurrSettings {
    pub max_session_energy: Option<u32>,
}

/// Why the engine commands the current it commands.
#[derive(Debug, Clone, Copy, PartialEq, Eq, Structural)]
pub enum Reason {
    /// No vehicle is plugged in.
    Idle,
    /// A known vehicle is plugged in for less than the initial phase.
    GracePeriod,
    /// The plugged-in vehicle has no policy.
    Unauthorized,
    /// The session has delivered its energy cap.
    SessionLimitReached,
    /// The policy forbids grid power and the surplus is below the vehicle's minimum.
    PvHalt,
    /// The surplus fell below the present draw.
    StepDown,
    /// The surplus carries one more ampere.
    StepUp,
    /// The present current is below the vehicle's minimum.
    RaiseToMinimum,
    /// Nothing changes.
    Hold,
}

impl Reason {
    /// The surplus was weighed against the present draw.
    pub open spec fn follows_surplus(&self) -> bool {
        self is StepDown || self is StepUp || self is RaiseToMinimum || self is Hold
    }
}

/// One evaluation's outcome.
#[derive(Debug, Clone, Copy, PartialEq, Eq, Structural)]
pub struct Decision {
    /// The current to allow, in amperes.
    pub amps: u16,
    pub reason: Reason,
    /// Seconds to wait before the next evaluation.
    pub wait_secs: u64,
}

/// Solar power that is free for charging: the wallbox's own draw is part of
/// the house's consumption and is added back.
pub open spec fn available_power(pv_power: i32, charger_power: u32, house_power: i32) -> int {
    pv_power + charger_power - house_power
}

/// Whole amperes that a power carries, kept within what a register holds.
/// A step of zero watts carries any power with the largest current.
pub open spec fn floor_amps(available: int, step: int) -> int {
    if step <= 0 {
        if available > 0 {
            AMPS_LIMIT as int
        } else {
            0
        }
    } else if available / step < 0 {
        0
    } else if available / step > AMPS_LIMIT {
        AMPS_LIMIT as int
    } else {
        available / step
    }
}

/// A current brought into a policy's range: never below the minimum.
pub open spec fn clamp_amps(min_amp: int, max_amp: int, amps: int) -> int {
    let capped = if amps < max_amp {
        amps
    } else {
        max_amp
    };
    if capped < min_amp {
        min_amp
    } else {
        capped
    }
}

/// The power below which a vehicle does not charge.
pub open spec fn minimum_power(vehicle: ConfigRfid, step: int) -> int {
    match vehicle.minimum_charging_power {
        Some(watts) => watts as int,
        None => step * vehicle.min_amp,
    }
}

/// The tracking rule: what to command for a known vehicle past its initial
/// phase and below its energy cap.  A falling surplus is looked at first.
pub open spec fn track(
    vehicle: ConfigRfid,
    default_amps: u16,
    step: int,
    hysteresis: int,
    available: int,
    charger_power: int,
    hems_current: u16,
) -> Decision {
    if vehicle.pv_only && available < minimum_power(vehicle, step) {
        Decision { amps: 0, reason: Reason::PvHalt, wait_secs: PV_HALT_SECS }
    } else if available < charger_power && hems_current > vehicle.min_amp {
        Decision {
            amps: clamp_amps(
                vehicle.min_amp as int,
                vehicle.max_amp as int,
                floor_amps(available, step),
            ) as u16,
            reason: Reason::StepDown,
            wait_secs: TICK_SECS,
        }
    } else if available > charger_power + step + hysteresis && hems_current < vehicle.max_amp {
        Decision { amps: (hems_current + 1) as u16, reason: Reason::StepUp, wait_secs: TICK_SECS }
    } else if hems_current < vehicle.min_amp {
        Decision {
            amps: if hems_current + 1 > default_amps {
                (hems_current + 1) as u16
            } else {
                default_amps
            },
            reason: Reason::RaiseToMinimum,
            wait_secs: TICK_SECS,
        }
    } else {
        Decision { amps: hems_current, reason: Reason::Hold, wait_secs: TICK_SECS }
    }
}

/// The whole rule, given the policy that the plugged-in vehicle selects (none
/// for an unknown vehicle) and the session's energy cap.
pub open spec fn evaluate(
    config: Config,
    vehicle: Option<ConfigRfid>,
    energy_cap: Option<u32>,
    inverter: E3DCParams,
    charger: MennekesParams,
) -> Decision {
    if charger.control_pilot == NO_VEHICLE {
        Decision { amps: config.default_amps, reason: Reason::Idle, wait_secs: TICK_SECS }
    } else {
        match vehicle {
            None => Decision { amps: 0, reason: Reason::Unauthorized, wait_secs: SETTLE_SECS },
            Some(v) => if charger.charging_duration < config.initial_phase_duration {
                Decision {
                    amps: config.default_amps,
                    reason: Reason::GracePeriod,
                    wait_secs: SETTLE_SECS,
                }
            } else if energy_cap is Some && charger.current_energy >= energy_cap->0 {
                Decision { amps: 0, reason: Reason::SessionLimitReached, wait_secs: TICK_SECS }
            } else {
                track(
                    v,
                    config.default_amps,
                    config.step_power(),
                    config.hysteresis_watts as int,
                    available_power(inverter.pv_power, charger.power, inverter.haus_power),
                    charger.power as int,
                    charger.hems_current,
                )
            },
        }
    }
}

/// Computes `available_power`.
pub fn free_power(pv_power: i32, charger_power: u32, house_power: i32) -> (watts: i64)
    ensures
        watts == available_power(pv_power, charger_power, house_power),
{
    pv_power as i64 + charger_power as i64 - house_power as i64
}

/// Power that one ampere of charging current carries, in watts.
pub fn step_power(config: &Config) -> (watts: u32)
    ensures
        watts == config.step_power(),
{
    match config.phases {
        PhasesConfig::OnePhase => config.phase_voltage as u32,
        PhasesConfig::ThreePhase => 3 * (config.phase_voltage as u32),
    }
}

/// Computes `floor_amps`.
pub fn whole_amps(available: i64, step: u32) -> (amps: u16)
    ensures
        amps == floor_amps(available as int, step as int),
{
    if step == 0 {
        if available > 0 {
            AMPS_LIMIT
        } else {
            0
        }
    } else if available < 0 {
        assert((available as int) / (step as int) < 0) by (nonlinear_arith)
            requires
                available < 0,
                step > 0,
        ;
        0
    } else {
        assert(0 <= (available as int) / (step as int)) by (nonlinear_arith)
            requires
                available >= 0,
                step > 0,
        ;
        let whole: i64 = available / (step as i64);
        if whole > AMPS_LIMIT as i64 {
            AMPS_LIMIT
        } else {
            whole as u16
        }
    }
}

/// Computes `clamp_amps`.
pub fn clamp(min_amp: u16, max_amp: u16, amps: u16) -> (clamped: u16)
    ensures
        clamped == clamp_amps(min_amp as int, max_amp as int, amps as int),
{
    let capped: u16 = if amps < max_amp {
        amps
    } else {
        max_amp
    };
    if capped < min_amp {
        min_amp
    } else {
        capped
    }
}

/// Computes `minimum_power`.
pub fn minimum_charging_power(vehicle: &ConfigRfid, step: u32) -> (watts: i64)
    ensures
        watts == minimum_power(*vehicle, step as int),
{
    match vehicle.minimum_charging_power {
        Some(watts) => watts as i64,
        None => {
            assert(0 <= step * vehicle.min_amp <= 0xffff_ffff * 0xffff) by (nonlinear_arith)
                requires
                    0 <= step <= 0xffff_ffff,
                    0 <= vehicle.min_amp <= 0xffff,
            ;
            step as i64 * vehicle.min_amp as i64
        },
    }
}

/// Computes `track`.
pub fn track_surplus(
    vehicle: &ConfigRfid,
    default_amps: u16,
    step: u32,
    hysteresis: i32,
    available: i64,
    charger_power: u32,
    hems_current: u16,
) -> (decision: Decision)
    ensures
        decision == track(
            *vehicle,
            default_amps,
            step as int,
            hysteresis as int,
            available as int,
            charger_power as int,
            hems_current,
        ),
{
    let minimum: i64 = minimum_charging_power(vehicle, step);
    if vehicle.pv_only && available < minimum {
        Decision { amps: 0, reason: Reason::PvHalt, wait_secs: PV_HALT_SECS }
    } else if available < charger_power as i64 && hems_current > vehicle.min_amp {
        let amps: u16 = clamp(vehicle.min_amp, vehicle.max_amp, whole_amps(available, step));
        Decision { amps, reason: Reason::StepDown, wait_secs: TICK_SECS }
    } else if available > charger_power as i64 + step as i64 + hysteresis as i64 && hems_current
        < vehicle.max_amp {
        Decision { amps: hems_current + 1, reason: Reason::StepUp, wait_secs: TICK_SECS }
    } else if hems_current < vehicle.min_amp {
        let raised: u16 = hems_current + 1;
        let amps: u16 = if raised > default_amps {
            raised
        } else {
            default_amps
        };
        Decision { amps, reason: Reason::RaiseToMinimum, wait_secs: TICK_SECS }
    } else {
        Decision { amps: hems_current, reason: Reason::Hold, wait_secs: TICK_SECS }
    }
}

/// Computes `evaluate`: one evaluation for a vehicle whose policy has been looked up.
pub fn decide(
    config: &Config,
    vehicle: Option<&ConfigRfid>,
    energy_cap: Option<u32>,
    inverter: &E3DCParams,
    charger: &MennekesParams,
) -> (decision: Decision)
    ensures
        decision == evaluate(
            *config,
            match vehicle {
                Some(v) => Some(*v),
                None => None,
            },
            energy_cap,
            *inverter,
            *charger,
        ),
{
    if charger.control_pilot == NO_VEHICLE {
        return Decision { amps: config.default_amps, reason: Reason::Idle, wait_secs: TICK_SECS };
    }
    match vehicle {
        None => Decision { amps: 0, reason: Reason::Unauthorized, wait_secs: SETTLE_SECS },
        Some(v) => {
            if charger.charging_duration < config.initial_phase_duration {
                return Decision {
                    amps: config.default_amps,
                    reason: Reason::GracePeriod,
                    wait_secs: SETTLE_SECS,
                };
            }
            let capped: bool = match energy_cap {
                Some(cap) => charger.current_energy >= cap,
                None => false,
            };
            if capped {
                Decision { amps: 0, reason: Reason::SessionLimitReached, wait_secs: TICK_SECS }
            } else {
                track_surplus(
                    v,
                    config.default_amps,
                    step_power(config),
                    config.hysteresis_watts,
                    free_power(inverter.pv_power, charger.power, inverter.haus_power),
                    charger.power,
                    charger.hems_current,
                )
            }
        },
    }
}

/// The command that carries a decision to the wallbox: the decided current,
/// and none where the decision is to change nothing.
pub fn command_for(decision: &Decision) -> (action: Option<MennekesAction>)
    ensures
        action == (if decision.reason is Hold {
            None
        } else {
            Some(MennekesAction::SetAmps(SetAmpsAction { max_hems_current: decision.amps }))
        }),
{
    match decision.reason {
        Reason::Hold => None,
        _ => Some(MennekesAction::SetAmps(SetAmpsAction { max_hems_current: decision.amps })),
    }
}

/// How the wait for a device's first reading stands.
pub enum FirstReading<S> {
    /// The reading came.
    Ready(S),
    /// No reading yet, and time is left.
    Waiting,
    /// No reading, and the time is over: the process ends.
    TimedOut,
}

/// Weighs a look into a device's snapshot slot against the time that is
/// left for its first reading.  A reading counts even after the time is over.
pub fn first_reading<S>(fresh: Option<S>, in_time: bool) -> (outcome: FirstReading<S>)
    ensures
        outcome == (match fresh {
            Some(reading) => FirstReading::Ready(reading),
            None => if in_time {
                FirstReading::Waiting
            } else {
                FirstReading::TimedOut
            },
        }),
{
    match fresh {
        Some(reading) => FirstReading::Ready(reading),
        None => if in_time {
            FirstReading::Waiting
        } else {
            FirstReading::TimedOut
        },
    }
}

/// Keeps the last known reading where a look into the snapshot slot finds
/// nothing new.
pub fn refresh<S>(known: &mut S, fresh: Option<S>) -> (renewed: bool)
    ensures
        renewed == fresh is Some,
        *final(known) == (match fresh {
            Some(reading) => reading,
            None => *old(known),
        }),
{
    match fresh {
        Some(reading) => {
            *known = reading;
            true
        },
        None => false,
    }
}

/// What the engine remembers while a vehicle is plugged in.
#[derive(Debug, Clone)]
pub struct SessionState {
    /// Name of the vehicle that was identified, none as long as only unknown
    /// identifiers were seen.
    pub vehicle: Option<String>,
    /// Energy after which charging stops, none for no limit.
    pub energy_cap: Option<u32>,
}

/// A session as contracts see it.
pub struct SessionView {
    pub vehicle: Option<Seq<char>>,
    pub energy_cap: Option<u32>,
}

impl View for SessionState {
    type V = SessionView;

    open spec fn view(&self) -> SessionView {
        SessionView {
            vehicle: match self.vehicle {
                Some(name) => Some(name@),
                None => None,
            },
            energy_cap: self.energy_cap,
        }
    }
}

/// The energy cap that holds in a session, none without a session.
pub open spec fn cap_of(session: Option<SessionView>) -> Option<u32> {
    match session {
        Some(s) => s.energy_cap,
        None => None,
    }
}

/// The session after an evaluation.  It ends when the vehicle is unplugged,
/// starts anew with the policy's cap when another vehicle is identified, and
/// is kept otherwise.
pub open spec fn next_session(
    session: Option<SessionView>,
    control_pilot: u16,
    vehicle: Option<ConfigRfid>,
) -> Option<SessionView> {
    if control_pilot == NO_VEHICLE {
        None
    } else {
        match vehicle {
            Some(v) => if session is Some && session->0.vehicle == Some(v.name@) {
                session
            } else {
                Some(SessionView { vehicle: Some(v.name@), energy_cap: v.max_charge })
            },
            None => if session is Some {
                session
            } else {
                Some(SessionView { vehicle: None, energy_cap: None })
            },
        }
    }
}

/// The decision loop's state: the session of the plugged-in vehicle.
pub struct ControlEngine {
    session: Option<SessionState>,
}

impl View for ControlEngine {
    type V = Option<SessionView>;

    closed spec fn view(&self) -> Option<SessionView> {
        match self.session {
            Some(s) => Some(s@),
            None => None,
        }
    }
}

impl ControlEngine {
    /// An engine that has seen no vehicle.
    pub fn new() -> (engine: ControlEngine)
        ensures
            engine@ is None,
    {
        ControlEngine { session: None }
    }

    /// The settings of the running session.
    pub fn curr_settings(&self) -> (settings: Option<CurrSettings>)
        ensures
            settings == match self@ {
                Some(s) => Some(CurrSettings { max_session_energy: s.energy_cap }),
                None => None,
            },
    {
        match &self.session {
            Some(s) => Some(CurrSettings { max_session_energy: s.energy_cap }),
            None => None,
        }
    }

    /// Name of the vehicle that the running session identified.
    pub fn vehicle_name(&self) -> (name: Option<String>)
        ensures
            match name {
                Some(n) => self@ is Some && self@->0.vehicle == Some(n@),
                None => self@ is None || self@->0.vehicle is None,
            },
    {
        match &self.session {
            Some(s) => match &s.vehicle {
                Some(n) => Some(n.clone()),
                None => None,
            },
            None => None,
        }
    }

    /// Replaces the running session's energy cap; without a session there is
    /// nothing to cap and nothing changes.
    pub fn set_energy(&mut self, watt_hours: u32) -> (applied: bool)
        ensures
            applied == old(self)@ is Some,
            final(self)@ == match old(self)@ {
                Some(s) => Some(SessionView { vehicle: s.vehicle, energy_cap: Some(watt_hours) }),
                None => None,
            },
    {
        match self.session.take() {
            Some(s) => {
                self.session = Some(
                    SessionState { vehicle: s.vehicle, energy_cap: Some(watt_hours) },
                );
                true
            },
            None => false,
        }
    }

    /// One evaluation for a vehicle whose policy has been looked up: moves
    /// the session on and decides on the current.
    pub fn advance(
        &mut self,
        config: &Config,
        vehicle: Option<&ConfigRfid>,
        inverter: &E3DCParams,
        charger: &MennekesParams,
    ) -> (decision: Decision)
        ensures
            final(self)@ == next_session(
                old(self)@,
                charger.control_pilot,
                match vehicle {
                    Some(v) => Some(*v),
                    None => None,
                },
            ),
            final(self)@ is Some <==> charger.control_pilot != NO_VEHICLE,
            decision == evaluate(
                *config,
                match vehicle {
                    Some(v) => Some(*v),
                    None => None,
                },
                cap_of(final(self)@),
                *inverter,
                *charger,
            ),
    {
        if charger.control_pilot == NO_VEHICLE {
            self.session = None;
        } else {
            match vehicle {
                Some(v) => {
                    let same: bool = match &self.session {
                        Some(s) => match &s.vehicle {
                            Some(name) => *name == v.name,
                            None => false,
                        },
                        None => false,
                    };
                    if !same {
                        self.session = Some(
                            SessionState {
                                vehicle: Some(v.name.clone()),
                                energy_cap: v.max_charge,
                            },
                        );
                    }
                },
                None => {
                    if self.session.is_none() {
                        self.session = Some(SessionState { vehicle: None, energy_cap: None });
                    }
                },
            }
        }
        let energy_cap: Option<u32> = match &self.session {
            Some(s) => s.energy_cap,
            None => None,
        };
        decide(config, vehicle, energy_cap, inverter, charger)
    }

    /// One evaluation: looks the reported vehicle up, moves the session on
    /// and decides on the current.
    pub fn step(&mut self, config: &Config, inverter: &E3DCParams, charger: &MennekesParams) -> (decision: Decision)
        ensures
            final(self)@ == next_session(
                old(self)@,
                charger.control_pilot,
                config.policy(charger.vehicle_id()),
            ),
            final(self)@ is Some <==> charger.control_pilot != NO_VEHICLE,
            decision == evaluate(
                *config,
                config.policy(charger.vehicle_id()),
                cap_of(final(self)@),
                *inverter,
                *charger,
            ),
    {
        let found: Option<usize> = match &charger.user_id {
            Some(id) => config.find_vehicle(id.as_str()),
            None => config.find_vehicle(""),
        };
        proof {
            reveal_strlit("");
            assert(""@ =~= Seq::<char>::empty());
        }
        match found {
            Some(i) => self.advance(config, Some(&config.rfid[i].settings), inverter, charger),
            None => self.advance(config, None, inverter, charger),
        }
    }
}

/// Which state an evaluation is in depends on the plug, the policy lookup,
/// the time since plugging in and the energy cap, in this order, and never on
/// the power readings.
pub proof fn lemma_states(
    config: Config,
    vehicle: Option<ConfigRfid>,
    energy_cap: Option<u32>,
    inverter: E3DCParams,
    charger: MennekesParams,
)
    ensures
        ({
            let d = evaluate(config, vehicle, energy_cap, inverter, charger);
            let plugged = charger.control_pilot != NO_VEHICLE;
            let settled = charger.charging_duration >= config.initial_phase_duration;
            let capped = energy_cap is Some && charger.current_energy >= energy_cap->0;
            &&& d.reason is Idle <==> !plugged
            &&& d.reason is Unauthorized <==> plugged && vehicle is None
            &&& d.reason is GracePeriod <==> plugged && vehicle is Some && !settled
            &&& d.reason is SessionLimitReached <==> plugged && vehicle is Some && settled && capped
            &&& d.reason is PvHalt || d.reason.follows_surplus() <==> plugged && vehicle is Some
                && settled && !capped
        }),
{
}

/// The commanded current is the configured default while no vehicle is
/// plugged in and during the initial phase, and zero for an unknown vehicle,
/// at the energy cap and when a solar-only vehicle finds too little surplus.
/// While the surplus is followed, a reduced current lies in the policy's
/// range; a current raised by a step does not exceed the maximum and reaches
/// the minimum unless the present current is more than a step below it; a
/// held current is not below the minimum and exceeds the maximum only if
/// the present current does; a current raised for being below the minimum
/// lies in the range if the default current does or the step reaches the
/// minimum without the default exceeding the maximum.
pub proof fn lemma_commanded_current(
    config: Config,
    vehicle: Option<ConfigRfid>,
    energy_cap: Option<u32>,
    inverter: E3DCParams,
    charger: MennekesParams,
)
    requires
        vehicle is Some ==> vehicle->0.valid(),
    ensures
        ({
            let d = evaluate(config, vehicle, energy_cap, inverter, charger);
            let present = charger.hems_current;
            &&& d.reason is Idle || d.reason is GracePeriod ==> d.amps == config.default_amps
            &&& d.reason is Unauthorized || d.reason is SessionLimitReached || d.reason is PvHalt
                ==> d.amps == 0
            &&& d.reason.follows_surplus() ==> vehicle is Some
            &&& d.reason is StepDown ==> vehicle->0.min_amp <= d.amps <= vehicle->0.max_amp
            &&& d.reason is StepUp ==> d.amps <= vehicle->0.max_amp && (vehicle->0.min_amp
                <= d.amps <==> vehicle->0.min_amp <= present + 1)
            &&& d.reason is Hold ==> vehicle->0.min_amp <= d.amps && (d.amps <= vehicle->0.max_amp
                <==> present <= vehicle->0.max_amp)
            &&& d.reason is RaiseToMinimum ==> (vehicle->0.min_amp <= d.amps <= vehicle->0.max_amp
                <==> config.default_amps <= vehicle->0.max_amp && (vehicle->0.min_amp
                <= config.default_amps || vehicle->0.min_amp <= present + 1))
        }),
{
}

/// While the surplus is followed, the commanded current lies in the policy's
/// range whenever the present current is at most a step below the minimum
/// and not above the maximum, and the default current is not above the
/// maximum.
pub proof fn lemma_current_within_policy(
    config: Config,
    vehicle: ConfigRfid,
    energy_cap: Option<u32>,
    inverter: E3DCParams,
    charger: MennekesParams,
)
    requires
        vehicle.valid(),
        evaluate(config, Some(vehicle), energy_cap, inverter, charger).reason.follows_surplus(),
        vehicle.min_amp <= charger.hems_current + 1,
        charger.hems_current <= vehicle.max_amp,
        config.default_amps <= vehicle.max_amp,
    ensures
        vehicle.min_amp <= evaluate(config, Some(vehicle), energy_cap, inverter, charger).amps
            <= vehicle.max_amp,
{
    lemma_commanded_current(config, Some(vehicle), energy_cap, inverter, charger);
}

/// At equilibrium, where the free power equals the wallbox's present draw,
/// the rule commands the present current again exactly when that current is
/// not below the policy's minimum and the step and the hysteresis margin
/// together are not negative (or the current is at the maximum already);
/// a solar-only halt repeats a present current of zero.
pub proof fn lemma_equilibrium(
    vehicle: ConfigRfid,
    default_amps: u16,
    step: int,
    hysteresis: int,
    power: int,
    hems_current: u16,
)
    ensures
        ({
            let d = track(vehicle, default_amps, step, hysteresis, power, power, hems_current);
            &&& !(d.reason is StepDown)
            &&& d.reason is Hold <==> !(d.reason is PvHalt) && hems_current >= vehicle.min_amp && (
            step + hysteresis >= 0 || hems_current >= vehicle.max_amp)
            &&& d.reason is Hold ==> d.amps == hems_current
            &&& d.amps == hems_current <==> d.reason is Hold || (d.reason is PvHalt
                && hems_current == 0)
        }),
{
}

/// A raise is never more than one ampere, except that a current below the
/// policy's minimum is raised to the default current at once; only a
/// reduction moves to its target directly.
pub proof fn lemma_step_up_is_one(
    vehicle: ConfigRfid,
    default_amps: u16,
    step: int,
    hysteresis: int,
    available: int,
    charger_power: int,
    hems_current: u16,
)
    ensures
        ({
            let d = track(
                vehicle,
                default_amps,
                step,
                hysteresis,
                available,
                charger_power,
                hems_current,
            );
            &&& d.reason is StepUp ==> d.amps == hems_current + 1
            &&& d.reason is Hold ==> d.amps == hems_current
            &&& d.reason is RaiseToMinimum ==> d.amps == hems_current + 1 || (d.amps
                == default_amps && default_amps > hems_current + 1)
            &&& d.amps > hems_current + 1 ==> d.reason is StepDown || d.reason is RaiseToMinimum
            &&& d.reason is StepDown ==> d.amps == clamp_amps(
                vehicle.min_amp as int,
                vehicle.max_amp as int,
                floor_amps(available, step),
            )
        }),
{
}

} // verus!
