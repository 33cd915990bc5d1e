use wallbox_manager::config::ConfigRfid;
use wallbox_manager::mennekes::MennekesAction;
use wallbox_manager::wallbox_manager::{
    clamp, command_for, first_reading, free_power, minimum_charging_power, refresh, track_surplus,
    whole_amps, Decision, FirstReading, Reason, EXIT_NO_INVERTER, EXIT_NO_WALLBOX, PV_HALT_SECS,
    TICK_SECS,
};

fn car(pv_only: bool, min_amp: u16, max_amp: u16, minimum: Option<i32>) -> ConfigRfid {
    ConfigRfid {
        name: "Kona".to_string(),
        pv_only,
        min_amp,
        max_amp,
        max_charge: None,
        minimum_charging_power: minimum,
    }
}

fn tick(amps: u16, reason: Reason) -> Decision {
    Decision { amps, reason, wait_secs: TICK_SECS }
}

#[test]
fn free_power_adds_the_wallbox_draw_back() {
    assert_eq!(free_power(3000, 2000, 1000), 4000);
    assert_eq!(free_power(500, 2000, 1000), 1500);
    assert_eq!(free_power(0, 0, 5000), -5000);
    assert_eq!(free_power(i32::MAX, u32::MAX, i32::MIN), 8_589_934_590);
    assert_eq!(free_power(i32::MIN, 0, i32::MAX), -4_294_967_295);
}

#[test]
fn whole_amperes_round_down_and_stay_in_a_register() {
    assert_eq!(whole_amps(1500, 230), 6);
    assert_eq!(whole_amps(1380, 230), 6);
    assert_eq!(whole_amps(1379, 230), 5);
    assert_eq!(whole_amps(229, 230), 0);
    assert_eq!(whole_amps(0, 230), 0);
    assert_eq!(whole_amps(-1, 230), 0);
    assert_eq!(whole_amps(i64::MIN, 1), 0);
    assert_eq!(whole_amps(65535, 1), 65535);
    assert_eq!(whole_amps(65536, 1), 65535);
    assert_eq!(whole_amps(i64::MAX, 690), 65535);
}

#[test]
fn a_step_of_no_power_carries_everything_or_nothing() {
    assert_eq!(whole_amps(1, 0), 65535);
    assert_eq!(whole_amps(0, 0), 0);
    assert_eq!(whole_amps(-1, 0), 0);
}

#[test]
fn clamp_never_goes_below_the_minimum() {
    assert_eq!(clamp(6, 16, 3), 6);
    assert_eq!(clamp(6, 16, 6), 6);
    assert_eq!(clamp(6, 16, 11), 11);
    assert_eq!(clamp(6, 16, 16), 16);
    assert_eq!(clamp(6, 16, 40), 16);
    assert_eq!(clamp(16, 6, 3), 16);
    assert_eq!(clamp(16, 6, 40), 16);
}

#[test]
fn minimum_power_defaults_to_the_minimum_current() {
    assert_eq!(minimum_charging_power(&car(true, 6, 16, None), 230), 1380);
    assert_eq!(minimum_charging_power(&car(true, 6, 16, None), 690), 4140);
    assert_eq!(minimum_charging_power(&car(true, 6, 16, Some(900)), 690), 900);
    assert_eq!(minimum_charging_power(&car(true, 6, 16, Some(-5)), 690), -5);
    assert_eq!(minimum_charging_power(&car(true, u16::MAX, u16::MAX, None), u32::MAX), 281_470_681_677_825);
}

#[test]
fn solar_only_vehicle_halts_below_its_minimum() {
    let d = track_surplus(&car(true, 6, 16, None), 6, 230, 100, 1379, 0, 6);
    assert_eq!(d, Decision { amps: 0, reason: Reason::PvHalt, wait_secs: PV_HALT_SECS });
    let d = track_surplus(&car(true, 6, 16, None), 6, 230, 100, 1380, 1380, 6);
    assert_eq!(d, tick(6, Reason::Hold));
    let d = track_surplus(&car(true, 6, 16, Some(3000)), 6, 230, 100, 2999, 1380, 6);
    assert_eq!(d.reason, Reason::PvHalt);
    // A vehicle that may use grid power goes on below its minimum.
    let d = track_surplus(&car(false, 6, 16, None), 6, 230, 100, 100, 2000, 9);
    assert_eq!(d, tick(6, Reason::StepDown));
}

#[test]
fn a_falling_surplus_is_looked_at_first() {
    let v = car(false, 6, 16, None);
    assert_eq!(track_surplus(&v, 6, 230, 100, 2300, 2301, 12), tick(10, Reason::StepDown));
    assert_eq!(track_surplus(&v, 6, 230, 100, -700, 2000, 12), tick(6, Reason::StepDown));
    assert_eq!(track_surplus(&v, 6, 230, 100, 9000, 9001, 12), tick(16, Reason::StepDown));
    // At the minimum there is nothing to reduce.
    assert_eq!(track_surplus(&v, 6, 230, 100, 100, 2000, 6), tick(6, Reason::Hold));
    // With a negative margin both a fall and a rise hold; the fall wins.
    assert_eq!(track_surplus(&v, 6, 230, -1000, 1900, 2000, 9), tick(8, Reason::StepDown));
}

#[test]
fn a_rise_is_one_ampere_beyond_step_and_margin() {
    let v = car(false, 6, 16, None);
    assert_eq!(track_surplus(&v, 6, 230, 100, 2331, 2000, 9), tick(10, Reason::StepUp));
    assert_eq!(track_surplus(&v, 6, 230, 100, 2330, 2000, 9), tick(9, Reason::Hold));
    assert_eq!(track_surplus(&v, 6, 230, 100, 99_999, 2000, 9), tick(10, Reason::StepUp));
    assert_eq!(track_surplus(&v, 6, 230, 100, 99_999, 2000, 15), tick(16, Reason::StepUp));
    assert_eq!(track_surplus(&v, 6, 230, 100, 99_999, 2000, 16), tick(16, Reason::Hold));
    assert_eq!(track_surplus(&v, 6, 690, 0, 2691, 2000, 9), tick(10, Reason::StepUp));
    assert_eq!(track_surplus(&v, 6, 690, 0, 2690, 2000, 9), tick(9, Reason::Hold));
    // A rise from far below the minimum is one ampere as well.
    assert_eq!(track_surplus(&v, 6, 230, 100, 99_999, 0, 2), tick(3, Reason::StepUp));
}

#[test]
fn a_current_below_the_minimum_is_raised_to_the_default() {
    let v = car(false, 6, 16, None);
    assert_eq!(track_surplus(&v, 6, 230, 100, 0, 0, 0), tick(6, Reason::RaiseToMinimum));
    assert_eq!(track_surplus(&v, 6, 230, 100, 0, 0, 5), tick(6, Reason::RaiseToMinimum));
    assert_eq!(track_surplus(&v, 3, 230, 100, 0, 0, 4), tick(5, Reason::RaiseToMinimum));
    assert_eq!(track_surplus(&v, 20, 230, 100, 0, 0, 4), tick(20, Reason::RaiseToMinimum));
    let top = car(false, u16::MAX, u16::MAX, None);
    assert_eq!(track_surplus(&top, 0, 230, 100, 0, 0, u16::MAX - 1), tick(u16::MAX, Reason::RaiseToMinimum));
}

#[test]
fn equilibrium_holds_the_current() {
    let v = car(false, 6, 16, None);
    for hems in 6..=16u16 {
        for power in [0u32, 1380, 2000, 3680, 11000] {
            let d = track_surplus(&v, 6, 230, 100, i64::from(power), power, hems);
            assert_eq!(d, tick(hems, Reason::Hold));
            let again = track_surplus(&v, 6, 230, 100, i64::from(power), power, d.amps);
            assert_eq!(again, d);
        }
    }
    // Above the maximum the current is held as well: the policy's range is left.
    assert_eq!(track_surplus(&v, 6, 230, 100, 2000, 2000, 20), tick(20, Reason::Hold));
}

#[test]
fn commanded_current_stays_in_the_policy_range() {
    let v = car(false, 6, 16, None);
    for hems in 5..=16u16 {
        for available in [-3000i64, 0, 1000, 1500, 2000, 2330, 2331, 5000, 50_000] {
            for power in [0u32, 1500, 2000, 4000] {
                let d = track_surplus(&v, 6, 230, 100, available, power, hems);
                assert!(6 <= d.amps && d.amps <= 16, "{:?}", d);
                if d.reason == Reason::StepUp {
                    assert_eq!(d.amps, hems + 1);
                }
                if d.reason != Reason::StepDown {
                    assert!(d.amps <= hems + 1);
                }
            }
        }
    }
}

#[test]
fn a_held_current_is_not_sent_again() {
    assert!(command_for(&tick(9, Reason::Hold)).is_none());
    for reason in [
        Reason::Idle,
        Reason::GracePeriod,
        Reason::Unauthorized,
        Reason::SessionLimitReached,
        Reason::PvHalt,
        Reason::StepDown,
        Reason::StepUp,
        Reason::RaiseToMinimum,
    ] {
        match command_for(&tick(11, reason)) {
            Some(MennekesAction::SetAmps(a)) => assert_eq!(a.max_hems_current, 11),
            other => panic!("unexpected command {:?}", other),
        }
    }
}

#[test]
fn first_reading_is_awaited_until_the_time_is_over() {
    assert!(matches!(first_reading(Some(5), true), FirstReading::Ready(5)));
    assert!(matches!(first_reading(Some(5), false), FirstReading::Ready(5)));
    assert!(matches!(first_reading(None::<u8>, true), FirstReading::Waiting));
    assert!(matches!(first_reading(None::<u8>, false), FirstReading::TimedOut));
    assert_eq!((EXIT_NO_INVERTER, EXIT_NO_WALLBOX), (10, 11));
}

#[test]
fn last_known_reading_is_kept_without_a_new_one() {
    let mut known = "old".to_string();
    assert!(!refresh(&mut known, None));
    assert_eq!(known, "old");
    assert!(refresh(&mut known, Some("new".to_string())));
    assert_eq!(known, "new");
}
