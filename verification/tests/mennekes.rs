use wallbox_manager::mennekes::{
    authorize_user, decode, identifier_from, plan, ranges, set_amps, set_amps_write, ActionError,
    ActionPlan,
    MennekesAction, MennekesRegisters, AUTHORIZE_REGISTER, HEMS_CURRENT_REGISTER,
};
use wallbox_manager::registers::{DecodeError, RegisterRange};

fn text_registers(text: &[u8; 20]) -> Vec<u16> {
    text.chunks(2).map(|pair| u16::from(pair[0]) * 256 + u16::from(pair[1])).collect()
}

fn blocks(user: &[u8; 20]) -> MennekesRegisters {
    MennekesRegisters {
        control_pilot: vec![1],
        fault_currents: vec![3, 4],
        measurements: vec![0, 11, 0, 12, 0, 13, 1, 2, 0, 2000, 0, 230, 0, 231, 0, 232],
        signalled: vec![16, 0x6543, 0x2100],
        session: vec![0, 40000, 32, 0, 10500, 0, 300],
        user_id: text_registers(user),
        hems_current: vec![9],
    }
}

#[test]
fn wallbox_blocks_decode_field_by_field() {
    let p = decode(&blocks(b"  04a1b2c3          "), 1_700_000_123).unwrap();
    assert_eq!(p.update, 1_700_000_123);
    assert_eq!(p.control_pilot, 1);
    assert_eq!((p.f_i_ac, p.f_i_dc), (3, 4));
    assert_eq!((p.i_l1, p.i_l2, p.i_l3), (11, 12, 13));
    assert_eq!(p.energy, 65538);
    assert_eq!(p.power, 2000);
    assert_eq!((p.u_l1, p.u_l2, p.u_l3), (230, 231, 232));
    assert_eq!(p.max_allowed_current_signalled, 16);
    assert_eq!(p.start_time, 0x6543_2100);
    assert_eq!(p.ev_required_energy, 40000);
    assert_eq!(p.max_allowed_ev_current, 32);
    assert_eq!(p.current_energy, 10500);
    assert_eq!(p.charging_duration, 300);
    assert_eq!(p.user_id.as_deref(), Some("04a1b2c3"));
    assert_eq!(p.hems_current, 9);
}

#[test]
fn blank_identifier_is_no_identifier() {
    let p = decode(&blocks(b"                    "), 5).unwrap();
    assert_eq!(p.user_id, None);
    let p = decode(&blocks(b" \t\n                 "), 5).unwrap();
    assert_eq!(p.user_id, None);
    let mut empty = blocks(b"                    ");
    empty.user_id = Vec::new();
    assert_eq!(decode(&empty, 5).unwrap().user_id, None);
}

#[test]
fn identifier_keeps_inner_blanks_and_zero_bytes() {
    let p = decode(&blocks(b" AB CD\0\0            "), 5).unwrap();
    assert_eq!(p.user_id.as_deref(), Some("AB CD\0\0"));
}

#[test]
fn missing_registers_are_truncated() {
    let full = blocks(b"04A1B2C3            ");
    let mut b = full.clone();
    b.control_pilot = vec![];
    assert_eq!(decode(&b, 0).unwrap_err(), DecodeError::Truncated);
    let mut b = full.clone();
    b.fault_currents = vec![1];
    assert_eq!(decode(&b, 0).unwrap_err(), DecodeError::Truncated);
    let mut b = full.clone();
    b.measurements.pop();
    assert_eq!(decode(&b, 0).unwrap_err(), DecodeError::Truncated);
    let mut b = full.clone();
    b.signalled.pop();
    assert_eq!(decode(&b, 0).unwrap_err(), DecodeError::Truncated);
    let mut b = full.clone();
    b.session.pop();
    assert_eq!(decode(&b, 0).unwrap_err(), DecodeError::Truncated);
    let mut b = full.clone();
    b.hems_current = vec![];
    assert_eq!(decode(&b, 0).unwrap_err(), DecodeError::Truncated);
}

#[test]
fn malformed_identifier_is_invalid_text() {
    let mut b = blocks(b"04A1B2C3            ");
    b.user_id[3] = 0xff41;
    assert_eq!(decode(&b, 0).unwrap_err(), DecodeError::InvalidText);
    // An earlier block that is short is reported first, a later one after.
    b.session.pop();
    assert_eq!(decode(&b, 0).unwrap_err(), DecodeError::Truncated);
    let mut b = blocks(b"04A1B2C3            ");
    b.user_id[3] = 0xff41;
    b.hems_current = vec![];
    assert_eq!(decode(&b, 0).unwrap_err(), DecodeError::InvalidText);
}

#[test]
fn longer_blocks_decode_by_their_first_registers() {
    let mut b = blocks(b"04A1B2C3            ");
    b.hems_current = vec![7, 99];
    b.control_pilot = vec![2, 99];
    let p = decode(&b, 0).unwrap();
    assert_eq!((p.control_pilot, p.hems_current), (2, 7));
}

#[test]
fn poll_reads_seven_ranges() {
    let list = ranges();
    let expect = [(104, 1), (136, 2), (212, 16), (706, 3), (713, 7), (720, 10), (1000, 1)];
    assert_eq!(list.len(), 7);
    for (range, (address, quantity)) in list.iter().zip(expect) {
        assert_eq!(*range, RegisterRange { address, quantity });
    }
}

#[test]
fn allowed_current_is_compared_before_it_is_written() {
    match plan(&set_amps(10)) {
        ActionPlan::ReadThenSet { address, wanted } => {
            assert_eq!((address, wanted), (HEMS_CURRENT_REGISTER, 10));
        }
        other => panic!("unexpected plan {:?}", other),
    }
    assert_eq!(set_amps_write(&[9], 10), Ok(Some(10)));
    assert_eq!(set_amps_write(&[10], 10), Ok(None));
    assert_eq!(set_amps_write(&[0x0a00], 10), Ok(Some(10)));
    assert_eq!(set_amps_write(&[], 10), Err(DecodeError::Truncated));
}

#[test]
fn current_above_the_limit_is_refused() {
    assert!(matches!(plan(&set_amps(16)), ActionPlan::ReadThenSet { wanted: 16, .. }));
    assert!(matches!(plan(&set_amps(17)), ActionPlan::Rejected(ActionError::IllegalCurrent)));
    assert!(matches!(plan(&set_amps(u16::MAX)), ActionPlan::Rejected(ActionError::IllegalCurrent)));
    assert!(matches!(plan(&set_amps(0)), ActionPlan::ReadThenSet { wanted: 0, .. }));
}

#[test]
fn identifier_is_written_two_bytes_to_a_register() {
    match plan(&authorize_user("04A1".to_string())) {
        ActionPlan::WriteRegisters { address, values } => {
            assert_eq!(address, AUTHORIZE_REGISTER);
            assert_eq!(values, vec![0x3034, 0x4131]);
        }
        other => panic!("unexpected plan {:?}", other),
    }
    match plan(&authorize_user(String::new())) {
        ActionPlan::WriteRegisters { values, .. } => assert!(values.is_empty()),
        other => panic!("unexpected plan {:?}", other),
    }
    assert!(matches!(
        plan(&authorize_user("04A".to_string())),
        ActionPlan::Rejected(ActionError::OddIdentifier)
    ));
    // Two characters, three bytes.
    assert!(matches!(
        plan(&authorize_user("aä".to_string())),
        ActionPlan::Rejected(ActionError::OddIdentifier)
    ));
}

#[test]
fn commands_keep_their_kind_and_payload() {
    assert!(matches!(set_amps(7), MennekesAction::SetAmps(a) if a.max_hems_current == 7));
    assert!(matches!(authorize_user("x".to_string()), MennekesAction::AuthorizeUser(a) if a.user_id == "x"));
}

#[test]
fn empty_text_names_nobody() {
    assert_eq!(identifier_from(String::new()), None);
    assert_eq!(identifier_from(" ".to_string()).as_deref(), Some(" "));
    assert_eq!(identifier_from("04A1".to_string()).as_deref(), Some("04A1"));
}
