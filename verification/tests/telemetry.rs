use wallbox_manager::telemetry::{
    frame_line, intake_from, parse_number, read_command, remove_failed, FlushSchedule, Intake,
    SET_ENERGY_PATTERN,
};

#[test]
fn failed_readers_leave_and_the_others_keep_their_order() {
    let mut readers = vec!["a", "b", "c", "d", "e", "f"];
    let mut failed = vec![1, 3, 4];
    remove_failed(&mut readers, &mut failed);
    assert_eq!(readers, vec!["a", "c", "f"]);
    assert!(failed.is_empty());
}

#[test]
fn no_failure_removes_nobody() {
    let mut readers = vec![1, 2, 3];
    let mut failed = Vec::new();
    remove_failed(&mut readers, &mut failed);
    assert_eq!(readers, vec![1, 2, 3]);
    let mut nobody: Vec<u8> = Vec::new();
    remove_failed(&mut nobody, &mut failed);
    assert!(nobody.is_empty());
}

#[test]
fn all_readers_may_fail_at_once() {
    let mut readers = vec!['x', 'y', 'z'];
    let mut failed = vec![0, 1, 2];
    remove_failed(&mut readers, &mut failed);
    assert!(readers.is_empty());
    let mut readers = vec!['x', 'y', 'z'];
    let mut failed = vec![0];
    remove_failed(&mut readers, &mut failed);
    assert_eq!(readers, vec!['y', 'z']);
    let mut readers = vec!['x', 'y', 'z'];
    let mut failed = vec![2];
    remove_failed(&mut readers, &mut failed);
    assert_eq!(readers, vec!['x', 'y']);
}

#[test]
fn a_record_becomes_one_line() {
    assert_eq!(frame_line("{\"update\":1}".to_string()), "{\"update\":1}\n");
    assert_eq!(frame_line(String::new()), "\n");
}

#[test]
fn numbers_are_decimal_and_fit_32_bits() {
    assert_eq!(parse_number("0"), Some(0));
    assert_eq!(parse_number("007"), Some(7));
    assert_eq!(parse_number("12000"), Some(12000));
    assert_eq!(parse_number("+15"), Some(15));
    assert_eq!(parse_number("4294967295"), Some(u32::MAX));
    assert_eq!(parse_number("4294967296"), None);
    assert_eq!(parse_number("99999999999999999999999999"), None);
    assert_eq!(parse_number(""), None);
    assert_eq!(parse_number("+"), None);
    assert_eq!(parse_number("-1"), None);
    assert_eq!(parse_number("12a"), None);
    assert_eq!(parse_number("1 2"), None);
    assert_eq!(parse_number("++1"), None);
    assert_eq!(parse_number("٣"), None);
    assert_eq!(parse_number("99999999999999999999x"), None);
}

#[test]
fn numbers_agree_with_the_standard_parser() {
    for text in ["0", "1", "+1", "-0", "", "+", "00", "4294967295", "4294967296", "12x", "x12", " 1"] {
        assert_eq!(parse_number(text), text.parse::<u32>().ok(), "{:?}", text);
    }
}

#[test]
fn set_energy_command_is_found_in_a_text() {
    assert_eq!(SET_ENERGY_PATTERN, "set-energy ([0-9]+)");
    assert_eq!(read_command("set-energy 12000\n"), Intake::SetEnergy(12000));
    assert_eq!(read_command("please set-energy 5 now"), Intake::SetEnergy(5));
    assert_eq!(read_command("set-energy 1 set-energy 2"), Intake::SetEnergy(1));
    assert_eq!(read_command("set-energy 0042kWh"), Intake::SetEnergy(42));
    assert_eq!(read_command("set-energy x set-energy 9"), Intake::SetEnergy(9));
}

#[test]
fn other_texts_hold_no_command() {
    assert_eq!(read_command(""), Intake::Nothing);
    assert_eq!(read_command("hello"), Intake::Nothing);
    assert_eq!(read_command("set-energy"), Intake::Nothing);
    assert_eq!(read_command("set-energy  7"), Intake::Nothing);
    assert_eq!(read_command("set-energy -7"), Intake::Nothing);
    assert_eq!(read_command("SET-ENERGY 7"), Intake::Nothing);
    assert_eq!(read_command("set-energy ٣"), Intake::Nothing);
}

#[test]
fn a_number_that_does_not_fit_is_reported() {
    assert_eq!(read_command("set-energy 4294967295"), Intake::SetEnergy(u32::MAX));
    assert_eq!(read_command("set-energy 4294967296"), Intake::OutOfRange);
    assert_eq!(intake_from(Some("123")), Intake::SetEnergy(123));
    assert_eq!(intake_from(Some("")), Intake::OutOfRange);
    assert_eq!(intake_from(Some("12 3")), Intake::OutOfRange);
    assert_eq!(intake_from(None), Intake::Nothing);
}

#[test]
fn log_is_flushed_once_the_interval_is_over() {
    let second: u128 = 1_000_000_000;
    let mut s = FlushSchedule::starting_at(100 * second, 3600);
    assert!(!s.due(100 * second));
    assert!(!s.due(3700 * second));
    assert!(s.due(3700 * second + 1));
    // The next flush is an interval after the last one.
    assert!(!s.due(7300 * second + 1));
    assert!(s.due(7300 * second + 2));
    let mut never = FlushSchedule::starting_at(u128::MAX - 5, u64::MAX);
    assert!(!never.due(u128::MAX));
    let mut always = FlushSchedule::starting_at(0, 0);
    assert!(!always.due(0));
    assert!(always.due(1));
    assert!(!always.due(1));
}
