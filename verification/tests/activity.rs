use can_dc_fc::activity::{activity_lines, add_to_activity_list};
use can_dc_fc::process_serial::normal_input;
use can_dc_fc::types::{CDState, CarState, ChargeStateEnum};

#[test]
fn entry_is_stamp_separator_and_text() {
    let mut cd = CDState::new();
    add_to_activity_list(&mut cd, 1234, "hello");
    assert_eq!(activity_lines(&cd), vec!["1234 - hello".to_string()]);
}

#[test]
fn stamp_is_written_in_decimal() {
    let mut cd = CDState::new();
    for elapsed in [0u32, 7, 10, 99, 100, 4_000_000_000, u32::MAX] {
        add_to_activity_list(&mut cd, elapsed, "");
    }
    assert_eq!(
        activity_lines(&cd),
        vec![
            "0 - ".to_string(),
            "7 - ".to_string(),
            "10 - ".to_string(),
            "99 - ".to_string(),
            "100 - ".to_string(),
            "4000000000 - ".to_string(),
            "4294967295 - ".to_string(),
        ]
    );
}

#[test]
fn list_keeps_the_eight_latest_entries() {
    let mut cd = CDState::new();
    for elapsed in 0..8u32 {
        add_to_activity_list(&mut cd, elapsed, "x");
        assert_eq!(activity_lines(&cd).len(), elapsed as usize + 1);
    }
    assert_eq!(activity_lines(&cd).first().unwrap(), "0 - x");
    add_to_activity_list(&mut cd, 8, "x");
    let lines = activity_lines(&cd);
    assert_eq!(lines.len(), 8);
    assert_eq!(lines.first().unwrap(), "1 - x");
    assert_eq!(lines.last().unwrap(), "8 - x");
    for elapsed in 9..30u32 {
        add_to_activity_list(&mut cd, elapsed, "x");
    }
    let lines = activity_lines(&cd);
    let expected: Vec<String> = (22..30u32).map(|elapsed| format!("{} - x", elapsed)).collect();
    assert_eq!(lines, expected);
}

#[test]
fn entry_fills_its_sixty_bytes() {
    let mut cd = CDState::new();
    let text = "a".repeat(56);
    add_to_activity_list(&mut cd, 5, &text);
    let lines = activity_lines(&cd);
    assert_eq!(lines[0].len(), 60);
    assert_eq!(lines[0], format!("5 - {}", text));
}

#[test]
fn text_that_does_not_fit_leaves_the_stamp() {
    let mut cd = CDState::new();
    let text = "a".repeat(56);
    add_to_activity_list(&mut cd, 15, &text);
    add_to_activity_list(&mut cd, u32::MAX, &"b".repeat(48));
    add_to_activity_list(&mut cd, u32::MAX, &"b".repeat(47));
    let lines = activity_lines(&cd);
    assert_eq!(lines[0], "15");
    assert_eq!(lines[1], "4294967295");
    assert_eq!(lines[2], format!("4294967295 - {}", "b".repeat(47)));
}

#[test]
fn room_is_counted_in_bytes() {
    let mut cd = CDState::new();
    let umlauts = "\u{fc}".repeat(28);
    add_to_activity_list(&mut cd, 1, &umlauts);
    add_to_activity_list(&mut cd, 10, &umlauts);
    let lines = activity_lines(&cd);
    assert_eq!(lines[0], format!("1 - {}", umlauts));
    assert_eq!(lines[0].len(), 60);
    assert_eq!(lines[1], "10");
}

#[test]
fn entries_of_the_session_are_never_cut() {
    let mut cd = CDState::new();
    let mut car = CarState::new();
    cd.charge_state = ChargeStateEnum::InsulationTest;
    cd.delaycount = 81;
    can_dc_fc::process_cd::init(u32::MAX, &mut cd, &mut car, 0x101, &[]);
    normal_input(0x43, u32::MAX, &mut cd, &mut car);
    normal_input(0x63, u32::MAX, &mut cd, &mut car);
    normal_input(0x00, u32::MAX, &mut cd, &mut car);
    assert_eq!(
        activity_lines(&cd),
        vec![
            "4294967295 - InsulationTest -> WaitVehicleChargeStart".to_string(),
            "4294967295 - User initied stop of charge.".to_string(),
            "4294967295 - StopCharge -> ChargeIdle".to_string(),
            "4294967295 - User initied start of charge.".to_string(),
            "4294967295 - InitiateCharge -> WaitForComms".to_string(),
            "4294967295 - Invalid selection!".to_string(),
        ]
    );
}
