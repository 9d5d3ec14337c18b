use can_dc_fc::activity::activity_lines;
use can_dc_fc::process_serial::{init as process_serial, normal_input};
use can_dc_fc::serial_console::{display, print_header_to_serial, verbose_footer, Opening, Screen};
use can_dc_fc::types::{CDState, CarState, ChargeStateEnum};

#[test]
fn start_command_powers_the_vehicle_side() {
    let mut cd = CDState::new();
    let mut car = CarState::new();
    normal_input(b'C', 3, &mut cd, &mut car);
    assert_eq!(cd.charge_state, ChargeStateEnum::ChargeIdle);
    normal_input(b'c', 4, &mut cd, &mut car);
    assert_eq!(cd.charge_state, ChargeStateEnum::WaitForComms);
    assert!(cd.switch_one);
    assert!(!cd.switch_two);
    assert_eq!(
        activity_lines(&cd),
        vec![
            "3 - User initied stop of charge.".to_string(),
            "3 - StopCharge -> ChargeIdle".to_string(),
            "4 - User initied start of charge.".to_string(),
            "4 - InitiateCharge -> WaitForComms".to_string(),
        ]
    );
}

#[test]
fn stop_command_ends_the_session_at_once() {
    let mut cd = CDState::new();
    let mut car = CarState::new();
    cd.charge_state = ChargeStateEnum::ChargeLoop;
    cd.switch_one = true;
    cd.switch_two = true;
    cd.latch_enabled = true;
    cd.enable_can_transmit = true;
    cd.current_voltage = 70;
    car.charging_enabled = true;
    car.contactor_open = false;
    car.voltage_target = 380;
    car.battery_max_voltage = 400;
    car.battery_pack_size = 24;
    process_serial(0x43, 77, &mut cd, &mut car);
    assert_eq!(cd.charge_state, ChargeStateEnum::ChargeIdle);
    assert!(!cd.switch_one);
    assert!(!cd.switch_two);
    assert!(!cd.latch_enabled);
    assert!(!cd.enable_can_transmit);
    assert_eq!(cd.current_voltage, 0);
    assert_eq!(car, CarState::new());
}

#[test]
fn screen_commands_set_their_flags() {
    let mut cd = CDState::new();
    let mut car = CarState::new();
    normal_input(b'e', 0, &mut cd, &mut car);
    assert!(cd.quiet_to_verbose);
    assert!(!cd.verbose_stats);
    let mut cd = CDState::new();
    normal_input(b'm', 0, &mut cd, &mut car);
    assert!(cd.print_menu_request);
    let mut cd = CDState::new();
    normal_input(b'v', 0, &mut cd, &mut car);
    assert!(cd.verbose_stats);
    assert!(cd.quiet_to_verbose);
    normal_input(b'V', 0, &mut cd, &mut car);
    assert!(!cd.verbose_stats);
    assert!(cd.quiet_to_verbose);
    assert!(activity_lines(&cd).is_empty());
    assert_eq!(cd.charge_state, ChargeStateEnum::StopCharge);
}

#[test]
fn reserved_commands_are_taken_silently() {
    let mut cd = CDState::new();
    let mut car = CarState::new();
    for command in [b'a', b'A', b'd', b'D', b'r', b'R', b's'] {
        normal_input(command, 1, &mut cd, &mut car);
    }
    assert!(activity_lines(&cd).is_empty());
    assert_eq!(cd.charge_state, ChargeStateEnum::StopCharge);
    assert!(!cd.switch_one);
}

#[test]
fn unknown_command_is_noted() {
    let mut cd = CDState::new();
    let mut car = CarState::new();
    for command in [0x00u8, b'x', b'S', 0xFF] {
        normal_input(command, 12, &mut cd, &mut car);
    }
    assert_eq!(activity_lines(&cd), vec!["12 - Invalid selection!".to_string(); 4]);
    assert_eq!(cd.charge_state, ChargeStateEnum::StopCharge);
    assert_eq!(car, CarState::new());
}

#[test]
fn verbose_screen_shows_header_and_detail_on_their_runs() {
    let mut cd = CDState::new();
    cd.verbose_stats = true;
    assert_eq!(display(&cd, 0), Screen::Verbose { header: true, detail: true });
    assert_eq!(display(&cd, 1), Screen::Verbose { header: false, detail: false });
    assert_eq!(display(&cd, 5), Screen::Verbose { header: false, detail: true });
    assert_eq!(display(&cd, 250), Screen::Verbose { header: true, detail: true });
    cd.quiet_to_verbose = true;
    assert_eq!(display(&cd, 1), Screen::Verbose { header: true, detail: false });
}

#[test]
fn quiet_screen_shows_one_line_on_every_fifth_run() {
    let mut cd = CDState::new();
    assert_eq!(display(&cd, 0), Screen::Quiet { opening: Opening::Hint });
    assert_eq!(display(&cd, 1), Screen::Blank);
    assert_eq!(display(&cd, 5), Screen::Quiet { opening: Opening::Bare });
    assert_eq!(display(&cd, 250), Screen::Quiet { opening: Opening::Hint });
    cd.quiet_to_verbose = true;
    assert_eq!(display(&cd, 5), Screen::Quiet { opening: Opening::Hint });
    assert_eq!(display(&cd, 6), Screen::Blank);
    cd.print_menu_request = true;
    assert_eq!(display(&cd, 5), Screen::Quiet { opening: Opening::Menu });
    assert_eq!(display(&cd, 6), Screen::Blank);
}

#[test]
fn header_lists_the_commands() {
    assert_eq!(
        print_header_to_serial(false),
        vec![
            "Commands: ",
            "c / C - Start / End Charge.",
            "e - Clear / rEfresh the screen.",
            "m - Show menu with verbose disabled.",
            "v / V - Enable / Disable verbose.",
        ]
    );
}

#[test]
fn verbose_header_clears_the_screen_and_ends_with_the_footer() {
    let lines = print_header_to_serial(true);
    assert_eq!(lines.len(), 22);
    assert_eq!(lines[0], "\x1B[2J\x1B[HCommands: ");
    assert_eq!(lines[1..5].to_vec(), print_header_to_serial(false)[1..].to_vec());
    assert_eq!(lines[5..].to_vec(), verbose_footer());
}

#[test]
fn footer_frames_the_activity_list() {
    let lines = verbose_footer();
    assert_eq!(lines.len(), 17);
    assert_eq!(lines[0], "Command? ");
    assert_eq!(lines[2], "                          Activity");
    assert_eq!(lines[3], format!("+{}+", "-".repeat(62)));
    for row in 4..12 {
        assert_eq!(lines[row], format!("|{}|", " ".repeat(62)));
    }
    assert_eq!(lines[12], lines[3]);
    assert_eq!(lines[14], "Charger State:");
    assert_eq!(lines[16], "Car State:");
    assert_eq!(lines[1], "");
    assert_eq!(lines[13], "");
    assert_eq!(lines[15], "");
}

#[test]
fn phases_have_their_labels() {
    assert_eq!(ChargeStateEnum::TimeOut.label(), "Timeout");
    assert_eq!(ChargeStateEnum::ChargeIdle.label(), "Idle");
    assert_eq!(ChargeStateEnum::InitiateCharge.label(), "Initiate Charge");
    assert_eq!(ChargeStateEnum::WaitForComms.label(), "Wait Comms");
    assert_eq!(ChargeStateEnum::WaitChargeEnable.label(), "Wait for Vehicle Enable");
    assert_eq!(ChargeStateEnum::InsulationTest.label(), "Insulation Test");
    assert_eq!(ChargeStateEnum::WaitVehicleChargeStart.label(), "Wait for Vehicle Charge Start");
    assert_eq!(ChargeStateEnum::ChargeLoop.label(), "Charge Loop");
    assert_eq!(ChargeStateEnum::StopCharge.label(), "Stop Charge");
}
