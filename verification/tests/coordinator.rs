use can_dc_fc::activity::activity_lines;
use can_dc_fc::can_receive_logic::FrameError;
use can_dc_fc::coordinator::{fault_line, tick, Foreground};
use can_dc_fc::serial_console::{Opening, Screen};
use can_dc_fc::types::{CDState, CanFrame, CarState, ChargeStateEnum, DataFrame, ID};

fn data_frame(id: u16, data: &[u8]) -> CanFrame {
    CanFrame::DataFrame(DataFrame { id: ID::BaseID(id), data: data.to_vec() })
}

#[test]
fn timer_counts_by_one_and_goes_round() {
    assert_eq!(tick(0), 1);
    assert_eq!(tick(99), 100);
    assert_eq!(tick(u32::MAX - 1), u32::MAX);
    assert_eq!(tick(u32::MAX), 0);
}

#[test]
fn fault_line_stores_the_present_level() {
    assert!(fault_line(Some(true)));
    assert!(!fault_line(Some(false)));
    assert!(!fault_line(None));
}

#[test]
fn periodic_work_is_due_after_a_hundred_milliseconds() {
    let mut loop_state = Foreground::new();
    assert_eq!(loop_state, Foreground { previous_100_ms_ts: 0, hundred_ms_counter: 0 });
    assert!(!loop_state.is_due(0));
    assert!(!loop_state.is_due(99));
    assert!(loop_state.is_due(100));
    assert!(loop_state.is_due(5000));
    loop_state.previous_100_ms_ts = 250;
    assert!(!loop_state.is_due(349));
    assert!(loop_state.is_due(350));
}

#[test]
fn periodic_work_stays_due_across_the_turn_of_the_counter() {
    let loop_state = Foreground { previous_100_ms_ts: u32::MAX - 49, hundred_ms_counter: 0 };
    assert!(!loop_state.is_due(u32::MAX));
    assert!(!loop_state.is_due(0));
    assert!(!loop_state.is_due(49));
    assert!(loop_state.is_due(50));
    assert!(loop_state.is_due(51));
}

#[test]
fn periodic_work_does_not_fire_twice_for_one_interval() {
    let mut loop_state = Foreground::new();
    let mut cd = CDState::new();
    let mut car = CarState::new();
    let mut runs = Vec::new();
    for elapsed in [0u32, 50, 100, 100, 130, 199, 230, 231, 330, 1000, 1099, 1100] {
        let done = loop_state.iterate(&mut cd, &mut car, elapsed, None, None, None);
        if done.periodic.is_some() {
            runs.push(elapsed);
            assert_eq!(loop_state.previous_100_ms_ts, elapsed);
        }
    }
    assert_eq!(runs, vec![100, 230, 330, 1000, 1100]);
    assert_eq!(loop_state.hundred_ms_counter, 5);
}

#[test]
fn relays_follow_the_switches() {
    let mut cd = CDState::new();
    let mut loop_state = Foreground::new();
    let levels = [
        (false, false, false, false),
        (true, false, true, false),
        (false, true, false, false),
        (true, true, true, true),
    ];
    for (one, two, relay_one, relay_two) in levels {
        cd.switch_one = one;
        cd.switch_two = two;
        let work = loop_state.periodic(&mut cd, 100);
        assert_eq!((work.relay_one, work.relay_two), (relay_one, relay_two));
    }
}

#[test]
fn periodic_work_serves_the_requests_of_the_operator() {
    let mut cd = CDState::new();
    let mut loop_state = Foreground { previous_100_ms_ts: 0, hundred_ms_counter: 4 };
    cd.print_menu_request = true;
    cd.quiet_to_verbose = true;
    let work = loop_state.periodic(&mut cd, 700);
    assert_eq!(work.screen, Screen::Quiet { opening: Opening::Menu });
    assert!(work.frames.is_none());
    assert!(!cd.print_menu_request);
    assert!(!cd.quiet_to_verbose);
    assert_eq!(loop_state, Foreground { previous_100_ms_ts: 700, hundred_ms_counter: 5 });
    let work = loop_state.periodic(&mut cd, 800);
    assert_eq!(work.screen, Screen::Blank);
}

#[test]
fn iteration_takes_frames_before_the_command_before_the_periodic_work() {
    let mut loop_state = Foreground::new();
    let mut cd = CDState::new();
    let mut car = CarState::new();
    loop_state.iterate(&mut cd, &mut car, 1, None, None, Some(b'c'));
    assert_eq!(cd.charge_state, ChargeStateEnum::WaitForComms);

    let battery = data_frame(0x100, &[0, 0, 0, 0, 0x90, 0x01, 30, 0]);
    let status = data_frame(0x102, &[0, 0x5E, 0x01, 12, 0, 0x01, 0, 0]);
    let done = loop_state.iterate(&mut cd, &mut car, 100, Some(&battery), Some(&status), Some(b'v'));
    assert_eq!(done.first, Ok(()));
    assert_eq!(done.second, Ok(()));
    assert_eq!(cd.charge_state, ChargeStateEnum::InsulationTest);
    assert_eq!(car.battery_max_voltage, 400);
    assert_eq!(car.voltage_target, 350);
    assert!(cd.verbose_stats);
    assert!(!cd.quiet_to_verbose);
    let work = done.periodic.unwrap();
    let (capability, state) = work.frames.unwrap();
    assert_eq!(capability.data, vec![0x00, 174, 1, 0x20, 50, 0x00, 0x00, 0x00]);
    assert_eq!(state.data, vec![0x02, 0x00, 0x00, 0x00, 0x00, 0x24, 0xFF, 0x10]);
    assert!(work.relay_one);
    assert!(!work.relay_two);
    assert_eq!(work.screen, Screen::Verbose { header: true, detail: false });
    assert_eq!(loop_state, Foreground { previous_100_ms_ts: 100, hundred_ms_counter: 1 });
}

#[test]
fn stop_command_wins_over_the_frame_of_the_same_iteration() {
    let mut loop_state = Foreground::new();
    let mut cd = CDState::new();
    let mut car = CarState::new();
    loop_state.iterate(&mut cd, &mut car, 1, None, None, Some(b'c'));
    let status = data_frame(0x102, &[0, 0x5E, 0x01, 12, 0, 0x01, 0, 0]);
    let done = loop_state.iterate(&mut cd, &mut car, 2, Some(&status), None, Some(b'C'));
    assert!(done.periodic.is_none());
    assert_eq!(cd.charge_state, ChargeStateEnum::ChargeIdle);
    assert!(!cd.enable_can_transmit);
    assert!(!car.charging_enabled);
    assert_eq!(car.voltage_target, 0);
    assert_eq!(car.current_target, 0);
    assert_eq!(car, CarState::new());
    assert_eq!(
        activity_lines(&cd),
        vec![
            "1 - StopCharge -> ChargeIdle".to_string(),
            "1 - User initied start of charge.".to_string(),
            "1 - InitiateCharge -> WaitForComms".to_string(),
            "2 - WaitForComms -> WaitChargeEnable".to_string(),
            "2 - User initied stop of charge.".to_string(),
            "2 - StopCharge -> ChargeIdle".to_string(),
        ]
    );
}

#[test]
fn iteration_reports_a_short_frame_and_goes_on() {
    let mut loop_state = Foreground::new();
    let mut cd = CDState::new();
    let mut car = CarState::new();
    let short = data_frame(0x102, &[1, 2, 3]);
    let whole = data_frame(0x101, &[]);
    let done = loop_state.iterate(&mut cd, &mut car, 40, Some(&short), Some(&whole), None);
    assert_eq!(done.first, Err(FrameError::ShortPayload));
    assert_eq!(done.second, Ok(()));
    assert_eq!(cd.previous_can_ts, 40);
    assert_eq!(cd.charge_state, ChargeStateEnum::ChargeIdle);
    assert_eq!(car, CarState::new());
}

#[test]
fn first_iteration_brings_the_baseline_to_idle() {
    let mut loop_state = Foreground::new();
    let mut cd = CDState::new();
    let mut car = CarState::new();
    assert_eq!(cd.charge_state, ChargeStateEnum::StopCharge);
    let done = loop_state.iterate(&mut cd, &mut car, 0, None, None, None);
    assert!(done.periodic.is_none());
    assert_eq!(cd.charge_state, ChargeStateEnum::ChargeIdle);
    assert_eq!(activity_lines(&cd), vec!["0 - StopCharge -> ChargeIdle".to_string()]);
    loop_state.iterate(&mut cd, &mut car, 1, None, None, None);
    assert_eq!(activity_lines(&cd).len(), 1);
}

#[test]
fn start_command_is_taken_in_the_first_iteration() {
    let mut loop_state = Foreground::new();
    let mut cd = CDState::new();
    let mut car = CarState::new();
    loop_state.iterate(&mut cd, &mut car, 7, None, None, Some(b'c'));
    assert_eq!(cd.charge_state, ChargeStateEnum::WaitForComms);
    assert!(cd.switch_one);
    assert_eq!(
        activity_lines(&cd),
        vec![
            "7 - StopCharge -> ChargeIdle".to_string(),
            "7 - User initied start of charge.".to_string(),
            "7 - InitiateCharge -> WaitForComms".to_string(),
        ]
    );
}

#[test]
fn session_stopped_by_a_frame_ends_in_the_next_iteration() {
    let mut loop_state = Foreground::new();
    let mut cd = CDState::new();
    let mut car = CarState::new();
    cd.charge_state = ChargeStateEnum::ChargeLoop;
    cd.switch_one = true;
    cd.enable_can_transmit = true;
    let malfunction = data_frame(0x102, &[0, 0x5E, 0x01, 12, 0, 0x05, 0, 0]);
    loop_state.iterate(&mut cd, &mut car, 10, Some(&malfunction), None, Some(b'c'));
    assert_eq!(cd.charge_state, ChargeStateEnum::StopCharge);
    assert!(car.malfunction);
    assert!(cd.switch_one);
    loop_state.iterate(&mut cd, &mut car, 11, None, None, None);
    assert_eq!(cd.charge_state, ChargeStateEnum::ChargeIdle);
    assert!(!cd.switch_one);
    assert!(!cd.enable_can_transmit);
    assert_eq!(car, CarState::new());
}
