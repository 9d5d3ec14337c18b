//! The operator's commands, one byte each.

use crate::activity::{note, noted, short_message};
use crate::types::{CDState, CDStateView, CarState, ChargeStateEnum};
use crate::utils::{stop_charge, stopped};
use vstd::prelude::*;

verus! {

/// Whether a command byte is set aside for later use: such a byte is
/// taken and does nothing.
pub open spec fn reserved(command: u8) -> bool {
    ||| command == 0x61
    ||| command == 0x41
    ||| command == 0x64
    ||| command == 0x44
    ||| command == 0x72
    ||| command == 0x52
    ||| command == 0x73
}

/// What the request to start a charge does. An idle session starts: relay
/// one powers the vehicle's side and the session waits for the vehicle to
/// speak; the list gets two entries, the request and the transition. In every
/// other phase the request is not taken and nothing changes, so that a
/// session under way is never thrown back.
pub open spec fn start_requested(cd: CDStateView, elapsed: u32) -> CDStateView {
    if cd.charge_state == ChargeStateEnum::ChargeIdle {
        noted(
            CDStateView {
                switch_one: true,
                charge_state: ChargeStateEnum::WaitForComms,
                ..noted(cd, elapsed, "User initied start of charge."@)
            },
            elapsed,
            "InitiateCharge -> WaitForComms"@,
        )
    } else {
        cd
    }
}

/// What the request to stop the charge does, in whatever phase it comes:
/// the list notes it and the session ends at once, as it ends for any other
/// cause.
pub open spec fn stop_requested(cd: CDStateView, car: CarState, elapsed: u32) -> (
    CDStateView,
    CarState,
) {
    stopped(
        noted(
            CDStateView { charge_state: ChargeStateEnum::StopCharge, ..cd },
            elapsed,
            "User initied stop of charge."@,
        ),
        car,
        elapsed,
    )
}

/// What one command byte from the console does.
pub open spec fn commanded(cd: CDStateView, car: CarState, command: u8, elapsed: u32) -> (
    CDStateView,
    CarState,
) {
    if command == 0x63 {
        (start_requested(cd, elapsed), car)
    } else if command == 0x43 {
        stop_requested(cd, car, elapsed)
    } else if command == 0x65 {
        (CDStateView { quiet_to_verbose: true, ..cd }, car)
    } else if command == 0x6D {
        (CDStateView { print_menu_request: true, ..cd }, car)
    } else if command == 0x76 {
        (CDStateView { verbose_stats: true, quiet_to_verbose: true, ..cd }, car)
    } else if command == 0x56 {
        (CDStateView { verbose_stats: false, ..cd }, car)
    } else if reserved(command) {
        (cd, car)
    } else {
        (noted(cd, elapsed, "Invalid selection!"@), car)
    }
}

/// Every message that this module writes to the activity list is short
/// enough to be kept in full.
proof fn lemma_messages_are_short()
    ensures
        short_message("User initied start of charge."@),
        short_message("InitiateCharge -> WaitForComms"@),
        short_message("User initied stop of charge."@),
        short_message("Invalid selection!"@),
{
    reveal(short_message);
    reveal_strlit("User initied start of charge.");
    reveal_strlit("InitiateCharge -> WaitForComms");
    reveal_strlit("User initied stop of charge.");
    reveal_strlit("Invalid selection!");
}

fn request_start(elapsed: u32, cd_state: &mut CDState)
    ensures
        final(cd_state)@ == start_requested(old(cd_state)@, elapsed),
{
    if cd_state.charge_state == ChargeStateEnum::ChargeIdle {
        proof {
            lemma_messages_are_short();
        }
        note(cd_state, elapsed, "User initied start of charge.");
        cd_state.switch_one = true;
        cd_state.charge_state = ChargeStateEnum::WaitForComms;
        note(cd_state, elapsed, "InitiateCharge -> WaitForComms");
    }
}

fn request_stop(elapsed: u32, cd_state: &mut CDState, car_state: &mut CarState)
    ensures
        (final(cd_state)@, *final(car_state)) == stop_requested(
            old(cd_state)@,
            *old(car_state),
            elapsed,
        ),
{
    cd_state.charge_state = ChargeStateEnum::StopCharge;
    proof {
        lemma_messages_are_short();
    }
    note(cd_state, elapsed, "User initied stop of charge.");
    stop_charge(cd_state, car_state, elapsed);
}

/// Takes one command byte from the console.
pub fn init(command: u8, elapsed: u32, cd_state: &mut CDState, car_state: &mut CarState)
    ensures
        (final(cd_state)@, *final(car_state)) == commanded(
            old(cd_state)@,
            *old(car_state),
            command,
            elapsed,
        ),
{
    normal_input(command, elapsed, cd_state, car_state);
}

/// Takes one command byte while the console is in its normal mode.
pub fn normal_input(command: u8, elapsed: u32, cd_state: &mut CDState, car_state: &mut CarState)
    ensures
        (final(cd_state)@, *final(car_state)) == commanded(
            old(cd_state)@,
            *old(car_state),
            command,
            elapsed,
        ),
{
    match command {
        // a, A
        0x61 | 0x41 => {},
        // c
        0x63 => {
            request_start(elapsed, cd_state);
        },
        // C
        0x43 => {
            request_stop(elapsed, cd_state, car_state);
        },
        // d, D
        0x64 | 0x44 => {},
        // e
        0x65 => {
            cd_state.quiet_to_verbose = true;
        },
        // m
        0x6D => {
            cd_state.print_menu_request = true;
        },
        // r, R, s
        0x72 | 0x52 | 0x73 => {},
        // v
        0x76 => {
            cd_state.verbose_stats = true;
            cd_state.quiet_to_verbose = true;
        },
        // V
        0x56 => {
            cd_state.verbose_stats = false;
        },
        _ => {
            proof {
                lemma_messages_are_short();
            }
            note(cd_state, elapsed, "Invalid selection!");
        },
    }
}

} // verus!
