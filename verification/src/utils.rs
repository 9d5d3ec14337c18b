//! The end of a session, which is the same whatever ended it.

use crate::activity::{note, noted, short_message};
use crate::types::{CDState, CDStateView, CarState, ChargeStateEnum};
use vstd::prelude::*;

verus! {

/// The vehicle data after a session has ended: everything that the
/// vehicle reports in its frames is back at what it is at power-up. That is no
/// battery data, no target voltage and no target current, charging not
/// enabled, no malfunction and no request to stop, the contactor taken as
/// open and the vehicle taken as not parked.
pub open spec fn scrubbed(car: CarState) -> CarState {
    CarState {
        battery_max_voltage: CarState::spec_new().battery_max_voltage,
        battery_pack_size: CarState::spec_new().battery_pack_size,
        voltage_target: CarState::spec_new().voltage_target,
        current_target: CarState::spec_new().current_target,
        charging_enabled: CarState::spec_new().charging_enabled,
        not_park: CarState::spec_new().not_park,
        malfunction: CarState::spec_new().malfunction,
        contactor_open: CarState::spec_new().contactor_open,
        stop_before_charge: CarState::spec_new().stop_before_charge,
        ..car
    }
}

/// The end of a session: the vehicle data is scrubbed, both relays, the
/// latch and the periodic transmission are switched off, the test voltage is
/// back at zero, the session is idle and the activity list says so.
pub open spec fn stopped(cd: CDStateView, car: CarState, elapsed: u32) -> (CDStateView, CarState) {
    (
        noted(
            CDStateView {
                switch_one: false,
                switch_two: false,
                latch_enabled: false,
                enable_can_transmit: false,
                current_voltage: 0,
                charge_state: ChargeStateEnum::ChargeIdle,
                ..cd
            },
            elapsed,
            "StopCharge -> ChargeIdle"@,
        ),
        scrubbed(car),
    )
}

/// Every message that this module writes to the activity list is short
/// enough to be kept in full.
proof fn lemma_messages_are_short()
    ensures
        short_message("StopCharge -> ChargeIdle"@),
{
    reveal(short_message);
    reveal_strlit("StopCharge -> ChargeIdle");
}

/// Scrubs the vehicle data.
pub fn reset_car_data(car_state: &mut CarState)
    ensures
        *final(car_state) == scrubbed(*old(car_state)),
{
    car_state.battery_max_voltage = 0;
    car_state.battery_pack_size = 0;
    car_state.voltage_target = 0;
    car_state.current_target = 0;
    car_state.charging_enabled = false;
    car_state.not_park = true;
    car_state.malfunction = false;
    car_state.contactor_open = true;
    car_state.stop_before_charge = false;
}

/// Ends the session.
pub fn stop_charge(cd_state: &mut CDState, car_state: &mut CarState, elapsed: u32)
    ensures
        (final(cd_state)@, *final(car_state)) == stopped(old(cd_state)@, *old(car_state), elapsed),
{
    reset_car_data(car_state);
    cd_state.switch_one = false;
    cd_state.switch_two = false;
    cd_state.latch_enabled = false;
    cd_state.enable_can_transmit = false;
    cd_state.current_voltage = 0;
    cd_state.charge_state = ChargeStateEnum::ChargeIdle;
    proof {
        lemma_messages_are_short();
    }
    note(cd_state, elapsed, "StopCharge -> ChargeIdle");
}

/// A session that has stopped ends as soon as it is looked at again; any
/// other session stays as it is.
pub open spec fn settled(cd: CDStateView, car: CarState, elapsed: u32) -> (CDStateView, CarState) {
    if cd.charge_state == ChargeStateEnum::StopCharge {
        stopped(cd, car, elapsed)
    } else {
        (cd, car)
    }
}

/// Ends the session where it has stopped. This is what brings a session
/// from its baseline at power-up to idle.
pub fn settle(cd_state: &mut CDState, car_state: &mut CarState, elapsed: u32)
    ensures
        (final(cd_state)@, *final(car_state)) == settled(old(cd_state)@, *old(car_state), elapsed),
{
    if cd_state.charge_state == ChargeStateEnum::StopCharge {
        stop_charge(cd_state, car_state, elapsed);
    }
}

/// Vehicle data that was never reported is as scrubbed vehicle data is.
pub proof fn lemma_scrub_is_power_up()
    ensures
        scrubbed(CarState::spec_new()) == CarState::spec_new(),
{
}

/// Scrubbing vehicle data that has been scrubbed changes nothing.
pub proof fn lemma_scrub_is_idempotent(car: CarState)
    ensures
        scrubbed(scrubbed(car)) == scrubbed(car),
{
}

/// Ending a session twice in a row leaves the vehicle data as ending it
/// once does, whatever the two time stamps are.
pub proof fn lemma_stop_twice_scrubs_once(cd: CDStateView, car: CarState, first: u32, second: u32)
    ensures
        stopped(stopped(cd, car, first).0, stopped(cd, car, first).1, second).1 == stopped(
            cd,
            car,
            first,
        ).1,
        stopped(stopped(cd, car, first).0, stopped(cd, car, first).1, second).0.charge_state
            == ChargeStateEnum::ChargeIdle,
{
}

} // verus!
