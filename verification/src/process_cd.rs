//! The charge session: the decoder for the vehicle's frames and the state
//! machine that a decoded frame drives.

use crate::activity::{note, noted, short_message};
use crate::types::{CDState, CDStateView, CarState, ChargeStateEnum};
use crate::utils::{stop_charge, stopped};
use vstd::prelude::*;

verus! {

/// How long the insulation test dwells: the session leaves the test on the
/// first evaluation that finds more ticks counted than this.
pub const INSULATION_DWELL: u8 = 80;

/// By how many volts the simulated test voltage rises per tick.
pub const INSULATION_RAMP_STEP: u16 = 10;

/// Whether an identifier is one of the three that the vehicle sends.
pub open spec fn recognized(id: u32) -> bool {
    id == 0x100 || id == 0x101 || id == 0x102
}

/// How many payload bytes the decoder asks of a frame that it reads.
pub const DECODED_PAYLOAD: usize = 7;

/// How many payload bytes the decoder needs of a frame with this identifier:
/// it reads the battery frame and the status frame, and no other.
pub open spec fn payload_needed(id: u32) -> nat {
    if id == 0x100 || id == 0x102 {
        DECODED_PAYLOAD as nat
    } else {
        0
    }
}

/// The sixteen-bit number with these two bytes.
pub open spec fn word(high: u8, low: u8) -> u16 {
    (256 * high + low) as u16
}

/// The flag of the status byte that says the vehicle enables charging.
pub const FLAG_CHARGING_ENABLED: u8 = 0x01;

/// The flag of the status byte that says the vehicle is not parked.
pub const FLAG_NOT_PARKED: u8 = 0x02;

/// The flag of the status byte that says the vehicle has a malfunction.
pub const FLAG_MALFUNCTION: u8 = 0x04;

/// The flag of the status byte that says the vehicle's contactor is open.
pub const FLAG_CONTACTOR_OPEN: u8 = 0x08;

/// The flag of the status byte that asks to stop before the charge.
pub const FLAG_STOP_BEFORE_CHARGE: u8 = 0x10;

/// Whether a flag, which is one bit given by its weight, is set in the
/// byte.
pub open spec fn flag(byte: u8, weight: u8) -> bool {
    (byte / weight) % 2 == 1
}

/// The vehicle data after a frame was decoded. The battery frame carries
/// the maximum voltage in bytes 4 and 5, low byte first, and the pack size in
/// byte 6. The status frame carries the target voltage in bytes 1 and 2, low
/// byte first, the target current in byte 3 and five flags in byte 5. A
/// payload that is shorter than the decoder needs is not read at all: no
/// missing byte is made up, and the vehicle data stays as it is.
pub open spec fn decoded(id: u32, data: Seq<u8>, car: CarState) -> CarState {
    if data.len() < payload_needed(id) {
        car
    } else if id == 0x100 {
        CarState { battery_max_voltage: word(data[5], data[4]), battery_pack_size: data[6], ..car }
    } else if id == 0x102 {
        CarState {
            current_target: data[3],
            voltage_target: word(data[2], data[1]),
            charging_enabled: flag(data[5], FLAG_CHARGING_ENABLED),
            not_park: flag(data[5], FLAG_NOT_PARKED),
            malfunction: flag(data[5], FLAG_MALFUNCTION),
            contactor_open: flag(data[5], FLAG_CONTACTOR_OPEN),
            stop_before_charge: flag(data[5], FLAG_STOP_BEFORE_CHARGE),
            ..car
        }
    } else {
        car
    }
}

/// The simulated test voltage after one tick: ten volts more, but never
/// above the target.
pub open spec fn ramped(current: u16, target: u16) -> u16 {
    if current + INSULATION_RAMP_STEP <= target {
        (current + INSULATION_RAMP_STEP) as u16
    } else {
        target
    }
}

/// One tick of the insulation test.
pub open spec fn insulation_tick(cd: CDStateView, car: CarState, elapsed: u32) -> CDStateView {
    if cd.delaycount > INSULATION_DWELL {
        noted(
            CDStateView {
                charge_state: ChargeStateEnum::WaitVehicleChargeStart,
                delaycount: 0,
                current_voltage: 0,
                switch_two: true,
                ..cd
            },
            elapsed,
            "InsulationTest -> WaitVehicleChargeStart"@,
        )
    } else {
        CDStateView {
            current_voltage: if cd.simulate_insulation_test {
                ramped(cd.current_voltage, car.voltage_target)
            } else {
                cd.current_voltage
            },
            delaycount: (cd.delaycount + 1) as u8,
            ..cd
        }
    }
}

/// The session after a charge was started, where it was to be started.
pub open spec fn started_if(ready: bool, cd: CDStateView, elapsed: u32) -> CDStateView {
    if ready {
        noted(
            CDStateView { start_charge: true, charge_state: ChargeStateEnum::ChargeLoop, ..cd },
            elapsed,
            "WaitVehicleChargeStart -> ChargeLoop"@,
        )
    } else {
        cd
    }
}

/// The session after a stop was asked for with this message, where it was
/// to be asked for.
pub open spec fn stopping_if(due: bool, cd: CDStateView, elapsed: u32, text: Seq<char>) -> CDStateView {
    if due {
        noted(CDStateView { charge_state: ChargeStateEnum::StopCharge, ..cd }, elapsed, text)
    } else {
        cd
    }
}

/// One evaluation while the charger waits for the vehicle to start the
/// charge. The three conditions are taken in turn, each on what the one before
/// left: a closed contactor with current asked for starts the charge, and a
/// vehicle that does not enable charging, or reports a malfunction, stops it.
pub open spec fn await_start(cd: CDStateView, car: CarState, elapsed: u32) -> CDStateView {
    let started = started_if(!car.contactor_open && car.current_target > 0, cd, elapsed);
    let disabled = stopping_if(
        !car.charging_enabled,
        started,
        elapsed,
        "WtVehChgSt -> StopCharge (Chg Disbld)"@,
    );
    stopping_if(car.malfunction, disabled, elapsed, "WtVehChgSt -> StopCharge (Malfunc)"@)
}

/// One evaluation while charging: a vehicle that neither enables charging
/// nor asks for current stops the charge, and so does a malfunction.
pub open spec fn charging(cd: CDStateView, car: CarState, elapsed: u32) -> CDStateView {
    let disabled = stopping_if(
        !car.charging_enabled && car.current_target == 0,
        cd,
        elapsed,
        "ChgLp -> StopCharge (Chg Disbld)"@,
    );
    stopping_if(car.malfunction, disabled, elapsed, "ChgLp -> StopCharge (Malfnctn)"@)
}

/// One evaluation of the session on vehicle data that is up to date.
pub open spec fn evaluated(cd: CDStateView, car: CarState, elapsed: u32, id: u32) -> (
    CDStateView,
    CarState,
) {
    match cd.charge_state {
        ChargeStateEnum::ChargeIdle => (cd, car),
        ChargeStateEnum::InitiateCharge => (cd, car),
        ChargeStateEnum::WaitForComms => if recognized(id) {
            (
                noted(
                    CDStateView {
                        enable_can_transmit: true,
                        charge_state: ChargeStateEnum::WaitChargeEnable,
                        ..cd
                    },
                    elapsed,
                    "WaitForComms -> WaitChargeEnable"@,
                ),
                car,
            )
        } else {
            (cd, car)
        },
        ChargeStateEnum::WaitChargeEnable => if car.charging_enabled {
            (
                noted(
                    CDStateView {
                        latch_enabled: true,
                        charge_state: ChargeStateEnum::InsulationTest,
                        ..cd
                    },
                    elapsed,
                    "WaitChargeEnable -> InsulationTest"@,
                ),
                car,
            )
        } else {
            (cd, car)
        },
        ChargeStateEnum::InsulationTest => (insulation_tick(cd, car, elapsed), car),
        ChargeStateEnum::WaitVehicleChargeStart => (await_start(cd, car, elapsed), car),
        ChargeStateEnum::ChargeLoop => (charging(cd, car, elapsed), car),
        ChargeStateEnum::StopCharge => stopped(cd, car, elapsed),
        ChargeStateEnum::TimeOut => (cd, car),
    }
}

/// What a frame does to the session: the vehicle data is decoded first,
/// whatever the phase, and the session is evaluated on the result. A frame
/// whose payload is shorter than the decoder needs is turned away as a whole
/// and changes nothing.
pub open spec fn processed(cd: CDStateView, car: CarState, elapsed: u32, id: u32, data: Seq<u8>) -> (
    CDStateView,
    CarState,
) {
    if data.len() < payload_needed(id) {
        (cd, car)
    } else {
        evaluated(cd, decoded(id, data, car), elapsed, id)
    }
}

/// Every message that this module writes to the activity list is short
/// enough to be kept in full.
proof fn lemma_messages_are_short()
    ensures
        short_message("WaitForComms -> WaitChargeEnable"@),
        short_message("WaitChargeEnable -> InsulationTest"@),
        short_message("InsulationTest -> WaitVehicleChargeStart"@),
        short_message("WaitVehicleChargeStart -> ChargeLoop"@),
        short_message("WtVehChgSt -> StopCharge (Chg Disbld)"@),
        short_message("WtVehChgSt -> StopCharge (Malfunc)"@),
        short_message("ChgLp -> StopCharge (Chg Disbld)"@),
        short_message("ChgLp -> StopCharge (Malfnctn)"@),
{
    reveal(short_message);
    reveal_strlit("WaitForComms -> WaitChargeEnable");
    reveal_strlit("WaitChargeEnable -> InsulationTest");
    reveal_strlit("InsulationTest -> WaitVehicleChargeStart");
    reveal_strlit("WaitVehicleChargeStart -> ChargeLoop");
    reveal_strlit("WtVehChgSt -> StopCharge (Chg Disbld)");
    reveal_strlit("WtVehChgSt -> StopCharge (Malfunc)");
    reveal_strlit("ChgLp -> StopCharge (Chg Disbld)");
    reveal_strlit("ChgLp -> StopCharge (Malfnctn)");
}

proof fn lemma_word(high: u8, low: u8)
    ensures
        ((high as u16) << 8) | (low as u16) == word(high, low),
{
    assert(((high as u16) << 8) | (low as u16) == (256 * high + low) as u16) by (bit_vector);
}

proof fn lemma_flags(byte: u8)
    ensures
        (byte & FLAG_CHARGING_ENABLED == FLAG_CHARGING_ENABLED) == flag(byte, FLAG_CHARGING_ENABLED),
        (byte & FLAG_NOT_PARKED == FLAG_NOT_PARKED) == flag(byte, FLAG_NOT_PARKED),
        (byte & FLAG_MALFUNCTION == FLAG_MALFUNCTION) == flag(byte, FLAG_MALFUNCTION),
        (byte & FLAG_CONTACTOR_OPEN == FLAG_CONTACTOR_OPEN) == flag(byte, FLAG_CONTACTOR_OPEN),
        (byte & FLAG_STOP_BEFORE_CHARGE == FLAG_STOP_BEFORE_CHARGE) == flag(
            byte,
            FLAG_STOP_BEFORE_CHARGE,
        ),
{
    assert((byte & 0x01 == 0x01) == ((byte / 0x01) % 2 == 1)) by (bit_vector);
    assert((byte & 0x02 == 0x02) == ((byte / 0x02) % 2 == 1)) by (bit_vector);
    assert((byte & 0x04 == 0x04) == ((byte / 0x04) % 2 == 1)) by (bit_vector);
    assert((byte & 0x08 == 0x08) == ((byte / 0x08) % 2 == 1)) by (bit_vector);
    assert((byte & 0x10 == 0x10) == ((byte / 0x10) % 2 == 1)) by (bit_vector);
}

/// Whether the payload is shorter than the decoder needs for the
/// identifier.
fn too_short(id: u32, data: &[u8]) -> (short: bool)
    ensures
        short == (data@.len() < payload_needed(id)),
{
    (id == 0x100 || id == 0x102) && data.len() < DECODED_PAYLOAD
}

/// Decodes a frame into the vehicle data. A payload that is too short
/// leaves the vehicle data as it is.
pub fn update_car_data(id: u32, data: &[u8], car_state: &mut CarState)
    ensures
        *final(car_state) == decoded(id, data@, *old(car_state)),
{
    if too_short(id, data) {
        return ;
    }
    if id == 0x100 {
        proof {
            lemma_word(data@[5], data@[4]);
        }
        car_state.battery_max_voltage = ((data[5] as u16) << 8) | (data[4] as u16);
        car_state.battery_pack_size = data[6];
    }
    if id == 0x102 {
        proof {
            lemma_word(data@[2], data@[1]);
            lemma_flags(data@[5]);
        }
        car_state.current_target = data[3];
        car_state.voltage_target = ((data[2] as u16) << 8) | (data[1] as u16);
        car_state.charging_enabled = (data[5] & FLAG_CHARGING_ENABLED) == FLAG_CHARGING_ENABLED;
        car_state.not_park = (data[5] & FLAG_NOT_PARKED) == FLAG_NOT_PARKED;
        car_state.malfunction = (data[5] & FLAG_MALFUNCTION) == FLAG_MALFUNCTION;
        car_state.contactor_open = (data[5] & FLAG_CONTACTOR_OPEN) == FLAG_CONTACTOR_OPEN;
        car_state.stop_before_charge = (data[5] & FLAG_STOP_BEFORE_CHARGE)
            == FLAG_STOP_BEFORE_CHARGE;
    }
}

fn wait_for_comms(elapsed: u32, cd_state: &mut CDState, car_state: &CarState, id: u32)
    requires
        old(cd_state).charge_state == ChargeStateEnum::WaitForComms,
    ensures
        (final(cd_state)@, *car_state) == evaluated(old(cd_state)@, *car_state, elapsed, id),
{
    if id == 0x100 || id == 0x101 || id == 0x102 {
        cd_state.enable_can_transmit = true;
        cd_state.charge_state = ChargeStateEnum::WaitChargeEnable;
        proof {
            lemma_messages_are_short();
        }
        note(cd_state, elapsed, "WaitForComms -> WaitChargeEnable");
    }
}

fn wait_charge_enable(elapsed: u32, cd_state: &mut CDState, car_state: &CarState, id: u32)
    requires
        old(cd_state).charge_state == ChargeStateEnum::WaitChargeEnable,
    ensures
        (final(cd_state)@, *car_state) == evaluated(old(cd_state)@, *car_state, elapsed, id),
{
    if car_state.charging_enabled {
        proof {
            lemma_messages_are_short();
        }
        note(cd_state, elapsed, "WaitChargeEnable -> InsulationTest");
        cd_state.latch_enabled = true;
        cd_state.charge_state = ChargeStateEnum::InsulationTest;
    }
}

fn insulation_test(elapsed: u32, cd_state: &mut CDState, car_state: &CarState)
    ensures
        final(cd_state)@ == insulation_tick(old(cd_state)@, *car_state, elapsed),
{
    if cd_state.delaycount > INSULATION_DWELL {
        proof {
            lemma_messages_are_short();
        }
        note(cd_state, elapsed, "InsulationTest -> WaitVehicleChargeStart");
        cd_state.charge_state = ChargeStateEnum::WaitVehicleChargeStart;
        cd_state.delaycount = 0;
        cd_state.current_voltage = 0;
        cd_state.switch_two = true;
    } else {
        if cd_state.simulate_insulation_test {
            if cd_state.current_voltage <= car_state.voltage_target && car_state.voltage_target
                - cd_state.current_voltage >= INSULATION_RAMP_STEP {
                cd_state.current_voltage = cd_state.current_voltage + INSULATION_RAMP_STEP;
            } else {
                cd_state.current_voltage = car_state.voltage_target;
            }
        }
        cd_state.delaycount = cd_state.delaycount + 1;
    }
}

fn start_if(ready: bool, elapsed: u32, cd_state: &mut CDState)
    ensures
        final(cd_state)@ == started_if(ready, old(cd_state)@, elapsed),
{
    if ready {
        cd_state.start_charge = true;
        cd_state.charge_state = ChargeStateEnum::ChargeLoop;
        proof {
            lemma_messages_are_short();
        }
        note(cd_state, elapsed, "WaitVehicleChargeStart -> ChargeLoop");
    }
}

fn stop_if(due: bool, elapsed: u32, cd_state: &mut CDState, text: &str)
    requires
        short_message(text@),
    ensures
        final(cd_state)@ == stopping_if(due, old(cd_state)@, elapsed, text@),
{
    if due {
        cd_state.charge_state = ChargeStateEnum::StopCharge;
        note(cd_state, elapsed, text);
    }
}

fn wait_vehicle_charge_start(elapsed: u32, cd_state: &mut CDState, car_state: &CarState)
    ensures
        final(cd_state)@ == await_start(old(cd_state)@, *car_state, elapsed),
{
    proof {
        lemma_messages_are_short();
    }
    start_if(car_state.contactor_open == false && car_state.current_target > 0, elapsed, cd_state);
    stop_if(
        car_state.charging_enabled == false,
        elapsed,
        cd_state,
        "WtVehChgSt -> StopCharge (Chg Disbld)",
    );
    stop_if(car_state.malfunction, elapsed, cd_state, "WtVehChgSt -> StopCharge (Malfunc)");
}

fn charge_loop(elapsed: u32, cd_state: &mut CDState, car_state: &CarState)
    ensures
        final(cd_state)@ == charging(old(cd_state)@, *car_state, elapsed),
{
    proof {
        lemma_messages_are_short();
    }
    stop_if(
        car_state.charging_enabled == false && car_state.current_target == 0,
        elapsed,
        cd_state,
        "ChgLp -> StopCharge (Chg Disbld)",
    );
    stop_if(car_state.malfunction, elapsed, cd_state, "ChgLp -> StopCharge (Malfnctn)");
}

/// Decodes a frame and evaluates the session on it. A frame whose payload
/// is too short changes nothing.
pub fn init(elapsed: u32, cd_state: &mut CDState, car_state: &mut CarState, id: u32, data: &[u8])
    ensures
        (final(cd_state)@, *final(car_state)) == processed(
            old(cd_state)@,
            *old(car_state),
            elapsed,
            id,
            data@,
        ),
{
    if too_short(id, data) {
        return ;
    }
    update_car_data(id, data, car_state);
    match cd_state.charge_state {
        ChargeStateEnum::ChargeIdle => {},
        ChargeStateEnum::InitiateCharge => {},
        ChargeStateEnum::WaitForComms => {
            wait_for_comms(elapsed, cd_state, car_state, id);
        },
        ChargeStateEnum::WaitChargeEnable => {
            wait_charge_enable(elapsed, cd_state, car_state, id);
        },
        ChargeStateEnum::InsulationTest => {
            insulation_test(elapsed, cd_state, car_state);
        },
        ChargeStateEnum::WaitVehicleChargeStart => {
            wait_vehicle_charge_start(elapsed, cd_state, car_state);
        },
        ChargeStateEnum::ChargeLoop => {
            charge_loop(elapsed, cd_state, car_state);
        },
        ChargeStateEnum::StopCharge => {
            stop_charge(cd_state, car_state, elapsed);
        },
        ChargeStateEnum::TimeOut => {},
    }
}

} // verus!
