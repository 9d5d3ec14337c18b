//! The records of a session and the frames on the bus.

use crate::activity::{entries, new_list, ActivityList};
use vstd::prelude::*;

verus! {

/// The phase of a charge session.
#[derive(Clone, Copy, Debug, PartialEq, Eq, Structural)]
pub enum ChargeStateEnum {
    TimeOut,
    ChargeIdle,
    InitiateCharge,
    WaitForComms,
    WaitChargeEnable,
    InsulationTest,
    WaitVehicleChargeStart,
    ChargeLoop,
    StopCharge,
}

impl ChargeStateEnum {
    /// The name of the phase as the console shows it.
    pub open spec fn spec_label(self) -> Seq<char> {
        match self {
            ChargeStateEnum::TimeOut => "Timeout"@,
            ChargeStateEnum::ChargeIdle => "Idle"@,
            ChargeStateEnum::InitiateCharge => "Initiate Charge"@,
            ChargeStateEnum::WaitForComms => "Wait Comms"@,
            ChargeStateEnum::WaitChargeEnable => "Wait for Vehicle Enable"@,
            ChargeStateEnum::InsulationTest => "Insulation Test"@,
            ChargeStateEnum::WaitVehicleChargeStart => "Wait for Vehicle Charge Start"@,
            ChargeStateEnum::ChargeLoop => "Charge Loop"@,
            ChargeStateEnum::StopCharge => "Stop Charge"@,
        }
    }

    /// The name of the phase as the console shows it.
    pub fn label(&self) -> (text: &'static str)
        ensures
            text@ == self.spec_label(),
    {
        match self {
            ChargeStateEnum::TimeOut => "Timeout",
            ChargeStateEnum::ChargeIdle => "Idle",
            ChargeStateEnum::InitiateCharge => "Initiate Charge",
            ChargeStateEnum::WaitForComms => "Wait Comms",
            ChargeStateEnum::WaitChargeEnable => "Wait for Vehicle Enable",
            ChargeStateEnum::InsulationTest => "Insulation Test",
            ChargeStateEnum::WaitVehicleChargeStart => "Wait for Vehicle Charge Start",
            ChargeStateEnum::ChargeLoop => "Charge Loop",
            ChargeStateEnum::StopCharge => "Stop Charge",
        }
    }
}

/// The state of the charger side of a session.
pub struct CDState {
    pub activity_list: ActivityList,
    pub charge_state: ChargeStateEnum,
    pub comm_timeout: bool,
    pub current_voltage: u16,
    pub delaycount: u8,
    pub enable_can_transmit: bool,
    pub evse_request: bool,
    pub latch_enabled: bool,
    pub previous_can_ts: u32,
    pub print_menu_request: bool,
    pub quiet_to_verbose: bool,
    pub simulate_insulation_test: bool,
    pub start_charge: bool,
    pub switch_one: bool,
    pub switch_two: bool,
    pub verbose_stats: bool,
}

/// What a `CDState` holds, with the activity list as the texts of its
/// entries, oldest first.
pub struct CDStateView {
    pub activity_list: Seq<Seq<char>>,
    pub charge_state: ChargeStateEnum,
    pub comm_timeout: bool,
    pub current_voltage: u16,
    pub delaycount: u8,
    pub enable_can_transmit: bool,
    pub evse_request: bool,
    pub latch_enabled: bool,
    pub previous_can_ts: u32,
    pub print_menu_request: bool,
    pub quiet_to_verbose: bool,
    pub simulate_insulation_test: bool,
    pub start_charge: bool,
    pub switch_one: bool,
    pub switch_two: bool,
    pub verbose_stats: bool,
}

impl View for CDState {
    type V = CDStateView;

    open spec fn view(&self) -> CDStateView {
        CDStateView {
            activity_list: entries(self.activity_list),
            charge_state: self.charge_state,
            comm_timeout: self.comm_timeout,
            current_voltage: self.current_voltage,
            delaycount: self.delaycount,
            enable_can_transmit: self.enable_can_transmit,
            evse_request: self.evse_request,
            latch_enabled: self.latch_enabled,
            previous_can_ts: self.previous_can_ts,
            print_menu_request: self.print_menu_request,
            quiet_to_verbose: self.quiet_to_verbose,
            simulate_insulation_test: self.simulate_insulation_test,
            start_charge: self.start_charge,
            switch_one: self.switch_one,
            switch_two: self.switch_two,
            verbose_stats: self.verbose_stats,
        }
    }
}

impl CDState {
    /// The state at power-up: stopped, nothing driven, no frame seen yet and
    /// an empty activity list.
    pub open spec fn spec_new() -> CDStateView {
        CDStateView {
            activity_list: Seq::empty(),
            charge_state: ChargeStateEnum::StopCharge,
            comm_timeout: true,
            current_voltage: 0,
            delaycount: 0,
            enable_can_transmit: false,
            evse_request: false,
            latch_enabled: false,
            previous_can_ts: 0,
            print_menu_request: false,
            quiet_to_verbose: false,
            simulate_insulation_test: false,
            start_charge: false,
            switch_one: false,
            switch_two: false,
            verbose_stats: false,
        }
    }

    /// The state at power-up.
    pub fn new() -> (state: Self)
        ensures
            state@ == Self::spec_new(),
    {
        Self {
            activity_list: new_list(),
            charge_state: ChargeStateEnum::StopCharge,
            comm_timeout: true,
            current_voltage: 0,
            delaycount: 0,
            enable_can_transmit: false,
            evse_request: false,
            latch_enabled: false,
            previous_can_ts: 0,
            print_menu_request: false,
            quiet_to_verbose: false,
            simulate_insulation_test: false,
            start_charge: false,
            switch_one: false,
            switch_two: false,
            verbose_stats: false,
        }
    }
}

/// What the vehicle last reported. Voltages are in volts, the pack size in
/// kilowatt hours and the times in minutes, all as whole numbers: the
/// frames carry no fractions.
#[derive(Clone, Copy, Debug, PartialEq, Eq, Structural)]
pub struct CarState {
    pub battery_over_temperature: bool,
    pub battery_over_voltage: bool,
    pub battery_pack_size: u8,
    pub battery_max_voltage: u16,
    pub battery_under_voltage: bool,
    pub charge_stop_request: bool,
    pub charge_time_estimate: u32,
    pub charge_time_max: u32,
    pub charging_enabled: bool,
    pub charging_malfunction: bool,
    pub contactor_open: bool,
    pub current_deviation: bool,
    pub current_target: u8,
    pub malfunction: bool,
    pub not_park: bool,
    pub stop_before_charge: bool,
    pub voltage_deviation: bool,
    pub voltage_target: u16,
    pub vehicle_parked: bool,
}

impl CarState {
    /// Nothing reported yet: contactor open, vehicle not parked, everything
    /// else zero.
    pub open spec fn spec_new() -> CarState {
        CarState {
            battery_over_temperature: false,
            battery_over_voltage: false,
            battery_pack_size: 0,
            battery_max_voltage: 0,
            battery_under_voltage: false,
            charge_stop_request: false,
            charge_time_estimate: 0,
            charge_time_max: 0,
            charging_enabled: false,
            charging_malfunction: false,
            contactor_open: true,
            current_deviation: false,
            current_target: 0,
            malfunction: false,
            not_park: true,
            stop_before_charge: false,
            voltage_deviation: false,
            voltage_target: 0,
            vehicle_parked: false,
        }
    }

    /// The vehicle data before the vehicle has reported anything.
    pub fn new() -> (state: Self)
        ensures
            state == Self::spec_new(),
    {
        Self {
            battery_over_temperature: false,
            battery_over_voltage: false,
            battery_pack_size: 0,
            battery_max_voltage: 0,
            battery_under_voltage: false,
            charge_stop_request: false,
            charge_time_estimate: 0,
            charge_time_max: 0,
            charging_enabled: false,
            charging_malfunction: false,
            contactor_open: true,
            current_deviation: false,
            current_target: 0,
            malfunction: false,
            not_park: true,
            stop_before_charge: false,
            voltage_deviation: false,
            voltage_target: 0,
            vehicle_parked: false,
        }
    }
}

/// A CAN identifier: eleven bits in the base format, twenty-nine in the
/// extended one.
#[derive(Clone, Copy, Debug, PartialEq, Eq, Structural)]
pub enum ID {
    BaseID(u16),
    ExtendedID(u32),
}

/// A frame that carries data: its identifier and its payload bytes.
#[derive(Clone, Debug)]
pub struct DataFrame {
    pub id: ID,
    pub data: Vec<u8>,
}

/// A frame that asks for data: its identifier and the length asked for.
#[derive(Clone, Copy, Debug, PartialEq, Eq, Structural)]
pub struct RemoteFrame {
    pub id: ID,
    pub dlc: u8,
}

/// A frame as the transceiver hands it over.
#[derive(Clone, Debug)]
pub enum CanFrame {
    DataFrame(DataFrame),
    RemoteFrame(RemoteFrame),
}

} // verus!
