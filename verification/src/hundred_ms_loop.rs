//! The frames that the charger sends every hundred milliseconds while the
//! session has enabled transmission.

use crate::types::{CDState, CDStateView, DataFrame, ID};
use vstd::prelude::*;

verus! {

/// The identifier of the frame that states what the charger can do.
pub const CAPABILITY_ID: u16 = 0x108;

/// The identifier of the frame that states what the charger is doing.
pub const STATUS_ID: u16 = 0x109;

/// The status bit that says the charger is active.
pub const STATUS_CHARGE: u8 = 1;

/// The status bit that says the connector is locked.
pub const STATUS_CONNLOCK: u8 = 4;

/// The status bit that says the charger is stopped.
pub const STATUS_STOPPED: u8 = 32;

/// The payload of the capability frame: no weld check, 430 V available in
/// bytes 1 and 2, 32 A available, a threshold of 50 V.
pub open spec fn capability_payload() -> Seq<u8> {
    seq![0x00u8, 174u8, 1u8, 0x20u8, 50u8, 0x00u8, 0x00u8, 0x00u8]
}

/// The status byte. It starts as "stopped"; a locked connector adds its
/// bit; a charge that was started takes "stopped" off and puts "active" on.
pub open spec fn status_byte(latch_enabled: bool, start_charge: bool) -> u8 {
    let locked = if latch_enabled {
        STATUS_STOPPED + STATUS_CONNLOCK
    } else {
        STATUS_STOPPED as int
    };
    if start_charge {
        (locked - STATUS_STOPPED + STATUS_CHARGE) as u8
    } else {
        locked as u8
    }
}

/// The payload of the status frame: protocol 2, no voltage and current
/// measured, the status byte, and the time left as "unknown".
pub open spec fn status_payload(latch_enabled: bool, start_charge: bool) -> Seq<u8> {
    seq![
        0x02u8,
        0x00u8,
        0x00u8,
        0x00u8,
        0x00u8,
        status_byte(latch_enabled, start_charge),
        0xFFu8,
        0x10u8,
    ]
}

/// Whether these are the frames that a periodic run sends for a state of
/// the session: none while transmission is not enabled, else the capability
/// frame and the status frame, in this order.
pub open spec fn frames_for(frames: Option<(DataFrame, DataFrame)>, cd: CDStateView) -> bool {
    match frames {
        Some((capability, status)) => {
            &&& cd.enable_can_transmit
            &&& capability.id == ID::BaseID(CAPABILITY_ID)
            &&& capability.data@ == capability_payload()
            &&& status.id == ID::BaseID(STATUS_ID)
            &&& status.data@ == status_payload(cd.latch_enabled, cd.start_charge)
        },
        None => !cd.enable_can_transmit,
    }
}

/// The counter of periodic runs after one more: it goes round after 255.
pub open spec fn counted(hundred_ms_counter: u8) -> u8 {
    if hundred_ms_counter < 255 {
        (hundred_ms_counter + 1) as u8
    } else {
        0
    }
}

/// The four values of the status byte.
pub proof fn lemma_status_byte_values()
    ensures
        status_byte(false, false) == 0x20,
        status_byte(true, false) == 0x24,
        status_byte(false, true) == 0x01,
        status_byte(true, true) == 0x05,
{
}

/// The periodic work: where transmission is enabled, the capability frame
/// and the status frame to send, in this order; and the counter of runs.
pub fn init(hundred_ms_counter: u8, cd_state: &CDState) -> (out: (u8, Option<(DataFrame, DataFrame)>))
    ensures
        out.0 == counted(hundred_ms_counter),
        frames_for(out.1, cd_state@),
{
    let frames = if cd_state.enable_can_transmit {
        Some((params108(), status109(cd_state)))
    } else {
        None
    };
    let counter: u8 = if hundred_ms_counter < 255 {
        hundred_ms_counter + 1
    } else {
        0
    };
    (counter, frames)
}

/// The capability frame.
pub fn params108() -> (frame: DataFrame)
    ensures
        frame.id == ID::BaseID(CAPABILITY_ID),
        frame.data@ == capability_payload(),
{
    let mut data: Vec<u8> = Vec::new();
    data.push(0x00);
    data.push(174);
    data.push(1);
    data.push(0x20);
    data.push(50);
    data.push(0x00);
    data.push(0x00);
    data.push(0x00);
    DataFrame { id: ID::BaseID(CAPABILITY_ID), data }
}

/// The status frame for the state that the session is in.
pub fn status109(cd_state: &CDState) -> (frame: DataFrame)
    ensures
        frame.id == ID::BaseID(STATUS_ID),
        frame.data@ == status_payload(cd_state.latch_enabled, cd_state.start_charge),
{
    let mut status: u8 = STATUS_STOPPED;
    if cd_state.latch_enabled {
        status = status + STATUS_CONNLOCK;
    }
    if cd_state.start_charge {
        status = status - STATUS_STOPPED;
        status = status + STATUS_CHARGE;
    }
    let mut data: Vec<u8> = Vec::new();
    data.push(0x02);
    data.push(0x00);
    data.push(0x00);
    data.push(0x00);
    data.push(0x00);
    data.push(status);
    data.push(0xFF);
    data.push(0x10);
    DataFrame { id: ID::BaseID(STATUS_ID), data }
}

} // verus!
