//! The way in for frames from the bus: which frames count as the vehicle's,
//! and what a frame does to the session.

use crate::process_cd::{init as process_cd, payload_needed, processed, recognized, DECODED_PAYLOAD};
use crate::types::{CDState, CDStateView, CanFrame, CarState, ID};
use vstd::prelude::*;

verus! {

/// Why a frame from the vehicle was turned away.
#[derive(Clone, Copy, Debug, PartialEq, Eq, Structural)]
pub enum FrameError {
    /// The frame has an identifier that the decoder reads, and fewer
    /// payload bytes than the decoder needs.
    ShortPayload,
}

/// Whether a frame comes from the vehicle's side of the handshake: a data
/// frame whose identifier is in the base format and is one of the three that
/// the vehicle sends. An identifier in the extended format is another
/// identifier, whatever its number.
pub open spec fn qualifying(frame: CanFrame) -> bool {
    &&& frame matches CanFrame::DataFrame(inner)
    &&& inner.id matches ID::BaseID(id)
    &&& recognized(id as u32)
}

/// Whether a frame is taken in: it qualifies and its payload is as long as
/// the decoder needs.
pub open spec fn accepted(frame: CanFrame) -> bool {
    &&& frame matches CanFrame::DataFrame(inner)
    &&& inner.id matches ID::BaseID(id)
    &&& recognized(id as u32)
    &&& inner.data@.len() >= payload_needed(id as u32)
}

/// How a frame is answered: a qualifying frame that is not taken in is
/// an error, every other frame is in order.
pub open spec fn verdict(frame: CanFrame) -> Result<(), FrameError> {
    if qualifying(frame) && !accepted(frame) {
        Err(FrameError::ShortPayload)
    } else {
        Ok(())
    }
}

/// What a received frame does. A frame that is taken in stamps the time
/// of reception, ends the communication timeout and goes on to the decoder and
/// the session. Any other frame changes nothing.
pub open spec fn received(cd: CDStateView, car: CarState, frame: CanFrame, elapsed: u32) -> (
    CDStateView,
    CarState,
) {
    if accepted(frame) {
        processed(
            CDStateView { previous_can_ts: elapsed, comm_timeout: false, ..cd },
            car,
            elapsed,
            frame->DataFrame_0.id->BaseID_0 as u32,
            frame->DataFrame_0.data@,
        )
    } else {
        (cd, car)
    }
}

/// Takes a received frame in. A qualifying frame whose payload is too
/// short is turned away as a whole: it is reported and changes nothing.
pub fn init(can_frame: &CanFrame, elapsed: u32, cd_state: &mut CDState, car_state: &mut CarState) -> (outcome:
    Result<(), FrameError>)
    ensures
        (final(cd_state)@, *final(car_state)) == received(
            old(cd_state)@,
            *old(car_state),
            *can_frame,
            elapsed,
        ),
        outcome == verdict(*can_frame),
{
    if let CanFrame::DataFrame(frame) = can_frame {
        if let ID::BaseID(base) = frame.id {
            let id: u32 = base as u32;
            if id == 0x100 || id == 0x101 || id == 0x102 {
                if (id == 0x100 || id == 0x102) && frame.data.len() < DECODED_PAYLOAD {
                    return Err(FrameError::ShortPayload);
                }
                cd_state.previous_can_ts = elapsed;
                cd_state.comm_timeout = false;
                process_cd(elapsed, cd_state, car_state, id, frame.data.as_slice());
            }
        }
    }
    Ok(())
}

} // verus!
