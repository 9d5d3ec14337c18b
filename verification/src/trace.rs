//! What holds of a session over a whole run of frames.

use crate::can_receive_logic::{accepted, qualifying, received};
use crate::coordinator::taken_in;
use crate::process_cd::{decoded, evaluated, processed, INSULATION_DWELL};
use crate::process_serial::commanded;
use crate::types::{CDState, CDStateView, CanFrame, CarState, ChargeStateEnum};
use crate::utils::settled;
use vstd::prelude::*;

verus! {

/// A frame and the reading of the millisecond counter at which it came.
pub struct Arrival {
    pub frame: CanFrame,
    pub elapsed: u32,
}

/// The session after a run of arrivals, each taken in as it came.
pub open spec fn replayed(cd: CDStateView, car: CarState, arrivals: Seq<Arrival>) -> (
    CDStateView,
    CarState,
)
    decreases arrivals.len(),
{
    if arrivals.len() == 0 {
        (cd, car)
    } else {
        let before = replayed(cd, car, arrivals.drop_last());
        received(before.0, before.1, arrivals.last().frame, arrivals.last().elapsed)
    }
}

/// Whether the arrivals came in the order of their readings.
pub open spec fn in_order(arrivals: Seq<Arrival>) -> bool {
    forall|i: int, j: int|
        0 <= i <= j < arrivals.len() ==> (#[trigger] arrivals[i]).elapsed <= (
        #[trigger] arrivals[j]).elapsed
}

/// Whether every frame of the arrivals is taken in.
pub open spec fn all_accepted(arrivals: Seq<Arrival>) -> bool {
    forall|i: int| 0 <= i < arrivals.len() ==> accepted((#[trigger] arrivals[i]).frame)
}

/// Whether the session may go from one phase to another in one step: it
/// may stay where it is, and it may follow one of the edges of its graph.
pub open spec fn edge(from: ChargeStateEnum, to: ChargeStateEnum) -> bool {
    ||| to == from
    ||| from == ChargeStateEnum::ChargeIdle && to == ChargeStateEnum::WaitForComms
    ||| from == ChargeStateEnum::WaitForComms && to == ChargeStateEnum::WaitChargeEnable
    ||| from == ChargeStateEnum::WaitChargeEnable && to == ChargeStateEnum::InsulationTest
    ||| from == ChargeStateEnum::InsulationTest && to == ChargeStateEnum::WaitVehicleChargeStart
    ||| from == ChargeStateEnum::WaitVehicleChargeStart && to == ChargeStateEnum::ChargeLoop
    ||| from == ChargeStateEnum::WaitVehicleChargeStart && to == ChargeStateEnum::StopCharge
    ||| from == ChargeStateEnum::ChargeLoop && to == ChargeStateEnum::StopCharge
    ||| from == ChargeStateEnum::StopCharge && to == ChargeStateEnum::ChargeIdle
}

/// The phase moves along the graph only. A frame, of whatever kind and
/// length, moves it along an edge or not at all, and so does the look at a
/// session that has stopped. A command byte does the same, but for the
/// operator's stop, which brings every phase to idle at once.
pub proof fn lemma_phase_follows_the_graph(
    cd: CDStateView,
    car: CarState,
    frame: CanFrame,
    command: u8,
    elapsed: u32,
)
    ensures
        edge(cd.charge_state, received(cd, car, frame, elapsed).0.charge_state),
        edge(cd.charge_state, settled(cd, car, elapsed).0.charge_state),
        command != 0x43 ==> edge(cd.charge_state, commanded(cd, car, command, elapsed).0.charge_state),
        command == 0x43 ==> commanded(cd, car, command, elapsed).0.charge_state
            == ChargeStateEnum::ChargeIdle,
{
    if accepted(frame) {
        let id = frame->DataFrame_0.id->BaseID_0 as u32;
        let stamped = CDStateView { previous_can_ts: elapsed, comm_timeout: false, ..cd };
        lemma_evaluation_follows_the_graph(
            stamped,
            decoded(id, frame->DataFrame_0.data@, car),
            elapsed,
            id,
        );
    }
}

/// An evaluation moves the phase along an edge or not at all.
pub proof fn lemma_evaluation_follows_the_graph(cd: CDStateView, car: CarState, elapsed: u32, id: u32)
    ensures
        edge(cd.charge_state, evaluated(cd, car, elapsed, id).0.charge_state),
{
}

/// The request to start a charge is taken from an idle session only: in
/// every other phase it changes nothing at all.
pub proof fn lemma_start_needs_idle(cd: CDStateView, car: CarState, elapsed: u32)
    requires
        cd.charge_state != ChargeStateEnum::ChargeIdle,
    ensures
        commanded(cd, car, 0x63, elapsed) == (cd, car),
{
}

/// The first iteration after power-up brings the session from its
/// baseline to idle before it takes anything in, so that a request to start a
/// charge is taken even in that iteration.
pub proof fn lemma_power_up_settles(car: CarState, elapsed: u32)
    ensures
        settled(CDState::spec_new(), car, elapsed).0.charge_state == ChargeStateEnum::ChargeIdle,
        taken_in(CDState::spec_new(), car, elapsed, None, None, None).0.charge_state
            == ChargeStateEnum::ChargeIdle,
        taken_in(CDState::spec_new(), car, elapsed, None, None, Some(0x63u8)).0.charge_state
            == ChargeStateEnum::WaitForComms,
        taken_in(CDState::spec_new(), car, elapsed, None, None, Some(0x63u8)).0.switch_one,
{
}

/// A frame whose payload is shorter than the decoder needs changes
/// nothing, neither in the vehicle data nor in the session.
pub proof fn lemma_short_payload_changes_nothing(
    cd: CDStateView,
    car: CarState,
    elapsed: u32,
    id: u32,
    data: Seq<u8>,
)
    requires
        (id == 0x100 || id == 0x102) && data.len() < 7,
    ensures
        decoded(id, data, car) == car,
        processed(cd, car, elapsed, id, data) == (cd, car),
{
}

/// Frames that do not qualify change nothing, however many there are. A
/// data frame whose identifier is none of 0x100, 0x101 and 0x102 does not
/// qualify, nor does a frame that carries no data.
pub proof fn lemma_other_frames_change_nothing(cd: CDStateView, car: CarState, arrivals: Seq<Arrival>)
    requires
        forall|i: int| 0 <= i < arrivals.len() ==> !qualifying((#[trigger] arrivals[i]).frame),
    ensures
        replayed(cd, car, arrivals) == (cd, car),
    decreases arrivals.len(),
{
    if arrivals.len() > 0 {
        lemma_other_frames_change_nothing(cd, car, arrivals.drop_last());
        assert(!qualifying(arrivals[arrivals.len() - 1].frame));
    }
}

/// An evaluation of the session leaves the time of the last reception and
/// the communication timeout as they are.
pub proof fn lemma_evaluation_keeps_reception(cd: CDStateView, car: CarState, elapsed: u32, id: u32)
    ensures
        evaluated(cd, car, elapsed, id).0.previous_can_ts == cd.previous_can_ts,
        evaluated(cd, car, elapsed, id).0.comm_timeout == cd.comm_timeout,
{
}

/// A frame that is taken in stamps its reading as the time of the last
/// reception and ends the communication timeout.
pub proof fn lemma_accepted_frame_is_stamped(
    cd: CDStateView,
    car: CarState,
    frame: CanFrame,
    elapsed: u32,
)
    requires
        accepted(frame),
    ensures
        received(cd, car, frame, elapsed).0.previous_can_ts == elapsed,
        !received(cd, car, frame, elapsed).0.comm_timeout,
{
    let id = frame->DataFrame_0.id->BaseID_0 as u32;
    lemma_evaluation_keeps_reception(
        CDStateView { previous_can_ts: elapsed, comm_timeout: false, ..cd },
        decoded(id, frame->DataFrame_0.data@, car),
        elapsed,
        id,
    );
}

/// After a run of frames that are all taken in, the time of the last
/// reception is the reading of the last of them.
pub proof fn lemma_reception_is_latest(cd: CDStateView, car: CarState, arrivals: Seq<Arrival>)
    requires
        all_accepted(arrivals),
        arrivals.len() > 0,
    ensures
        replayed(cd, car, arrivals).0.previous_can_ts == arrivals.last().elapsed,
{
    let before = replayed(cd, car, arrivals.drop_last());
    assert(accepted(arrivals[arrivals.len() - 1].frame));
    lemma_accepted_frame_is_stamped(before.0, before.1, arrivals.last().frame, arrivals.last().elapsed);
}

/// The time of the last reception never goes back while frames that are
/// taken in come in the order of their readings: after any number of them it
/// is at most what it is after more of them.
pub proof fn lemma_reception_does_not_go_back(
    cd: CDStateView,
    car: CarState,
    arrivals: Seq<Arrival>,
    earlier: int,
    later: int,
)
    requires
        all_accepted(arrivals),
        in_order(arrivals),
        1 <= earlier <= later <= arrivals.len(),
    ensures
        replayed(cd, car, arrivals.take(earlier)).0.previous_can_ts <= replayed(
            cd,
            car,
            arrivals.take(later),
        ).0.previous_can_ts,
{
    let first = arrivals.take(earlier);
    let second = arrivals.take(later);
    assert(all_accepted(first)) by {
        assert forall|i: int| 0 <= i < first.len() implies accepted((#[trigger] first[i]).frame) by {
            assert(first[i] == arrivals[i]);
        }
    }
    assert(all_accepted(second)) by {
        assert forall|i: int| 0 <= i < second.len() implies accepted((#[trigger] second[i]).frame) by {
            assert(second[i] == arrivals[i]);
        }
    }
    lemma_reception_is_latest(cd, car, first);
    lemma_reception_is_latest(cd, car, second);
    assert(first.last() == arrivals[earlier - 1]);
    assert(second.last() == arrivals[later - 1]);
}

/// The time of the last reception never goes back, and never lies after
/// the latest reading, while frames of any kind come in the order of their
/// readings to a session whose last reception is not after the first of them.
/// This holds of the session at power-up, whose last reception is at zero.
pub proof fn lemma_reception_is_never_ahead(
    cd: CDStateView,
    car: CarState,
    arrivals: Seq<Arrival>,
    earlier: int,
    later: int,
)
    requires
        in_order(arrivals),
        arrivals.len() > 0,
        cd.previous_can_ts <= arrivals[0].elapsed,
        0 <= earlier <= later <= arrivals.len(),
    ensures
        replayed(cd, car, arrivals.take(earlier)).0.previous_can_ts <= replayed(
            cd,
            car,
            arrivals.take(later),
        ).0.previous_can_ts,
        later > 0 ==> replayed(cd, car, arrivals.take(later)).0.previous_can_ts <= arrivals[later
            - 1].elapsed,
    decreases later,
{
    if later == 0 {
        assert(arrivals.take(0) == Seq::<Arrival>::empty());
    } else {
        let front = arrivals.take(later - 1);
        let whole = arrivals.take(later);
        assert(whole.drop_last() == front);
        assert(whole.last() == arrivals[later - 1]);
        let before = replayed(cd, car, front);
        if later - 1 == 0 {
            assert(front == Seq::<Arrival>::empty());
        } else {
            lemma_reception_is_never_ahead(cd, car, arrivals, later - 1, later - 1);
            assert(arrivals[later - 2].elapsed <= arrivals[later - 1].elapsed);
        }
        assert(before.0.previous_can_ts <= arrivals[later - 1].elapsed);
        if accepted(arrivals[later - 1].frame) {
            lemma_accepted_frame_is_stamped(
                before.0,
                before.1,
                arrivals[later - 1].frame,
                arrivals[later - 1].elapsed,
            );
        }
        if earlier < later {
            lemma_reception_is_never_ahead(cd, car, arrivals, earlier, later - 1);
        }
    }
}

/// While the insulation test dwells, each frame that is taken in counts
/// one tick and leaves the session in the test.
pub proof fn lemma_insulation_test_dwells(cd: CDStateView, car: CarState, arrivals: Seq<Arrival>)
    requires
        cd.charge_state == ChargeStateEnum::InsulationTest,
        all_accepted(arrivals),
        cd.delaycount + arrivals.len() <= INSULATION_DWELL + 1,
    ensures
        replayed(cd, car, arrivals).0.charge_state == ChargeStateEnum::InsulationTest,
        replayed(cd, car, arrivals).0.delaycount == cd.delaycount + arrivals.len(),
        replayed(cd, car, arrivals).0.switch_two == cd.switch_two,
    decreases arrivals.len(),
{
    if arrivals.len() > 0 {
        let front = arrivals.drop_last();
        assert(all_accepted(front)) by {
            assert forall|i: int| 0 <= i < front.len() implies accepted((#[trigger] front[i]).frame) by {
                assert(front[i] == arrivals[i]);
            }
        }
        lemma_insulation_test_dwells(cd, car, front);
        assert(accepted(arrivals[arrivals.len() - 1].frame));
    }
}

/// An insulation test that starts with no tick counted dwells for
/// eighty-one ticks: each of the first eighty-one frames that are taken in
/// counts one, and the frame after them ends the test. The session then waits
/// for the vehicle to start the charge, with relay two on, the count of ticks
/// back at zero and the test voltage back at zero.
pub proof fn lemma_insulation_test_ends(cd: CDStateView, car: CarState, arrivals: Seq<Arrival>)
    requires
        cd.charge_state == ChargeStateEnum::InsulationTest,
        cd.delaycount == 0,
        all_accepted(arrivals),
        arrivals.len() == INSULATION_DWELL + 2,
    ensures
        forall|ticks: int|
            0 <= ticks <= INSULATION_DWELL + 1 ==> {
                let during = #[trigger] replayed(cd, car, arrivals.take(ticks)).0;
                &&& during.charge_state == ChargeStateEnum::InsulationTest
                &&& during.delaycount == ticks
            },
        replayed(cd, car, arrivals).0.charge_state == ChargeStateEnum::WaitVehicleChargeStart,
        replayed(cd, car, arrivals).0.delaycount == 0,
        replayed(cd, car, arrivals).0.current_voltage == 0,
        replayed(cd, car, arrivals).0.switch_two,
{
    assert forall|ticks: int| 0 <= ticks <= INSULATION_DWELL + 1 implies {
        let during = #[trigger] replayed(cd, car, arrivals.take(ticks)).0;
        &&& during.charge_state == ChargeStateEnum::InsulationTest
        &&& during.delaycount == ticks
    } by {
        let front = arrivals.take(ticks);
        assert(all_accepted(front)) by {
            assert forall|i: int| 0 <= i < front.len() implies accepted((#[trigger] front[i]).frame) by {
                assert(front[i] == arrivals[i]);
            }
        }
        lemma_insulation_test_dwells(cd, car, front);
    }
    assert(arrivals.drop_last() == arrivals.take(INSULATION_DWELL + 1));
    let before = replayed(cd, car, arrivals.take(INSULATION_DWELL + 1)).0;
    assert(before.charge_state == ChargeStateEnum::InsulationTest);
    assert(before.delaycount == INSULATION_DWELL + 1);
    assert(accepted(arrivals[arrivals.len() - 1].frame));
}

} // verus!
