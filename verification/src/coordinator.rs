//! Time and order: what the two interrupts record, when the periodic work
//! is due, and what one iteration of the foreground loop does with what it
//! polled.

use crate::can_receive_logic::{init as can_receive_logic, received, verdict, FrameError};
use crate::hundred_ms_loop::{counted, frames_for, init as hundred_ms_loop};
use crate::process_serial::{commanded, init as process_serial};
use crate::serial_console::{display as serial_console, screen, Screen};
use crate::types::{CDState, CDStateView, CanFrame, CarState, DataFrame};
use crate::utils::{settle, settled};
use vstd::prelude::*;

verus! {

/// The period of the periodic work, in milliseconds.
pub const HUNDRED_MS: u32 = 100;

/// The millisecond counter after one more timer interrupt. The counter
/// goes round after about forty-nine days.
pub open spec fn ticked(elapsed_ms: u32) -> u32 {
    if elapsed_ms == u32::MAX {
        0
    } else {
        (elapsed_ms + 1) as u32
    }
}

/// How many milliseconds lie between two readings of the millisecond
/// counter, the later of which may have gone round once.
pub open spec fn since(previous: u32, elapsed: u32) -> int {
    if elapsed >= previous {
        elapsed - previous
    } else {
        elapsed - previous + 0x1_0000_0000
    }
}

/// Whether the periodic work is due.
pub open spec fn due(previous: u32, elapsed: u32) -> bool {
    since(previous, elapsed) >= HUNDRED_MS
}

/// One timer interrupt is one millisecond, also where the counter goes
/// round.
pub proof fn lemma_tick_is_one_millisecond(elapsed_ms: u32)
    ensures
        since(elapsed_ms, ticked(elapsed_ms)) == 1,
{
}

/// The periodic work does not run twice for one interval: once it ran at
/// a reading, it is not due at any reading less than a hundred milliseconds
/// later.
pub proof fn lemma_periodic_work_waits(ran: u32, elapsed: u32)
    requires
        since(ran, elapsed) < HUNDRED_MS,
    ensures
        !due(ran, elapsed),
        !due(ran, ran),
{
}

/// What the timer interrupt does to the millisecond counter.
pub fn tick(elapsed_ms: u32) -> (next: u32)
    ensures
        next == ticked(elapsed_ms),
{
    if elapsed_ms == u32::MAX {
        0
    } else {
        elapsed_ms + 1
    }
}

/// What the fault-line interrupt stores: the level that the pin has now.
/// A pin that cannot be read counts as low.
pub fn fault_line(reading: Option<bool>) -> (level: bool)
    ensures
        level == (reading == Some(true)),
{
    match reading {
        Some(high) => high,
        None => false,
    }
}

/// What the foreground loop keeps between its iterations.
#[derive(Clone, Copy, Debug, PartialEq, Eq, Structural)]
pub struct Foreground {
    /// When the periodic work last ran.
    pub previous_100_ms_ts: u32,
    /// How often it ran, counted round after 255.
    pub hundred_ms_counter: u8,
}

/// What one run of the periodic work asks of the devices.
#[derive(Debug)]
pub struct Periodic {
    /// The capability frame and the status frame to send, in this order.
    pub frames: Option<(DataFrame, DataFrame)>,
    /// Whether relay one is driven.
    pub relay_one: bool,
    /// Whether relay two is driven.
    pub relay_two: bool,
    /// What the console shows.
    pub screen: Screen,
}

impl Periodic {
    /// Whether this is the periodic work for a state of the session and a
    /// count of periodic runs: the frames for the state, relay one as switch
    /// one says, relay two only together with relay one, and the screen for
    /// the state and the count.
    pub open spec fn is_for(&self, cd: CDStateView, hundred_ms_counter: u8) -> bool {
        &&& frames_for(self.frames, cd)
        &&& self.relay_one == cd.switch_one
        &&& self.relay_two == (cd.switch_one && cd.switch_two)
        &&& self.screen == screen(cd, hundred_ms_counter)
    }
}

/// What one iteration of the foreground loop did.
#[derive(Debug)]
pub struct Iteration {
    /// How the frame from the first receive queue was taken.
    pub first: Result<(), FrameError>,
    /// How the frame from the second receive queue was taken.
    pub second: Result<(), FrameError>,
    /// The periodic work, where it was due.
    pub periodic: Option<Periodic>,
}

/// How an optional frame is answered.
pub open spec fn answered(frame: Option<CanFrame>) -> Result<(), FrameError> {
    match frame {
        Some(frame) => verdict(frame),
        None => Ok(()),
    }
}

/// What an optional frame does.
pub open spec fn polled(cd: CDStateView, car: CarState, frame: Option<CanFrame>, elapsed: u32) -> (
    CDStateView,
    CarState,
) {
    match frame {
        Some(frame) => received(cd, car, frame, elapsed),
        None => (cd, car),
    }
}

/// What an optional command byte does.
pub open spec fn typed(cd: CDStateView, car: CarState, command: Option<u8>, elapsed: u32) -> (
    CDStateView,
    CarState,
) {
    match command {
        Some(command) => commanded(cd, car, command, elapsed),
        None => (cd, car),
    }
}

/// The session after the inputs of one iteration. A session that has
/// stopped is ended first, which at power-up brings the session from its
/// baseline to idle. Then come the frame from the first receive queue, the one
/// from the second and the command byte.
pub open spec fn taken_in(
    cd: CDStateView,
    car: CarState,
    elapsed: u32,
    first: Option<CanFrame>,
    second: Option<CanFrame>,
    command: Option<u8>,
) -> (CDStateView, CarState) {
    let at_rest = settled(cd, car, elapsed);
    let after_first = polled(at_rest.0, at_rest.1, first, elapsed);
    let after_second = polled(after_first.0, after_first.1, second, elapsed);
    typed(after_second.0, after_second.1, command, elapsed)
}

/// The session after the periodic work: the two requests of the operator
/// that the console has served are taken back.
pub open spec fn served(cd: CDStateView) -> CDStateView {
    CDStateView { quiet_to_verbose: false, print_menu_request: false, ..cd }
}

impl Foreground {
    /// The loop before its first iteration.
    pub open spec fn spec_new() -> Foreground {
        Foreground { previous_100_ms_ts: 0, hundred_ms_counter: 0 }
    }

    /// The loop before its first iteration.
    pub fn new() -> (state: Self)
        ensures
            state == Self::spec_new(),
    {
        Foreground { previous_100_ms_ts: 0, hundred_ms_counter: 0 }
    }

    /// Whether the periodic work is due at this reading of the counter.
    pub fn is_due(&self, elapsed: u32) -> (yes: bool)
        ensures
            yes == due(self.previous_100_ms_ts, elapsed),
    {
        let passed: u32 = if elapsed >= self.previous_100_ms_ts {
            elapsed - self.previous_100_ms_ts
        } else {
            (u32::MAX - self.previous_100_ms_ts) + elapsed + 1
        };
        passed >= HUNDRED_MS
    }

    /// One run of the periodic work: the frames to send, the relay levels
    /// and what the console shows, all for the session as it stands; then the
    /// operator's requests are taken back.
    pub fn periodic(&mut self, cd_state: &mut CDState, elapsed: u32) -> (work: Periodic)
        ensures
            *final(self) == (Foreground {
                previous_100_ms_ts: elapsed,
                hundred_ms_counter: counted(old(self).hundred_ms_counter),
            }),
            final(cd_state)@ == served(old(cd_state)@),
            work.is_for(old(cd_state)@, counted(old(self).hundred_ms_counter)),
    {
        self.previous_100_ms_ts = elapsed;
        let (counter, frames) = hundred_ms_loop(self.hundred_ms_counter, cd_state);
        self.hundred_ms_counter = counter;
        let relay_one = cd_state.switch_one;
        let relay_two = cd_state.switch_one && cd_state.switch_two;
        let screen = serial_console(cd_state, counter);
        if cd_state.quiet_to_verbose {
            cd_state.quiet_to_verbose = false;
        }
        if cd_state.print_menu_request {
            cd_state.print_menu_request = false;
        }
        Periodic { frames, relay_one, relay_two, screen }
    }

    /// One iteration of the foreground loop on what was polled: at most one
    /// frame from each receive queue and at most one command byte. A session
    /// that has stopped is ended first. Then come the frames, then the
    /// command, then the periodic work where it is due, so that each sees what
    /// the one before it did.
    pub fn iterate(
        &mut self,
        cd_state: &mut CDState,
        car_state: &mut CarState,
        elapsed: u32,
        first: Option<&CanFrame>,
        second: Option<&CanFrame>,
        command: Option<u8>,
    ) -> (done: Iteration)
        ensures
            ({
                let input = taken_in(
                    old(cd_state)@,
                    *old(car_state),
                    elapsed,
                    copied(first),
                    copied(second),
                    command,
                );
                let run = due(old(self).previous_100_ms_ts, elapsed);
                let counter = counted(old(self).hundred_ms_counter);
                &&& *final(car_state) == input.1
                &&& final(cd_state)@ == if run {
                    served(input.0)
                } else {
                    input.0
                }
                &&& *final(self) == if run {
                    Foreground { previous_100_ms_ts: elapsed, hundred_ms_counter: counter }
                } else {
                    *old(self)
                }
                &&& done.first == answered(copied(first))
                &&& done.second == answered(copied(second))
                &&& done.periodic.is_some() == run
                &&& done.periodic matches Some(work) ==> work.is_for(input.0, counter)
            }),
    {
        settle(cd_state, car_state, elapsed);
        let first = match first {
            Some(frame) => can_receive_logic(frame, elapsed, cd_state, car_state),
            None => Ok(()),
        };
        let second = match second {
            Some(frame) => can_receive_logic(frame, elapsed, cd_state, car_state),
            None => Ok(()),
        };
        if let Some(byte) = command {
            process_serial(byte, elapsed, cd_state, car_state);
        }
        let periodic = if self.is_due(elapsed) {
            Some(self.periodic(cd_state, elapsed))
        } else {
            None
        };
        Iteration { first, second, periodic }
    }
}

/// The frame behind an optional reference.
pub open spec fn copied(frame: Option<&CanFrame>) -> Option<CanFrame> {
    match frame {
        Some(frame) => Some(*frame),
        None => None,
    }
}

} // verus!
