//! Emulated time and the two interrupts of each frame.
//!
//! The video hardware interrupts the CPU twice in each frame: once when
//! the beam is in the middle of the screen and once when it has reached
//! the end. The clock counts emulated nanoseconds and keeps one mark for
//! each of the two: the time at which it is due next. A step raises at
//! most one interrupt, the end-of-frame one first, and moves the mark of
//! the interrupt it raised on by one frame period.

use crate::layout::{DISPLAY_TIME_NANO_SEC, FRAMES_PER_SECOND, MID_FRAME_NANO_SEC};
use vstd::prelude::*;

verus! {

/// One of the two interrupts of a frame.
#[derive(Clone, Copy, PartialEq, Eq, Debug, Structural)]
pub enum Interrupt {
    /// The beam is in the middle of the screen.
    MidFrame,
    /// The beam has reached the end of the screen: the frame is complete
    /// and is shown.
    EndOfFrame,
}

/// `x` as the 64-bit counter holds it: counters wrap round.
pub open spec fn wrapped(x: int) -> u64 {
    (x % 0x1_0000_0000_0000_0000) as u64
}

/// The emulated nanoseconds that `cycles` CPU cycles of `cycle_nanos`
/// nanoseconds each take.
pub open spec fn emulated_time(cycles: u64, cycle_nanos: u64) -> u64 {
    wrapped(cycles * cycle_nanos)
}

/// The emulated time, and when each interrupt is due next.
#[derive(Clone, Copy, PartialEq, Eq, Debug, Structural)]
pub struct Clock {
    /// Emulated nanoseconds since the start.
    pub emu_clock: u64,
    /// When the end-of-frame interrupt is due next.
    pub next_display_time: u64,
    /// When the mid-frame interrupt is due next.
    pub next_screen_int_time: u64,
}

impl Clock {
    /// The clock at the start: the mid-frame interrupt is due first, the
    /// end-of-frame interrupt at the end of the first frame.
    pub open spec fn start() -> Clock {
        Clock {
            emu_clock: 0,
            next_display_time: DISPLAY_TIME_NANO_SEC,
            next_screen_int_time: MID_FRAME_NANO_SEC,
        }
    }

    /// The interrupt that a step of `elapsed` nanoseconds raises.
    pub open spec fn due(self, elapsed: u64) -> Option<Interrupt> {
        let now = wrapped(self.emu_clock + elapsed);
        if self.next_display_time <= now {
            Some(Interrupt::EndOfFrame)
        } else if self.next_screen_int_time <= now {
            Some(Interrupt::MidFrame)
        } else {
            None
        }
    }

    /// The clock after a step of `elapsed` nanoseconds.
    pub open spec fn advanced(self, elapsed: u64) -> Clock {
        let now = wrapped(self.emu_clock + elapsed);
        match self.due(elapsed) {
            Some(Interrupt::EndOfFrame) => Clock {
                emu_clock: now,
                next_display_time: wrapped(self.next_display_time + DISPLAY_TIME_NANO_SEC),
                next_screen_int_time: self.next_screen_int_time,
            },
            Some(Interrupt::MidFrame) => Clock {
                emu_clock: now,
                next_display_time: self.next_display_time,
                next_screen_int_time: wrapped(self.next_screen_int_time + DISPLAY_TIME_NANO_SEC),
            },
            None => Clock {
                emu_clock: now,
                next_display_time: self.next_display_time,
                next_screen_int_time: self.next_screen_int_time,
            },
        }
    }

    /// The clock after the steps of `steps`, one after the other.
    pub open spec fn run(self, steps: Seq<u64>) -> Clock
        decreases steps.len(),
    {
        if steps.len() == 0 {
            self
        } else {
            self.run(steps.drop_last()).advanced(steps.last())
        }
    }

    /// How often the steps of `steps` raise the interrupt `kind`.
    pub open spec fn raised(self, steps: Seq<u64>, kind: Interrupt) -> nat
        decreases steps.len(),
    {
        if steps.len() == 0 {
            0
        } else {
            self.raised(steps.drop_last(), kind) + (if self.run(steps.drop_last()).due(steps.last())
                == Some(kind) {
                1nat
            } else {
                0nat
            })
        }
    }

    /// The clock at the start.
    pub fn new() -> (clock: Clock)
        ensures
            clock == Clock::start(),
    {
        Clock {
            emu_clock: 0,
            next_display_time: DISPLAY_TIME_NANO_SEC,
            next_screen_int_time: MID_FRAME_NANO_SEC,
        }
    }

    /// Lets `elapsed` emulated nanoseconds pass and returns the interrupt
    /// that is to be raised now, if one is.
    pub fn advance(&mut self, elapsed: u64) -> (interrupt: Option<Interrupt>)
        ensures
            interrupt == old(self).due(elapsed),
            *final(self) == old(self).advanced(elapsed),
    {
        self.emu_clock = self.emu_clock.wrapping_add(elapsed);
        if self.next_display_time <= self.emu_clock {
            self.next_display_time = self.next_display_time.wrapping_add(DISPLAY_TIME_NANO_SEC);
            Some(Interrupt::EndOfFrame)
        } else if self.next_screen_int_time <= self.emu_clock {
            self.next_screen_int_time = self.next_screen_int_time.wrapping_add(
                DISPLAY_TIME_NANO_SEC,
            );
            Some(Interrupt::MidFrame)
        } else {
            None
        }
    }
}

/// The emulated nanoseconds that `cycles` CPU cycles of `cycle_nanos`
/// nanoseconds each take.
pub fn emulated_nanos(cycles: u64, cycle_nanos: u64) -> (nanos: u64)
    ensures
        nanos == emulated_time(cycles, cycle_nanos),
{
    cycles.wrapping_mul(cycle_nanos)
}

/// What to do at the end of a batch of steps.
#[derive(Clone, Copy, PartialEq, Eq, Debug, Structural)]
pub enum Pace {
    /// The host was faster than the board: wait so long.
    Sleep { nanos: u64 },
    /// The host was not faster than the board: go on at once.
    Overrun,
}

/// The nanoseconds that `steps` take together.
pub open spec fn total(steps: Seq<u64>) -> int
    decreases steps.len(),
{
    if steps.len() == 0 {
        0
    } else {
        total(steps.drop_last()) + steps.last()
    }
}

/// Holds the emulated time of a batch of steps against the time that the
/// host took for it.
pub fn pace(emulated_nanos: u64, elapsed_nanos: u128) -> (pace: Pace)
    ensures
        emulated_nanos > elapsed_nanos ==> pace == (Pace::Sleep {
            nanos: (emulated_nanos - elapsed_nanos) as u64,
        }),
        emulated_nanos <= elapsed_nanos ==> pace == Pace::Overrun,
{
    if emulated_nanos as u128 > elapsed_nanos {
        Pace::Sleep { nanos: (emulated_nanos as u128 - elapsed_nanos) as u64 }
    } else {
        Pace::Overrun
    }
}

/// The frames that have ended by the time `t`: the full frame periods in
/// `t`.
pub open spec fn frames_ended(t: int) -> int {
    t / (DISPLAY_TIME_NANO_SEC as int)
}

/// The frames whose middle has been reached by the time `t`.
pub open spec fn frames_halved(t: int) -> int {
    (t + DISPLAY_TIME_NANO_SEC - MID_FRAME_NANO_SEC) / (DISPLAY_TIME_NANO_SEC as int)
}

/// The interrupts keep their cadence as long as no step is longer than the
/// time from the start of a frame to its middle, and the counters have not
/// wrapped: by the time `t`, the end-of-frame interrupt has been raised
/// once for each full frame period in `t`, and the mid-frame interrupt once
/// for each frame whose middle lies in `t`. The marks stand at the next
/// end and the next middle of a frame.
pub proof fn lemma_cadence(steps: Seq<u64>)
    requires
        forall|i: int| 0 <= i < steps.len() ==> steps[i] <= MID_FRAME_NANO_SEC,
        total(steps) + DISPLAY_TIME_NANO_SEC <= u64::MAX,
    ensures
        0 <= total(steps),
        Clock::start().run(steps).emu_clock == total(steps),
        Clock::start().run(steps).next_display_time == (frames_ended(total(steps)) + 1)
            * DISPLAY_TIME_NANO_SEC,
        Clock::start().run(steps).next_screen_int_time == frames_halved(total(steps))
            * DISPLAY_TIME_NANO_SEC + MID_FRAME_NANO_SEC,
        Clock::start().raised(steps, Interrupt::EndOfFrame) == frames_ended(total(steps)),
        Clock::start().raised(steps, Interrupt::MidFrame) == frames_halved(total(steps)),
    decreases steps.len(),
{
    if steps.len() > 0 {
        let before = steps.drop_last();
        lemma_total_is_not_negative(before);
        lemma_cadence(before);
        let clock = Clock::start().run(before);
        lemma_marks_passed(total(before), steps.last() as int);
        assert(wrapped(clock.emu_clock + steps.last()) == total(steps));
        assert(Clock::start().run(steps) == clock.advanced(steps.last()));
    }
}

/// Which marks a short step passes: at most one, and the end of a frame
/// exactly where the count of full frame periods grows, the middle of a
/// frame exactly where the count of middles grows.
proof fn lemma_marks_passed(t: int, step: int)
    requires
        0 <= t,
        0 <= step <= 7_142_857,
    ensures
        (t / 16_666_667 + 1) * 16_666_667 <= t + step <==> (t + step) / 16_666_667 == t
            / 16_666_667 + 1,
        (t / 16_666_667 + 1) * 16_666_667 > t + step <==> (t + step) / 16_666_667 == t
            / 16_666_667,
        ((t + 9_523_810) / 16_666_667) * 16_666_667 + 7_142_857 <= t + step <==> (t + step
            + 9_523_810) / 16_666_667 == (t + 9_523_810) / 16_666_667 + 1,
        ((t + 9_523_810) / 16_666_667) * 16_666_667 + 7_142_857 > t + step <==> (t + step
            + 9_523_810) / 16_666_667 == (t + 9_523_810) / 16_666_667,
        !((t + step) / 16_666_667 == t / 16_666_667 + 1 && (t + step + 9_523_810) / 16_666_667
            == (t + 9_523_810) / 16_666_667 + 1),
        0 <= (t / 16_666_667 + 1) * 16_666_667 <= t + 16_666_667,
        0 <= ((t + 9_523_810) / 16_666_667) * 16_666_667 + 7_142_857 <= t + 16_666_667,
{
}

/// Steps take no negative time.
pub proof fn lemma_total_is_not_negative(steps: Seq<u64>)
    ensures
        0 <= total(steps),
    decreases steps.len(),
{
    if steps.len() > 0 {
        lemma_total_is_not_negative(steps.drop_last());
    }
}

/// The first steps of a run take no longer than the whole run.
pub proof fn lemma_total_of_prefix(steps: Seq<u64>, n: int)
    requires
        0 <= n <= steps.len(),
    ensures
        0 <= total(steps.take(n)) <= total(steps),
    decreases steps.len(),
{
    lemma_total_is_not_negative(steps);
    if n == steps.len() {
        assert(steps.take(n) =~= steps);
    } else {
        assert(steps.drop_last().take(n) =~= steps.take(n));
        lemma_total_of_prefix(steps.drop_last(), n);
    }
}

/// At every moment of such a run the two interrupts have alternated, the
/// mid-frame interrupt first: after any number of steps, either both have
/// been raised equally often or the mid-frame interrupt once more. When
/// the frame periods of one second have passed, each has been raised once
/// for each of these frames.
pub proof fn lemma_interrupts_alternate(steps: Seq<u64>, n: int)
    requires
        forall|i: int| 0 <= i < steps.len() ==> steps[i] <= MID_FRAME_NANO_SEC,
        total(steps) + DISPLAY_TIME_NANO_SEC <= u64::MAX,
        0 <= n <= steps.len(),
    ensures
        Clock::start().raised(steps.take(n), Interrupt::EndOfFrame) <= Clock::start().raised(
            steps.take(n),
            Interrupt::MidFrame,
        ) <= Clock::start().raised(steps.take(n), Interrupt::EndOfFrame) + 1,
        total(steps.take(n)) == FRAMES_PER_SECOND * DISPLAY_TIME_NANO_SEC ==> Clock::start().raised(
            steps.take(n),
            Interrupt::EndOfFrame,
        ) == FRAMES_PER_SECOND && Clock::start().raised(steps.take(n), Interrupt::MidFrame)
            == FRAMES_PER_SECOND,
{
    lemma_total_of_prefix(steps, n);
    lemma_cadence(steps.take(n));
}

} // verus!
