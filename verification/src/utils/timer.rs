//! A timer over a clock that the caller reads.

use vstd::prelude::*;

verus! {

/// The nanoseconds of one second.
pub const NANOS_PER_SECOND: u64 = 1_000_000_000;

/// The time between two frames at `fps` frames a second, in nanoseconds;
/// no time where `fps` is zero, which stands for no limit.
pub open spec fn spec_frame_period(fps: u32) -> u64 {
    if fps == 0 {
        0
    } else {
        (NANOS_PER_SECOND / (fps as u64)) as u64
    }
}

/// The time between two frames at `fps` frames a second, in nanoseconds;
/// no time where `fps` is zero, which stands for no limit.
#[verifier::when_used_as_spec(spec_frame_period)]
pub fn frame_period(fps: u32) -> (period: u64)
    ensures
        period == spec_frame_period(fps),
{
    if fps == 0 {
        0
    } else {
        NANOS_PER_SECOND / (fps as u64)
    }
}

/// A timer that ends once a duration has passed since it was started. Times
/// are nanoseconds on a clock that never runs backwards; the caller reads
/// the clock.
#[derive(Clone, Copy, PartialEq, Eq, Structural, Debug)]
pub struct Timer {
    pub start: u64,
    pub dur: u64,
}

impl Timer {
    /// Whether the timer has ended at the time `now`: whether at least its
    /// duration has passed since its start. A time before the start counts
    /// as the start.
    pub open spec fn ended_at(self, now: u64) -> bool {
        if now >= self.start {
            now - self.start >= self.dur
        } else {
            self.dur == 0
        }
    }

    /// A timer of the duration `dur`, started at the time `now`.
    pub fn new(now: u64, dur: u64) -> (timer: Self)
        ensures
            timer == (Timer { start: now, dur }),
    {
        Self { start: now, dur }
    }

    /// Whether the timer has ended at the time `now`.
    pub fn is_ended(&self, now: u64) -> (ended: bool)
        ensures
            ended == self.ended_at(now),
    {
        if now >= self.start {
            now - self.start >= self.dur
        } else {
            self.dur == 0
        }
    }

    /// Starts the timer anew at the time `now`, with the duration it has.
    pub fn reset(&mut self, now: u64)
        ensures
            *final(self) == (Timer { start: now, dur: old(self).dur }),
    {
        self.start = now;
    }

    /// The timer after an event: with the period of the new frame rate
    /// where the application changed the rate while the event was handled,
    /// and started anew at `now` where a frame was rendered.
    pub open spec fn after_tick(self, fps_before: u32, fps_after: u32, rendered: bool, now: u64)
        -> Timer {
        Timer {
            start: if rendered {
                now
            } else {
                self.start
            },
            dur: if fps_before != fps_after {
                spec_frame_period(fps_after)
            } else {
                self.dur
            },
        }
    }

    /// The timer after an event.
    pub fn next_tick(self, fps_before: u32, fps_after: u32, rendered: bool, now: u64) -> (timer:
        Timer)
        ensures
            timer == self.after_tick(fps_before, fps_after, rendered, now),
    {
        let mut timer = self;
        if fps_before != fps_after {
            timer.dur = frame_period(fps_after);
        }
        if rendered {
            timer.reset(now);
        }
        timer
    }
}

} // verus!
