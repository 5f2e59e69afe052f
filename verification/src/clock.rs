//! The clock of a session: elapsed time that never runs backwards.

use vstd::prelude::*;
use std::time::{Duration, Instant};

verus! {

/// What a clock reports for one simulation step.
#[derive(Clone, Copy, Debug, PartialEq, Eq, Structural)]
pub struct Tick {
    /// Milliseconds since the clock was started.
    pub elapsed_ms: i64,
    /// Milliseconds since the step before this one.
    pub delta_ms: i64,
}

/// `std::time::Instant`, carried through verified code as an opaque value.
#[verifier::external_type_specification]
#[verifier::external_body]
pub struct ExInstant(Instant);

/// Calls `std::time::Instant::now`. Nothing is claimed of the instant that
/// comes back.
#[verifier::external_body]
fn instant_now() -> Instant {
    Instant::now()
}

/// Calls `std::time::Instant::elapsed`. Nothing is claimed of the duration
/// that comes back.
#[verifier::external_body]
fn duration_since(start: &Instant) -> Duration {
    start.elapsed()
}

/// Calls `std::time::Duration::as_millis`. Nothing is claimed of the number
/// that comes back.
#[verifier::external_body]
fn whole_millis(duration: &Duration) -> u128 {
    duration.as_millis()
}

/// A timer that is started with the session and read once per step.
///
/// Whatever the readings fed to it, the elapsed time it reports never
/// decreases and is never negative.
pub struct Clock {
    started: Instant,
    elapsed_ms: i64,
}

impl View for Clock {
    type V = int;

    /// The elapsed time last reported, in milliseconds.
    closed spec fn view(&self) -> int {
        self.elapsed_ms as int
    }
}

impl Clock {
    /// Holds of every clock at all times.
    #[verifier::type_invariant]
    pub open spec fn well_formed(self) -> bool {
        self@ >= 0
    }

    /// The elapsed time that a clock at `before` reports for `reading_ms`.
    pub open spec fn advanced(before: int, reading_ms: int) -> int {
        if reading_ms > before {
            reading_ms
        } else {
            before
        }
    }

    /// Starts a clock at zero.
    pub fn start() -> (clock: Clock)
        ensures
            clock@ == 0,
    {
        Clock { started: instant_now(), elapsed_ms: 0 }
    }

    /// The elapsed time last reported.
    pub fn elapsed_ms(&self) -> (elapsed: i64)
        ensures
            elapsed == self@,
            elapsed >= 0,
    {
        proof {
            use_type_invariant(self);
        }
        self.elapsed_ms
    }

    /// Moves the clock to `reading_ms`, a count of milliseconds since the
    /// start, unless that would take it backwards; in that case the clock
    /// stands still. Returns the elapsed time and how far the clock moved.
    pub fn advance(&mut self, reading_ms: i64) -> (tick: Tick)
        ensures
            final(self)@ == Clock::advanced(old(self)@, reading_ms as int),
            final(self)@ >= old(self)@,
            tick.elapsed_ms == final(self)@,
            tick.delta_ms == final(self)@ - old(self)@,
            tick.delta_ms >= 0,
    {
        proof {
            use_type_invariant(&*self);
        }
        let before: i64 = self.elapsed_ms;
        if reading_ms > before {
            self.elapsed_ms = reading_ms;
        }
        Tick { elapsed_ms: self.elapsed_ms, delta_ms: self.elapsed_ms - before }
    }

    /// Reads the time that has passed since the clock was started and moves
    /// the clock to it, as [`Clock::advance`] does.
    pub fn tick(&mut self) -> (tick: Tick)
        ensures
            final(self)@ >= old(self)@,
            tick.elapsed_ms == final(self)@,
            tick.delta_ms == final(self)@ - old(self)@,
            tick.delta_ms >= 0,
    {
        let passed: Duration = duration_since(&self.started);
        let millis: u128 = whole_millis(&passed);
        let reading_ms: i64 = if millis > i64::MAX as u128 {
            i64::MAX
        } else {
            millis as i64
        };
        self.advance(reading_ms)
    }
}

} // verus!
