//! Frame clock: accumulates elapsed time and the duration of the last tick.
//!
//! Time is measured with `std::time::Instant` and carried as whole
//! nanoseconds, so that the accumulation itself is exact and verified.

use vstd::prelude::*;
use std::time::Duration;
use std::time::Instant;

verus! {

/// `std::time::Instant` is an opaque monotonic timestamp; the clock stores
/// the instant of the previous tick to measure the next frame's duration.
#[verifier::external_type_specification]
#[verifier::external_body]
pub struct ExInstant(Instant);

/// Relies on `std::time::Instant::now`: a reading of the monotonic clock.
/// Nothing is assumed of the value; all uses state what holds of any reading.
pub assume_specification[ Instant::now ]() -> Instant;

/// Relies on `std::time::Instant::duration_since`: the time elapsed from
/// `earlier` to `self`, or zero if `earlier` is the later of the two.
/// The result depends on when the instants were taken, so nothing is
/// assumed of it.
pub assume_specification[ Instant::duration_since ](this: &Instant, earlier: Instant) -> Duration;

/// Relies on `core::time::Duration::as_nanos`: the duration as a whole
/// number of nanoseconds.
pub assume_specification[ Duration::as_nanos ](this: &Duration) -> u128;

/// Addition on nanosecond counters that stops at the largest representable
/// value instead of overflowing.
pub open spec fn nanos_saturating_add(a: u128, b: u128) -> u128 {
    if a + b > u128::MAX {
        u128::MAX
    } else {
        (a + b) as u128
    }
}

/// A source of the two times the scene animation needs: the total elapsed
/// time (for the deterministic light orbit) and the duration of the last
/// frame (for integration), both in nanoseconds.
pub trait TimeProvider {
    /// The total elapsed time, in nanoseconds, as a specification value.
    spec fn spec_total_time(&self) -> u128;

    /// The duration of the last frame, in nanoseconds, as a specification value.
    spec fn spec_dt(&self) -> u128;

    /// The total elapsed time, in nanoseconds.
    fn total_time(&self) -> (r: u128)
        ensures
            r == self.spec_total_time(),
    ;

    /// The duration of the last frame, in nanoseconds.
    fn dt(&self) -> (r: u128)
        ensures
            r == self.spec_dt(),
    ;
}

/// Measures frame times: each `tick` notes how long it has been since the
/// previous one and adds that to the running total.
pub struct Clock {
    last_tick_time: Option<Instant>,
    elapsed_nanos: u128,
    last_dt_nanos: u128,
    tick_count: u64,
}

impl TimeProvider for Clock {
    open spec fn spec_total_time(&self) -> u128 {
        self.spec_elapsed_nanos()
    }

    open spec fn spec_dt(&self) -> u128 {
        self.spec_last_dt_nanos()
    }

    fn total_time(&self) -> (r: u128) {
        self.elapsed_nanos
    }

    fn dt(&self) -> (r: u128) {
        self.last_dt_nanos
    }
}

impl Clock {
    /// Whether the clock has ticked since it was created or last reset.
    pub closed spec fn spec_started(&self) -> bool {
        self.last_tick_time is Some
    }

    /// The accumulated elapsed time in nanoseconds.
    pub closed spec fn spec_elapsed_nanos(&self) -> u128 {
        self.elapsed_nanos
    }

    /// The duration of the last measured frame in nanoseconds.
    pub closed spec fn spec_last_dt_nanos(&self) -> u128 {
        self.last_dt_nanos
    }

    /// How many times the clock has ticked since it was created or last reset.
    pub closed spec fn spec_tick_count(&self) -> u64 {
        self.tick_count
    }

    /// A clock that has not ticked yet: no elapsed time, no last frame.
    pub fn new() -> (clock: Clock)
        ensures
            !clock.spec_started(),
            clock.spec_elapsed_nanos() == 0,
            clock.spec_last_dt_nanos() == 0,
            clock.spec_tick_count() == 0,
    {
        Clock {
            last_tick_time: None,
            last_dt_nanos: 0,
            elapsed_nanos: 0,
            tick_count: 0,
        }
    }

    /// How many times the clock has ticked since it was created or last reset.
    pub fn tick_count(&self) -> (r: u64)
        ensures
            r == self.spec_tick_count(),
    {
        self.tick_count
    }

    /// Marks the end of a frame. From the second tick on, the time since the
    /// previous tick becomes the last frame duration and is added to the
    /// elapsed total; the very first tick only starts the measurement.
    pub fn tick(&mut self)
        requires
            old(self).spec_tick_count() < u64::MAX,
        ensures
            final(self).spec_started(),
            final(self).spec_tick_count() == old(self).spec_tick_count() + 1,
            !old(self).spec_started() ==> {
                &&& final(self).spec_elapsed_nanos() == old(self).spec_elapsed_nanos()
                &&& final(self).spec_last_dt_nanos() == old(self).spec_last_dt_nanos()
            },
            old(self).spec_started() ==> final(self).spec_elapsed_nanos()
                == nanos_saturating_add(old(self).spec_elapsed_nanos(), final(self).spec_last_dt_nanos()),
    {
        if let Some(last_tick_time) = self.last_tick_time {
            let now = Instant::now();
            let dt = now.duration_since(last_tick_time).as_nanos();
            self.last_dt_nanos = dt;
            self.elapsed_nanos = if dt <= u128::MAX - self.elapsed_nanos {
                self.elapsed_nanos + dt
            } else {
                u128::MAX
            };
        }

        self.last_tick_time = Some(Instant::now());
        self.tick_count = self.tick_count + 1;
    }

    /// Returns the clock to its initial state.
    pub fn reset(&mut self)
        ensures
            !final(self).spec_started(),
            final(self).spec_elapsed_nanos() == 0,
            final(self).spec_last_dt_nanos() == 0,
            final(self).spec_tick_count() == 0,
    {
        self.last_tick_time = None;
        self.last_dt_nanos = 0;
        self.elapsed_nanos = 0;
        self.tick_count = 0;
    }
}

} // verus!
