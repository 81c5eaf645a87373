//! The monotonic clock that feeds `App::update` its tick time.
//!
//! The runtime itself never reads a clock: every tick takes the current
//! monotonic time as an argument, so that scheduling is a function of the
//! state and that argument.  This module supplies the value for embedders
//! that want the real wall clock: a handle over the system's monotonic
//! clock, created once and read once per tick by the outer run loop.

use monotonic_time_rs::InstantMonotonicClock;
use monotonic_time_rs::MonotonicClock;
use vstd::prelude::*;

verus! {

#[verifier::external_type_specification]
#[verifier::external_body]
pub struct ExInstantMonotonicClock(InstantMonotonicClock);

/// A monotonic millisecond clock, counting from the moment of its
/// creation.
pub struct Clock {
    inner: InstantMonotonicClock,
}

impl Clock {
    /// Relies on monotonic_time_rs::InstantMonotonicClock::new, which
    /// captures the instant of its own creation as the clock's zero.
    #[verifier::external_body]
    pub fn new() -> (c: Clock) {
        Clock { inner: InstantMonotonicClock::new() }
    }

    /// Relies on monotonic_time_rs::MonotonicClock::now for
    /// `InstantMonotonicClock`: the milliseconds elapsed since the clock
    /// was created, never decreasing between reads of one clock.  The
    /// value depends on the wall clock at the moment of the call, so
    /// nothing is promised of it.
    #[verifier::external_body]
    pub fn now_ms(&self) -> (r: u64) {
        self.inner.now().absolute_milliseconds()
    }
}

} // verus!
