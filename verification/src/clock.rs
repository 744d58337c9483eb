//! Frame pacing: a clock that bounds the rate of frame production.
//!
//! The clock stores a fixed frame interval, derived once from the target
//! frame rate, and the instant (as monotonic nanoseconds) at which the last
//! frame tick completed.  Each frame the driver asks the clock how long the
//! frame took (`begin_tick`) and how long to sleep so that consecutive ticks
//! are at least one interval apart, performs the sleep itself, and then
//! records the post-sleep instant (`end_tick`).  The clock never asks for an
//! unbounded sleep: the requested sleep is at most one frame interval.

use vstd::prelude::*;

verus! {

/// Nanoseconds in 1000 seconds: dividing by a rate in millihertz
/// yields the frame interval in nanoseconds.
pub const NANOS_PER_KILOSECOND: u64 = 1_000_000_000_000;

/// Paces the frame loop to a configured target rate.
pub struct FrameClock {
    /// The fixed frame interval, in nanoseconds.
    target_frametime_nanos: u64,
    /// Monotonic instant of the last completed tick, in nanoseconds;
    /// absent before the first tick.
    last_tick_nanos: Option<u64>,
}

impl FrameClock {
    /// The fixed frame interval in nanoseconds, as chosen at construction.
    pub closed spec fn interval(self) -> u64 {
        self.target_frametime_nanos
    }

    /// The recorded instant of the last completed tick, if any.
    pub closed spec fn last_tick(self) -> Option<u64> {
        self.last_tick_nanos
    }

    /// Builds a clock for a target frame rate given in millihertz
    /// (a rate of 60 Hz is 60_000 millihertz).  The interval is
    /// `1 / rate` seconds, rounded down to whole nanoseconds.
    ///
    /// A rate of zero has no meaningful interval; the caller validates
    /// its configuration before constructing the clock.
    pub fn new(target_framerate_millihz: u64) -> (clock: FrameClock)
        requires
            target_framerate_millihz > 0,
        ensures
            clock.interval() == NANOS_PER_KILOSECOND / target_framerate_millihz,
            clock.last_tick() is None,
    {
        FrameClock {
            target_frametime_nanos: NANOS_PER_KILOSECOND / target_framerate_millihz,
            last_tick_nanos: None,
        }
    }

    /// The fixed frame interval, in nanoseconds.
    pub fn interval_nanos(&self) -> (r: u64)
        ensures
            r == self.interval(),
    {
        self.target_frametime_nanos
    }

    /// Starts a tick at monotonic instant `now_nanos`: returns the elapsed
    /// time since the last completed tick (the frame's delta time) and the
    /// sleep that pads the frame out to a full interval.
    ///
    /// On the very first tick both are zero: there is nothing to measure and
    /// nothing to wait for.  Afterwards the sleep tops the elapsed time up to
    /// exactly one interval, so the planned gap between consecutive ticks is
    /// never below the interval, and the sleep itself never exceeds it.
    pub fn begin_tick(&self, now_nanos: u64) -> (r: (u64, u64))
        ensures
            self.last_tick() is None ==> r == (0u64, 0u64),
            self.last_tick() matches Some(last) ==> {
                &&& r.0 == if now_nanos >= last { (now_nanos - last) as u64 } else { 0u64 }
                &&& r.1 == if r.0 < self.interval() { (self.interval() - r.0) as u64 } else { 0u64 }
                &&& r.0 + r.1 >= self.interval()
                &&& r.1 <= self.interval()
            },
    {
        match self.last_tick_nanos {
            None => (0, 0),
            Some(last) => {
                let delta: u64 = if now_nanos >= last { now_nanos - last } else { 0 };
                let sleep: u64 = if delta < self.target_frametime_nanos {
                    self.target_frametime_nanos - delta
                } else {
                    0
                };
                (delta, sleep)
            },
        }
    }

    /// Completes a tick: records `now_nanos`, the monotonic instant after
    /// the driver's sleep, as the reference point for the next tick.
    pub fn end_tick(&mut self, now_nanos: u64)
        ensures
            final(self).interval() == old(self).interval(),
            final(self).last_tick() == Some(now_nanos),
    {
        self.last_tick_nanos = Some(now_nanos);
    }
}

} // verus!
