use vstd::prelude::*;

verus! {

/// Nanoseconds in one second.
pub const NANOS_PER_SECOND: u64 = 1_000_000_000;

/// The time that has passed from `last` to `now`; none where the clock
/// reads earlier than `last`.
pub open spec fn elapsed_of(now: int, last: int) -> int {
    if now >= last {
        now - last
    } else {
        0
    }
}

/// How long to wait before the next tick: what is left of `interval` after
/// `elapsed`, and nothing once it has all passed.
pub open spec fn sleep_of(elapsed: int, interval: int) -> int {
    if elapsed >= interval {
        0
    } else {
        interval - elapsed
    }
}

/// The wait before the next tick when the last one began at `last`, the
/// clock reads `now`, and ticks are `interval` apart (all in nanoseconds).
pub fn sleep_duration(now: u64, last: u64, interval: u64) -> (r: u64)
    ensures
        r == sleep_of(elapsed_of(now as int, last as int), interval as int),
        r <= interval,
        elapsed_of(now as int, last as int) >= interval ==> r == 0,
{
    let elapsed: u64 = now.saturating_sub(last);
    interval.saturating_sub(elapsed)
}

/// Fixed-cadence tick timing over a monotonic clock read in nanoseconds.
pub struct FramePacer {
    pub interval: u64,
    pub last: u64,
}

impl FramePacer {
    /// A pacer with ticks `interval` apart whose first tick begins at `now`.
    pub fn new(interval: u64, now: u64) -> (r: FramePacer)
        ensures
            r.interval == interval,
            r.last == now,
    {
        FramePacer { interval, last: now }
    }

    /// A pacer whose ticks follow a display that refreshes `hz` times a
    /// second.
    pub fn from_rate(hz: u64, now: u64) -> (r: FramePacer)
        requires
            hz > 0,
        ensures
            r.interval == NANOS_PER_SECOND / hz,
            r.last == now,
    {
        FramePacer { interval: NANOS_PER_SECOND / hz, last: now }
    }

    /// The wait before the next tick, with the clock reading `now`.
    pub fn sleep_before_tick(&self, now: u64) -> (r: u64)
        ensures
            r == sleep_of(elapsed_of(now as int, self.last as int), self.interval as int),
    {
        sleep_duration(now, self.last, self.interval)
    }

    /// Begins a tick at `now`, the time of waking, not the time the tick was
    /// due.
    pub fn wake(&mut self, now: u64)
        ensures
            final(self).last == now,
            final(self).interval == old(self).interval,
    {
        self.last = now;
    }
}

/// The wait is never negative, never longer than the interval, and none at
/// all once a whole interval has passed.
pub proof fn lemma_sleep_bounds(elapsed: int, interval: int)
    requires
        0 <= elapsed,
        0 <= interval,
    ensures
        0 <= sleep_of(elapsed, interval) <= interval,
        elapsed >= interval ==> sleep_of(elapsed, interval) == 0,
        elapsed < interval ==> elapsed + sleep_of(elapsed, interval) == interval,
{
}

} // verus!
