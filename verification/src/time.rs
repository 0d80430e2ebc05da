use vstd::prelude::*;

verus! {

/// Keeps the time of the start and of the last frame, as readings of a
/// clock that never runs backwards, in nanoseconds.
#[derive(Clone, Copy, Debug)]
pub struct Time {
    start_time: u64,
    previous_time: u64,
}

/// The mathematical content of a `Time`.
pub struct TimeView {
    pub start_time: u64,
    pub previous_time: u64,
}

impl View for Time {
    type V = TimeView;

    closed spec fn view(&self) -> TimeView {
        TimeView { start_time: self.start_time, previous_time: self.previous_time }
    }
}

/// The time from `earlier` to `now`, and zero where `now` is the earlier.
pub open spec fn spec_since(earlier: u64, now: u64) -> u64 {
    if now >= earlier {
        (now - earlier) as u64
    } else {
        0
    }
}

impl Time {
    /// Starts at the reading `now`.
    pub fn new(now: u64) -> (time: Time)
        ensures
            time@.start_time == now,
            time@.previous_time == now,
    {
        Time { start_time: now, previous_time: now }
    }

    /// The time since the start, at the reading `now`.
    pub fn elapsed_time(&self, now: u64) -> (elapsed: u64)
        ensures
            elapsed == spec_since(self@.start_time, now),
    {
        if now >= self.start_time {
            now - self.start_time
        } else {
            0
        }
    }

    /// The time since the last call, or since the start at the first, at
    /// the reading `now`, from which the next call counts.
    pub fn delta_time(&mut self, now: u64) -> (delta: u64)
        ensures
            delta == spec_since(old(self)@.previous_time, now),
            final(self)@.start_time == old(self)@.start_time,
            final(self)@.previous_time == now,
    {
        let delta: u64 = if now >= self.previous_time {
            now - self.previous_time
        } else {
            0
        };
        self.previous_time = now;
        delta
    }
}

} // verus!
