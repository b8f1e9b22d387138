use vstd::prelude::*;

verus! {

/// The abstract state of a [`Timer`].
pub struct TimerView {
    pub counter: nat,
    pub interval: nat,
}

/// The state after one `tick` and what it returns.
pub open spec fn tick_spec(v: TimerView) -> (TimerView, bool) {
    if v.interval == 0 {
        (v, false)
    } else if v.counter + 1 >= v.interval {
        (TimerView { counter: 0, ..v }, true)
    } else {
        (TimerView { counter: v.counter + 1, ..v }, false)
    }
}

/// A timer that expires every `interval` ticks.
#[derive(Debug, Clone)]
pub struct Timer {
    counter: usize,
    interval: usize,
}

impl View for Timer {
    type V = TimerView;

    closed spec fn view(&self) -> TimerView {
        TimerView { counter: self.counter as nat, interval: self.interval as nat }
    }
}

impl Timer {
    pub fn new() -> (r: Self)
        ensures
            r@ == (TimerView { counter: 0, interval: 0 }),
    {
        Self { counter: 0, interval: 0 }
    }

    /// Changes the interval, keeping the counter.
    pub fn set_interval(&mut self, interval: usize)
        ensures
            final(self)@ == (TimerView { interval: interval as nat, ..old(self)@ }),
    {
        self.interval = interval;
    }

    /// The number of ticks left until the timer expires.
    pub fn remaining(&self) -> (r: usize)
        ensures
            r == (if self@.interval > self@.counter {
                self@.interval - self@.counter
            } else {
                0
            }),
    {
        self.interval.saturating_sub(self.counter)
    }

    /// Advances the counter; returns `true` every `interval` ticks.
    pub fn tick(&mut self) -> (r: bool)
        ensures
            (final(self)@, r) == tick_spec(old(self)@),
    {
        if self.interval == 0 {
            return false;
        }
        if self.counter >= self.interval - 1 {
            self.counter = 0;
            true
        } else {
            self.counter = self.counter + 1;
            false
        }
    }
}

} // verus!
