use vstd::prelude::*;

verus! {

/// The abstract state of a [`Timer`].
pub struct TimerView {
    pub enable: bool,
    pub counter: nat,
    pub interval: nat,
}

/// The state after one call of `tick` from `v`, and what that call returns.
pub open spec fn tick_spec(v: TimerView) -> (TimerView, bool) {
    if !v.enable || v.interval == 0 {
        (v, false)
    } else if v.counter + 1 >= v.interval {
        (TimerView { counter: 0, ..v }, true)
    } else {
        (TimerView { counter: v.counter + 1, ..v }, false)
    }
}

/// The state after `k` calls of `tick` from `v`.
pub open spec fn ticks_spec(v: TimerView, k: nat) -> TimerView
    decreases k,
{
    if k == 0 {
        v
    } else {
        tick_spec(ticks_spec(v, (k - 1) as nat)).0
    }
}

/// What the `k`-th call of `tick` (counting from 1) returns, starting from `v`.
pub open spec fn fires_at(v: TimerView, k: nat) -> bool
    recommends
        k >= 1,
{
    tick_spec(ticks_spec(v, (k - 1) as nat)).1
}

/// The number of ticks until the timer expires next.
pub open spec fn expires_in_spec(v: TimerView) -> nat {
    if v.interval > v.counter {
        (v.interval - v.counter) as nat
    } else {
        0
    }
}

/// Timer that triggers an event every given interval.
#[derive(Debug, Clone)]
pub struct Timer {
    enable: bool,
    counter: usize,
    interval: usize,
}

impl View for Timer {
    type V = TimerView;

    closed spec fn view(&self) -> TimerView {
        TimerView { enable: self.enable, counter: self.counter as nat, interval: self.interval as nat }
    }
}

impl Timer {
    pub proof fn lemma_view_bounds(&self)
        ensures
            self@.interval <= usize::MAX,
            self@.counter <= usize::MAX,
    {
    }

    pub fn new(enable: bool) -> (r: Self)
        ensures
            r@ == (TimerView { enable, counter: 0, interval: 0 }),
    {
        Self { enable, counter: 0, interval: 0 }
    }

    /// Create a enabled timer.
    pub fn enabled() -> (r: Self)
        ensures
            r@ == (TimerView { enable: true, counter: 0, interval: 0 }),
    {
        Self::new(true)
    }

    /// Create a disabled timer.
    pub fn disabled() -> (r: Self)
        ensures
            r@ == (TimerView { enable: false, counter: 0, interval: 0 }),
    {
        Self::new(false)
    }

    /// Timer starts counting.
    pub fn enable(&mut self)
        ensures
            final(self)@ == (TimerView { enable: true, ..old(self)@ }),
    {
        self.enable = true;
    }

    /// Timer stops counting.
    pub fn disable(&mut self)
        ensures
            final(self)@ == (TimerView { enable: false, ..old(self)@ }),
    {
        self.enable = false;
    }

    /// Update the interval of the timer resetting the current counter.
    pub fn set_interval(&mut self, interval: usize)
        ensures
            final(self)@ == (TimerView { interval: interval as nat, counter: 0, ..old(self)@ }),
    {
        self.interval = interval;
        self.counter = 0;
    }

    /// Get the current counter.
    pub fn counter(&self) -> (r: usize)
        ensures
            r == self@.counter,
    {
        self.counter
    }

    /// Update the current counter.
    pub fn set_counter(&mut self, counter: usize)
        ensures
            final(self)@ == (TimerView { counter: counter as nat, ..old(self)@ }),
    {
        self.counter = counter;
    }

    /// Get the remaining ticks until the timer expires next.
    pub fn expires_in(&self) -> (r: usize)
        ensures
            r == expires_in_spec(self@),
    {
        self.interval.saturating_sub(self.counter)
    }

    /// Advance the counter.
    /// Returns `true` every `interval` ticks.
    pub fn tick(&mut self) -> (r: bool)
        ensures
            (final(self)@, r) == tick_spec(old(self)@),
    {
        if !self.enable {
            return false;
        }
        if self.interval == 0 {
            return false;
        }
        if self.counter >= self.interval - 1 {
            self.counter = 0;
            true
        } else {
            self.counter = self.counter + 1;
            false
        }
    }

    /// Reset the counter without disabling the timer.
    pub fn reset(&mut self)
        ensures
            final(self)@ == (TimerView { counter: 0, interval: 0, ..old(self)@ }),
    {
        self.counter = 0;
        self.interval = 0;
    }
}

proof fn lemma_ticks_before_expiry(v: TimerView, k: nat)
    requires
        v.enable,
        v.interval > 0,
        v.counter == 0,
        k < v.interval,
    ensures
        ticks_spec(v, k) == (TimerView { counter: k, ..v }),
        k >= 1 ==> !fires_at(v, k),
    decreases k,
{
    if k > 0 {
        lemma_ticks_before_expiry(v, (k - 1) as nat);
    }
}

/// An enabled timer with a non-zero interval `n`, freshly reset, fires on the `n`-th tick and
/// on no earlier tick, and is then back where it started: it fires once every `n` ticks.
pub proof fn lemma_timer_fires_every_interval(v: TimerView, k: nat)
    requires
        v.enable,
        v.interval > 0,
        v.counter == 0,
        1 <= k <= v.interval,
    ensures
        fires_at(v, k) == (k == v.interval),
        ticks_spec(v, v.interval) == v,
{
    lemma_ticks_before_expiry(v, (k - 1) as nat);
    lemma_ticks_before_expiry(v, (v.interval - 1) as nat);
    assert(ticks_spec(v, v.interval) == tick_spec(ticks_spec(v, (v.interval - 1) as nat)).0);
}

/// A disabled timer, or one with a zero interval, never fires and never changes.
pub proof fn lemma_timer_idle_never_fires(v: TimerView, k: nat)
    requires
        !v.enable || v.interval == 0,
    ensures
        ticks_spec(v, k) == v,
        k >= 1 ==> !fires_at(v, k),
    decreases k,
{
    if k > 0 {
        lemma_timer_idle_never_fires(v, (k - 1) as nat);
    }
}

/// Before a tick that fires, the timer expires in exactly one tick; after it fires it expires
/// in a full interval.
pub proof fn lemma_tick_fires_when_expiring(v: TimerView)
    requires
        v.enable,
        v.interval > 0,
        v.counter < v.interval,
    ensures
        tick_spec(v).1 == (expires_in_spec(v) == 1),
        tick_spec(v).1 ==> expires_in_spec(tick_spec(v).0) == v.interval,
{
}

} // verus!
