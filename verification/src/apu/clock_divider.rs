use vstd::prelude::*;

verus! {

/// The abstract state of a [`ClockDivider`].
pub struct ClockDividerView {
    pub counter: nat,
    pub source_clock_rate: nat,
    pub target_clock_rate: nat,
}

/// The number of source cycles per target tick.
pub open spec fn interval_spec(v: ClockDividerView) -> nat {
    v.source_clock_rate / v.target_clock_rate
}

/// The state after `step(cycles)` and what it returns.
pub open spec fn divider_step_spec(v: ClockDividerView, cycles: nat) -> (ClockDividerView, bool) {
    let c = v.counter + cycles;
    if c >= interval_spec(v) {
        (ClockDividerView { counter: (c - interval_spec(v)) as nat, ..v }, true)
    } else {
        (ClockDividerView { counter: c, ..v }, false)
    }
}

/// Divides a source clock to a target clock: every `source / target` source cycles make
/// one target tick.
#[derive(Debug, Clone)]
pub struct ClockDivider {
    counter: usize,
    source_clock_rate: usize,
    target_clock_rate: usize,
}

impl View for ClockDivider {
    type V = ClockDividerView;

    closed spec fn view(&self) -> ClockDividerView {
        ClockDividerView {
            counter: self.counter as nat,
            source_clock_rate: self.source_clock_rate as nat,
            target_clock_rate: self.target_clock_rate as nat,
        }
    }
}

impl ClockDivider {
    pub fn new(source_clock_rate: usize, target_clock_rate: usize) -> (r: Self)
        ensures
            r@ == (ClockDividerView {
                counter: 0,
                source_clock_rate: source_clock_rate as nat,
                target_clock_rate: target_clock_rate as nat,
            }),
    {
        Self { counter: 0, source_clock_rate, target_clock_rate }
    }

    pub fn set_source_clock_rate(&mut self, source_clock_rate: usize)
        ensures
            final(self)@ == (ClockDividerView {
                source_clock_rate: source_clock_rate as nat,
                ..old(self)@
            }),
    {
        self.source_clock_rate = source_clock_rate;
    }

    /// Feeds `cycles` source cycles; returns `true` when a target tick elapsed.
    pub fn step(&mut self, cycles: usize) -> (r: bool)
        requires
            old(self)@.target_clock_rate > 0,
            old(self)@.counter + cycles <= usize::MAX,
        ensures
            (final(self)@, r) == divider_step_spec(old(self)@, cycles as nat),
    {
        self.counter = self.counter + cycles;
        let interval = self.interval();
        if self.counter >= interval {
            self.counter = self.counter - interval;
            true
        } else {
            false
        }
    }

    fn interval(&self) -> (r: usize)
        requires
            self@.target_clock_rate > 0,
        ensures
            r == interval_spec(self@),
    {
        self.source_clock_rate / self.target_clock_rate
    }
}

} // verus!
