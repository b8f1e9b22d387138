use vstd::prelude::*;

use crate::cpu::CPU_FREQ_HZ;

verus! {

/// The abstract state of a [`ClockDivider`].
pub struct ClockDividerView {
    pub counter: nat,
    pub source_clock_rate: nat,
    pub target_clock_rate: nat,
}

/// The divider's source is the CPU clock and its accumulator stays below the source rate.
pub open spec fn divider_wf(v: ClockDividerView) -> bool {
    &&& v.source_clock_rate == CPU_FREQ_HZ
    &&& v.counter < v.source_clock_rate
}

/// Whether `cycles` source cycles can be fed to a divider in state `v` without the
/// accumulator leaving the machine range.
pub open spec fn divider_can_step(v: ClockDividerView, cycles: nat) -> bool {
    v.counter + cycles * v.target_clock_rate <= usize::MAX
}

/// The number of target ticks produced by feeding `cycles` source cycles.
pub open spec fn divider_times(v: ClockDividerView, cycles: nat) -> nat {
    (v.counter + cycles * v.target_clock_rate) / v.source_clock_rate
}

/// The state after feeding `cycles` source cycles.
pub open spec fn divider_after(v: ClockDividerView, cycles: nat) -> ClockDividerView {
    ClockDividerView {
        counter: (v.counter + cycles * v.target_clock_rate) % v.source_clock_rate,
        ..v
    }
}

/// Divides the CPU clock down to a target rate.
#[derive(Debug, Clone)]
pub struct ClockDivider {
    counter: usize,
    source_clock_rate: usize,
    target_clock_rate: usize,
}

impl View for ClockDivider {
    type V = ClockDividerView;

    closed spec fn view(&self) -> ClockDividerView {
        ClockDividerView {
            counter: self.counter as nat,
            source_clock_rate: self.source_clock_rate as nat,
            target_clock_rate: self.target_clock_rate as nat,
        }
    }
}

impl ClockDivider {
    pub fn new(target_clock_rate: usize) -> (r: Self)
        ensures
            r@ == (ClockDividerView {
                counter: 0,
                source_clock_rate: CPU_FREQ_HZ as nat,
                target_clock_rate: target_clock_rate as nat,
            }),
    {
        Self { counter: 0, source_clock_rate: CPU_FREQ_HZ, target_clock_rate }
    }

    pub fn set_target_clock_rate(&mut self, target_clock_rate: usize)
        ensures
            final(self)@ == (ClockDividerView {
                target_clock_rate: target_clock_rate as nat,
                ..old(self)@
            }),
    {
        self.target_clock_rate = target_clock_rate;
    }

    /// Feeds `cycles` CPU cycles and returns how many target ticks elapsed.
    pub fn step(&mut self, cycles: usize) -> (times: usize)
        requires
            divider_wf(old(self)@),
            divider_can_step(old(self)@, cycles as nat),
        ensures
            times == divider_times(old(self)@, cycles as nat),
            final(self)@ == divider_after(old(self)@, cycles as nat),
    {
        let total = self.counter + cycles * self.target_clock_rate;
        let times = total / self.source_clock_rate;
        self.counter = total % self.source_clock_rate;
        times
    }

    /// Feeds `cycles` CPU cycles, which must produce at most one target tick, and tells
    /// whether one did.
    pub fn step_one(&mut self, cycles: usize) -> (r: bool)
        requires
            divider_wf(old(self)@),
            divider_can_step(old(self)@, cycles as nat),
            divider_times(old(self)@, cycles as nat) <= 1,
        ensures
            r == (divider_times(old(self)@, cycles as nat) == 1),
            final(self)@ == divider_after(old(self)@, cycles as nat),
    {
        let times = self.step(cycles);
        times == 1
    }

    pub fn reset(&mut self)
        ensures
            final(self)@ == (ClockDividerView { counter: 0, ..old(self)@ }),
    {
        self.counter = 0;
    }
}

} // verus!
