//! The DIV register.
use vstd::prelude::*;

use crate::clock::clock_divider::{ClockDividerView, divider_wf};
use crate::clock::prescaled_timer::{
    prescaled_can_step, prescaled_step_spec, PrescaledTimer, PrescaledTimerView,
};
use crate::clock::timer::TimerView;
use crate::cpu::CPU_FREQ_HZ;

verus! {

/// The DIV counter: 16384 Hz, wrapping every 256 ticks.
pub struct Divider {
    timer: PrescaledTimer,
}

impl View for Divider {
    type V = PrescaledTimerView;

    closed spec fn view(&self) -> PrescaledTimerView {
        self.timer@
    }
}

pub open spec fn div_initial() -> PrescaledTimerView {
    PrescaledTimerView {
        timer: TimerView { enable: true, counter: 0, interval: 256 },
        divider: ClockDividerView {
            counter: 0,
            source_clock_rate: CPU_FREQ_HZ as nat,
            target_clock_rate: 16384,
        },
    }
}

impl Divider {
    pub fn new() -> (r: Self)
        ensures
            r@ == div_initial(),
    {
        Self { timer: PrescaledTimer::builder().enable().frequency(16384).interval(256).build() }
    }

    /// Advances by `cycles` CPU cycles and returns the counter.
    pub fn step(&mut self, cycles: usize) -> (r: usize)
        requires
            prescaled_can_step(old(self)@, cycles as nat),
        ensures
            final(self)@ == prescaled_step_spec(old(self)@, cycles as nat).0,
            r == final(self)@.timer.counter,
    {
        self.timer.step(cycles);
        self.timer.counter()
    }

    /// DIV does not tick while stopped.
    #[allow(dead_code)]
    fn enable(&mut self)
        ensures
            final(self)@ == (PrescaledTimerView {
                timer: TimerView { enable: true, ..old(self)@.timer },
                ..old(self)@
            }),
    {
        self.timer.enable();
    }

    #[allow(dead_code)]
    fn disable(&mut self)
        ensures
            final(self)@ == (PrescaledTimerView {
                timer: TimerView { enable: false, ..old(self)@.timer },
                ..old(self)@
            }),
    {
        self.timer.disable();
    }

    /// Read DIV (0xff04)
    pub fn on_read(&self) -> (r: u8)
        ensures
            r == self@.timer.counter as u8,
    {
        self.timer.counter() as u8
    }

    /// Write DIV (0xff04): any write clears the counter.
    pub fn on_write(&mut self, _value: u8)
        ensures
            final(self)@ == (PrescaledTimerView {
                timer: TimerView { counter: 0, ..old(self)@.timer },
                ..old(self)@
            }),
    {
        self.timer.set_counter(0);
    }
}

/// Steps of fewer than 256 CPU cycles can always be fed to the divider.
pub proof fn lemma_divider_short_steps(v: PrescaledTimerView, cycles: nat)
    requires
        divider_wf(v.divider),
        v.divider.target_clock_rate == 16384,
        cycles < 256,
    ensures
        prescaled_can_step(v, cycles),
{
    assert(cycles * 16384 < 256 * 16384) by (nonlinear_arith)
        requires
            cycles < 256,
    ;
    let x = v.divider.counter + cycles * v.divider.target_clock_rate;
    assert(x < 2 * CPU_FREQ_HZ);
    assert(x / (CPU_FREQ_HZ as nat) <= 1) by (nonlinear_arith)
        requires
            x < 2 * CPU_FREQ_HZ,
    ;
}

} // verus!
