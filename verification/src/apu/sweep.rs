use vstd::prelude::*;

use crate::clock::timer::{tick_spec, Timer, TimerView};

use super::frame_sequencer::{switched_spec, Frame};

verus! {

/// The abstract state of a [`Sweep`].
pub struct SweepView {
    pub disabling_channel: bool,
    pub freq: usize,
    pub timer: TimerView,
    pub subtract: bool,
    pub subtracted: bool,
    pub period: nat,
    pub shift: usize,
}

/// The shift stays within the width of a machine word.
pub open spec fn sweep_wf(v: SweepView) -> bool {
    v.shift < usize::BITS
}

pub open spec fn sweep_disable(v: SweepView) -> SweepView {
    SweepView { timer: TimerView { enable: false, ..v.timer }, disabling_channel: true, ..v }
}

pub open spec fn sweep_reload_timer(v: SweepView) -> SweepView {
    SweepView {
        timer: TimerView {
            counter: 0,
            interval: if v.period == 0 {
                8
            } else {
                v.period
            },
            ..v.timer
        },
        ..v
    }
}

/// The frequency the sweep computes next from `v` (before the overflow check).
pub open spec fn sweep_target(v: SweepView) -> usize {
    if v.subtract {
        vstd::wrapping::usize_specs::wrapping_sub(v.freq, v.freq >> v.shift)
    } else {
        vstd::wrapping::usize_specs::wrapping_add(v.freq, v.freq >> v.shift)
    }
}

/// One frequency calculation with its overflow check: the new state and the resulting
/// frequency. Overflowing past 2047 disables the channel and keeps the old frequency.
pub open spec fn sweep_calculate(v: SweepView) -> (SweepView, usize) {
    let v1 = if v.subtract {
        SweepView { subtracted: true, ..v }
    } else {
        v
    };
    let nf = sweep_target(v);
    if nf >= 2048 {
        (sweep_disable(v1), v.freq)
    } else {
        (v1, nf)
    }
}

/// The state after `trigger(freq, period, subtract, shift)`.
pub open spec fn sweep_trigger_spec(
    v: SweepView,
    freq: usize,
    period: nat,
    subtract: bool,
    shift: usize,
) -> SweepView {
    let v1 = SweepView {
        freq,
        disabling_channel: false,
        period,
        shift,
        subtract,
        subtracted: false,
        timer: TimerView { enable: period > 0 || shift > 0, ..v.timer },
    };
    let v2 = sweep_reload_timer(v1);
    if shift > 0 {
        sweep_calculate(v2).0
    } else {
        v2
    }
}

/// The state after `update_params(period, subtract, shift)`.
pub open spec fn sweep_update_spec(v: SweepView, period: nat, subtract: bool, shift: usize) -> SweepView {
    let v1 = if v.subtracted && v.subtract && !subtract {
        sweep_disable(v)
    } else {
        v
    };
    SweepView { period, shift, subtract, ..v1 }
}

/// The state after `step(frame)` and the new frequency it reports, if any.
pub open spec fn sweep_step_spec(v: SweepView, frame: Frame) -> (SweepView, Option<usize>) {
    if !(switched_spec(frame) == Some(2usize) || switched_spec(frame) == Some(6usize)) {
        (v, None)
    } else {
        let (t, fired) = tick_spec(v.timer);
        let v1 = SweepView { timer: t, ..v };
        if !fired {
            (v1, None)
        } else {
            let v2 = sweep_reload_timer(v1);
            if v2.period == 0 {
                (v2, None)
            } else {
                let (v3, nf) = sweep_calculate(v2);
                if v3.shift > 0 {
                    let v4 = SweepView { freq: nf, ..v3 };
                    let (v5, _) = sweep_calculate(v4);
                    (v5, Some(v5.freq))
                } else {
                    (v3, Some(v3.freq))
                }
            }
        }
    }
}

/// Frequency sweep of the first square channel, clocked at 128 Hz.
#[derive(Clone, Debug)]
pub struct Sweep {
    disabling_channel: bool,
    freq: usize,
    timer: Timer,
    subtract: bool,
    subtracted: bool,
    period: usize,
    shift: usize,
}

impl View for Sweep {
    type V = SweepView;

    closed spec fn view(&self) -> SweepView {
        SweepView {
            disabling_channel: self.disabling_channel,
            freq: self.freq,
            timer: self.timer@,
            subtract: self.subtract,
            subtracted: self.subtracted,
            period: self.period as nat,
            shift: self.shift,
        }
    }
}

impl Sweep {
    pub fn new() -> (r: Self)
        ensures
            r@ == (SweepView {
                disabling_channel: false,
                freq: 0,
                timer: TimerView { enable: false, counter: 0, interval: 0 },
                subtract: false,
                subtracted: false,
                period: 0,
                shift: 0,
            }),
    {
        Self {
            freq: 0,
            timer: Timer::disabled(),
            subtract: false,
            period: 0,
            shift: 0,
            subtracted: false,
            disabling_channel: false,
        }
    }

    /// Whether an overflow has disabled the channel.
    pub fn disabling_channel(&self) -> (r: bool)
        ensures
            r == self@.disabling_channel,
    {
        self.disabling_channel
    }

    /// Restarts the sweep from `freq` with the given parameters.
    pub fn trigger(&mut self, freq: usize, period: usize, subtract: bool, shift: usize)
        requires
            shift < usize::BITS,
        ensures
            final(self)@ == sweep_trigger_spec(old(self)@, freq, period as nat, subtract, shift),
    {
        self.freq = freq;
        self.disabling_channel = false;
        self.period = period;
        self.shift = shift;
        self.subtract = subtract;
        self.subtracted = false;
        if period > 0 || shift > 0 {
            self.timer.enable();
        } else {
            self.timer.disable();
        }
        self.reload_timer();
        if self.shift > 0 {
            // If shift is non-zero, calculation and overflow checks happen again on trigger
            // discarding the new frequency
            self.calculate();
        }
    }

    /// Handles a write of the sweep register.
    pub fn update_params(&mut self, period: usize, subtract: bool, shift: usize)
        requires
            shift < usize::BITS,
        ensures
            final(self)@ == sweep_update_spec(old(self)@, period as nat, subtract, shift),
    {
        // Ending subtraction mode after calculation with subtraction disables the channel.
        if self.subtracted && self.subtract && !subtract {
            self.disable();
        }
        self.period = period;
        self.shift = shift;
        self.subtract = subtract;
    }

    /// Clocks the sweep on steps 2 and 6; returns the new frequency when it is recomputed.
    pub fn step(&mut self, frame: Frame) -> (r: Option<usize>)
        requires
            sweep_wf(old(self)@),
        ensures
            (final(self)@, r) == sweep_step_spec(old(self)@, frame),
    {
        match frame.switched() {
            Some(2) | Some(6) => {},
            _ => return None,
        }
        if !self.timer.tick() {
            return None;
        }
        self.reload_timer();
        // Calculation happens only when period > 0
        if self.period == 0 {
            return None;
        }
        let new_freq = self.calculate();
        // Frequency update happens only when shift > 0
        if self.shift > 0 {
            self.freq = new_freq;
            // Calculation and overflow check actually happens AGAIN
            // but discarding the new frequency
            self.calculate();
        }
        Some(self.freq)
    }

    fn calculate(&mut self) -> (r: usize)
        requires
            sweep_wf(old(self)@),
        ensures
            (final(self)@, r) == sweep_calculate(old(self)@),
    {
        let new_freq = if self.subtract {
            // This is to detect subtract mode ends after subtraction to disable channel.
            self.subtracted = true;
            self.freq.wrapping_sub(self.freq >> self.shift)
        } else {
            self.freq.wrapping_add(self.freq >> self.shift)
        };
        if new_freq >= 2048 {
            self.disable();
            self.freq
        } else {
            new_freq
        }
    }

    fn reload_timer(&mut self)
        ensures
            final(self)@ == sweep_reload_timer(old(self)@),
    {
        self.timer.reset();
        self.timer.set_interval(
            if self.period == 0 {
                8
            } else {
                self.period
            },
        );
    }

    fn disable(&mut self)
        ensures
            final(self)@ == sweep_disable(old(self)@),
    {
        self.timer.disable();
        self.disabling_channel = true;
    }

    pub fn power_on(&mut self)
        ensures
            final(self)@ == old(self)@,
    {
    }

    pub fn power_off(&mut self)
        ensures
            final(self)@ == (SweepView {
                disabling_channel: false,
                freq: 0,
                timer: TimerView { enable: false, counter: 0, interval: 0 },
                subtract: false,
                subtracted: false,
                period: 0,
                shift: 0,
            }),
    {
        self.freq = 0;
        self.timer.disable();
        self.timer.reset();
        self.subtract = false;
        self.period = 0;
        self.shift = 0;
        self.subtracted = false;
        self.disabling_channel = false;
    }
}

/// Every frequency the sweep reports lies below 2048: a calculation that would leave the
/// 11-bit range disables the channel and keeps the old frequency instead.
pub proof fn lemma_sweep_frequency_in_range(v: SweepView, frame: Frame)
    requires
        v.freq < 2048,
    ensures
        sweep_calculate(v).1 < 2048,
        sweep_step_spec(v, frame).1 matches Some(f) ==> f < 2048,
        sweep_step_spec(v, frame).0.freq < 2048,
{
}

/// A calculation whose result leaves the 11-bit range disables the channel.
pub proof fn lemma_sweep_overflow_disables(v: SweepView)
    requires
        sweep_target(v) >= 2048,
    ensures
        sweep_calculate(v).0.disabling_channel,
        !sweep_calculate(v).0.timer.enable,
{
}

} // verus!
