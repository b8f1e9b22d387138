use vstd::prelude::*;

use crate::clock::timer::{tick_spec, Timer, TimerView};
use crate::cpu::CPU_FREQ_HZ;

use super::clock_divider::ClockDividerView;
use super::envelope::{dec_amp, inc_amp};
use super::frame_sequencer::{rate_step_spec, RateSequencer, RateSequencerView};

verus! {

/// The abstract state of an [`Envelop`].
pub struct EnvelopView {
    pub amp: nat,
    pub inc: bool,
    pub frame_sequencer: RateSequencerView,
    pub timer: TimerView,
}

pub open spec fn envelop_wf(v: EnvelopView) -> bool {
    &&& v.frame_sequencer.step < 8
    &&& v.frame_sequencer.divider.target_clock_rate == 512
}

/// The state after `step(cycles)`: on step 7 of the sequencer the timer ticks, and when it
/// expires the volume moves one step.
pub open spec fn envelop_step_spec(v: EnvelopView, cycles: nat) -> EnvelopView {
    if v.amp == 0 {
        v
    } else {
        let (seq, entered) = rate_step_spec(v.frame_sequencer, cycles);
        let v1 = EnvelopView { frame_sequencer: seq, ..v };
        if entered != Some(7usize) {
            v1
        } else {
            let (t, fired) = tick_spec(v1.timer);
            let v2 = EnvelopView { timer: t, ..v1 };
            if !fired {
                v2
            } else {
                EnvelopView {
                    amp: if v2.inc {
                        inc_amp(v2.amp)
                    } else {
                        dec_amp(v2.amp)
                    },
                    ..v2
                }
            }
        }
    }
}

/// A volume envelope with its own frame sequencer.
#[derive(Debug, Clone)]
pub struct Envelop {
    amp: usize,
    inc: bool,
    frame_sequencer: RateSequencer,
    timer: Timer,
}

impl View for Envelop {
    type V = EnvelopView;

    closed spec fn view(&self) -> EnvelopView {
        EnvelopView {
            amp: self.amp as nat,
            inc: self.inc,
            frame_sequencer: self.frame_sequencer@,
            timer: self.timer@,
        }
    }
}

impl Envelop {
    pub fn new() -> (r: Self)
        ensures
            envelop_wf(r@),
            r@ == (EnvelopView {
                amp: 0,
                inc: false,
                frame_sequencer: RateSequencerView {
                    divider: ClockDividerView {
                        counter: 0,
                        source_clock_rate: CPU_FREQ_HZ as nat,
                        target_clock_rate: 512,
                    },
                    step: 0,
                },
                timer: TimerView { enable: true, counter: 0, interval: 0 },
            }),
    {
        Self {
            amp: 0,
            inc: false,
            frame_sequencer: RateSequencer::new(CPU_FREQ_HZ),
            timer: Timer::enabled(),
        }
    }

    /// Restarts the envelope at volume `amp`, stepping every `count` ticks.
    pub fn update(&mut self, amp: usize, count: usize, inc: bool)
        ensures
            final(self)@ == (EnvelopView {
                amp: amp as nat,
                inc,
                timer: TimerView { interval: count as nat, counter: 0, ..old(self)@.timer },
                ..old(self)@
            }),
    {
        self.amp = amp;
        self.inc = inc;
        self.timer.set_interval(count);
    }

    pub fn step(&mut self, cycles: usize)
        requires
            envelop_wf(old(self)@),
            old(self)@.frame_sequencer.divider.counter + cycles <= usize::MAX,
        ensures
            envelop_wf(final(self)@),
            final(self)@ == envelop_step_spec(old(self)@, cycles as nat),
    {
        if self.amp == 0 {
            return;
        }
        match self.frame_sequencer.step(cycles) {
            Some(7) => {},
            _ => return ,
        }
        if !self.timer.tick() {
            return;
        }
        self.amp = if self.inc {
            self.amp.saturating_add(1).min(15)
        } else {
            self.amp.saturating_sub(1)
        };
    }

    /// Steps once at the given sample rate.
    pub fn step_with_rate(&mut self, rate: usize)
        requires
            envelop_wf(old(self)@),
            old(self)@.frame_sequencer.divider.counter < usize::MAX,
        ensures
            envelop_wf(final(self)@),
            final(self)@ == envelop_step_spec(
                EnvelopView {
                    frame_sequencer: RateSequencerView {
                        divider: ClockDividerView {
                            source_clock_rate: rate as nat,
                            ..old(self)@.frame_sequencer.divider
                        },
                        ..old(self)@.frame_sequencer
                    },
                    ..old(self)@
                },
                1,
            ),
    {
        self.frame_sequencer.set_source_clock_rate(rate);
        self.step(1);
    }

    pub fn amp(&self) -> (r: usize)
        ensures
            r == self@.amp,
    {
        self.amp
    }
}

/// A step (and so `step_with_rate`, a step of one cycle at the given source rate) moves the
/// volume by at most one step, in the direction of `inc`; a silent envelope stays silent and
/// the volume stays within [0, 15].
pub proof fn lemma_envelop_step_bounded(v: EnvelopView, cycles: nat)
    requires
        v.amp <= 15,
    ensures
        envelop_step_spec(v, cycles).amp <= 15,
        v.amp == 0 ==> envelop_step_spec(v, cycles).amp == 0,
        envelop_step_spec(v, cycles).amp == v.amp || (v.inc && envelop_step_spec(v, cycles).amp
            == inc_amp(v.amp)) || (!v.inc && envelop_step_spec(v, cycles).amp == dec_amp(v.amp)),
{
}

} // verus!
