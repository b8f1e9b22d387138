//! Channel helpers driven at the host's sample rate.
use vstd::prelude::*;

use super::clock_divider::ClockDividerView;
use super::frame_sequencer::{rate_step_spec, RateSequencer, RateSequencerView};
use super::length_counter::dec;

verus! {

/// The abstract state of a [`Counter`].
pub struct CounterView {
    pub enable: bool,
    pub active: bool,
    pub length: nat,
    pub base: nat,
    pub freeze: bool,
    pub frame_sequencer: RateSequencerView,
    pub first_half: bool,
}

pub open spec fn counter_wf(v: CounterView) -> bool {
    &&& v.frame_sequencer.step < 8
    &&& v.frame_sequencer.divider.target_clock_rate == 512
}

/// The state after `update(trigger, enable)`.
pub open spec fn counter_update_spec(v: CounterView, trigger: bool, enable: bool) -> CounterView {
    let clock_by_enable = !v.enable && enable && v.first_half;
    let freeze_by_enable = clock_by_enable && v.length == 1;
    let l1 = if clock_by_enable {
        dec(v.length)
    } else {
        v.length
    };
    let f1 = if freeze_by_enable {
        true
    } else if !trigger && enable {
        false
    } else {
        v.freeze
    };
    let l2 = if trigger && l1 == 0 {
        v.base
    } else {
        l1
    };
    let l3 = if trigger && f1 && enable {
        dec(l2)
    } else {
        l2
    };
    let f2 = if trigger {
        false
    } else {
        f1
    };
    let a1 = if trigger {
        true
    } else {
        v.active
    };
    CounterView {
        length: l3,
        freeze: f2,
        enable,
        active: if l3 == 0 {
            false
        } else {
            a1
        },
        ..v
    }
}

/// The state after `step(count)`.
pub open spec fn counter_step_spec(v: CounterView, count: nat) -> CounterView {
    let (seq, entered) = rate_step_spec(v.frame_sequencer, count);
    let v1 = CounterView { frame_sequencer: seq, ..v };
    match entered {
        Some(s) => if s % 2 == 1 {
            CounterView { first_half: false, ..v1 }
        } else {
            let v2 = CounterView { first_half: true, ..v1 };
            if v2.enable {
                let length = dec(v2.length);
                CounterView {
                    length,
                    active: if length == 0 {
                        false
                    } else {
                        v2.active
                    },
                    ..v2
                }
            } else {
                v2
            }
        },
        None => v1,
    }
}

/// A length counter clocked by its own frame sequencer.
#[derive(Clone, Debug)]
pub struct Counter {
    enable: bool,
    active: bool,
    length: usize,
    base: usize,
    freeze: bool,
    frame_sequencer: RateSequencer,
    first_half: bool,
}

impl View for Counter {
    type V = CounterView;

    closed spec fn view(&self) -> CounterView {
        CounterView {
            enable: self.enable,
            active: self.active,
            length: self.length as nat,
            base: self.base as nat,
            freeze: self.freeze,
            frame_sequencer: self.frame_sequencer@,
            first_half: self.first_half,
        }
    }
}

pub open spec fn counter_initial(base: nat) -> CounterView {
    CounterView {
        enable: false,
        active: false,
        length: 0,
        base,
        freeze: false,
        frame_sequencer: RateSequencerView {
            divider: ClockDividerView {
                counter: 0,
                source_clock_rate: 4_194_304,
                target_clock_rate: 512,
            },
            step: 0,
        },
        first_half: false,
    }
}

impl Counter {
    fn new(base: usize) -> (r: Self)
        ensures
            r@ == counter_initial(base as nat),
            counter_wf(r@),
    {
        Self {
            enable: false,
            active: false,
            length: 0,
            base,
            freeze: false,
            frame_sequencer: RateSequencer::new(4_194_304),
            first_half: false,
        }
    }

    /// A counter of up to 64 steps.
    pub fn type64() -> (r: Self)
        ensures
            r@ == counter_initial(64),
            counter_wf(r@),
    {
        Self::new(64)
    }

    /// A counter of up to 256 steps.
    pub fn type256() -> (r: Self)
        ensures
            r@ == counter_initial(256),
            counter_wf(r@),
    {
        Self::new(256)
    }

    /// Handles a write of the trigger and length-enable bits.
    pub fn update(&mut self, trigger: bool, enable: bool)
        ensures
            final(self)@ == counter_update_spec(old(self)@, trigger, enable),
    {
        // Conditions to clock when enabled.
        let disabled_to_enabled = !self.enable && enable;
        let clock_by_enable = disabled_to_enabled && self.first_half;
        let freeze_by_enable = if clock_by_enable {
            self.length == 1
        } else {
            false
        };
        if clock_by_enable {
            self.clock();
        }
        if freeze_by_enable {
            self.freeze = true;
        } else if !trigger && enable {
            self.freeze = false;
        }
        if trigger && self.length == 0 {
            self.length = self.base;
        }
        if trigger {
            if self.freeze && enable {
                self.clock();
            }
            self.freeze = false;
        }
        // Trigger activates counting.
        if trigger {
            self.active = true;
        }
        self.enable = enable;
        if self.length == 0 {
            // If the clock makes length zero, should deactivate
            self.active = false;
        }
    }

    pub fn deactivate(&mut self)
        ensures
            final(self)@ == (CounterView { active: false, ..old(self)@ }),
    {
        self.active = false;
    }

    /// Loads the length register: the counter runs for `base - value` steps.
    pub fn load(&mut self, value: usize)
        requires
            value <= old(self)@.base,
        ensures
            final(self)@ == (CounterView { length: (old(self)@.base - value) as nat, ..old(self)@ }),
    {
        self.length = self.base - value;
    }

    /// Steps once at the given sample rate.
    pub fn step_with_rate(&mut self, rate: usize)
        requires
            counter_wf(old(self)@),
            old(self)@.frame_sequencer.divider.counter < usize::MAX,
        ensures
            counter_wf(final(self)@),
            final(self)@ == counter_step_spec(
                CounterView {
                    frame_sequencer: RateSequencerView {
                        divider: ClockDividerView {
                            source_clock_rate: rate as nat,
                            ..old(self)@.frame_sequencer.divider
                        },
                        ..old(self)@.frame_sequencer
                    },
                    ..old(self)@
                },
                1,
            ),
    {
        self.frame_sequencer.set_source_clock_rate(rate);
        self.step(1);
    }

    /// Advances the counter by `count` source cycles.
    pub fn step(&mut self, count: usize)
        requires
            counter_wf(old(self)@),
            old(self)@.frame_sequencer.divider.counter + count <= usize::MAX,
        ensures
            counter_wf(final(self)@),
            final(self)@ == counter_step_spec(old(self)@, count as nat),
    {
        match self.frame_sequencer.step(count) {
            Some(s) => {
                if s % 2 == 1 {
                    self.first_half = false;
                    return ;
                }
                self.first_half = true;
            },
            None => return ,
        }
        if self.enable {
            // Disabling length should stop length clocking
            self.clock();
            if self.length == 0 {
                // Timeout de-activates the channel
                self.active = false;
            }
        }
    }

    pub fn is_active(&self) -> (r: bool)
        ensures
            r == self@.active,
    {
        self.active
    }

    fn clock(&mut self)
        ensures
            final(self)@ == (CounterView { length: dec(old(self)@.length), ..old(self)@ }),
    {
        self.length = self.length.saturating_sub(1);
    }
}

/// The abstract state of a [`WaveIndex`].
pub struct WaveIndexView {
    pub clock: nat,
    pub index: nat,
}

/// The state after `index(rate, freq, max)`, whose result is the new index.
pub open spec fn wave_index_spec(v: WaveIndexView, rate: nat, freq: nat, max: nat) -> WaveIndexView {
    let c = v.clock + freq;
    if c >= rate {
        WaveIndexView { clock: (c - rate) as nat, index: (v.index + 1) % max }
    } else {
        WaveIndexView { clock: c, ..v }
    }
}

/// Advances through a waveform of `max` samples at `freq` samples per `rate` steps.
pub struct WaveIndex {
    clock: usize,
    index: usize,
}

impl View for WaveIndex {
    type V = WaveIndexView;

    closed spec fn view(&self) -> WaveIndexView {
        WaveIndexView { clock: self.clock as nat, index: self.index as nat }
    }
}

impl WaveIndex {
    /// The accumulated phase.
    pub fn clock(&self) -> (r: usize)
        ensures
            r == self@.clock,
    {
        self.clock
    }

    pub fn new() -> (r: Self)
        ensures
            r@ == (WaveIndexView { clock: 0, index: 0 }),
    {
        Self { clock: 0, index: 0 }
    }

    pub fn index(&mut self, rate: usize, freq: usize, max: usize) -> (r: usize)
        requires
            max > 0,
            old(self)@.clock + freq <= usize::MAX,
            old(self)@.index < usize::MAX,
        ensures
            final(self)@ == wave_index_spec(old(self)@, rate as nat, freq as nat, max as nat),
            r == final(self)@.index,
    {
        self.clock = self.clock + freq;
        if self.clock >= rate {
            self.clock = self.clock - rate;
            self.index = (self.index + 1) % max;
        }
        self.index
    }
}

/// The abstract state of an [`Envelop`].
pub struct EnvelopView {
    pub amp: nat,
    pub count: nat,
    pub inc: bool,
    pub clock: nat,
}

/// The state after `amp(rate)`, whose result is the new volume: the volume steps every
/// `rate * count / 64` calls.
pub open spec fn envelop_amp_spec(v: EnvelopView, rate: nat) -> EnvelopView {
    if v.amp == 0 || v.count == 0 {
        v
    } else {
        let interval = rate * v.count / 64;
        let c = v.clock + 1;
        if c >= interval {
            EnvelopView {
                clock: (c - interval) as nat,
                amp: if v.inc {
                    if v.amp + 1 > 15 {
                        15
                    } else {
                        v.amp + 1
                    }
                } else {
                    dec(v.amp)
                },
                ..v
            }
        } else {
            EnvelopView { clock: c, ..v }
        }
    }
}

/// A volume envelope driven at the host's sample rate.
pub struct Envelop {
    amp: usize,
    count: usize,
    inc: bool,
    clock: usize,
}

impl View for Envelop {
    type V = EnvelopView;

    closed spec fn view(&self) -> EnvelopView {
        EnvelopView {
            amp: self.amp as nat,
            count: self.count as nat,
            inc: self.inc,
            clock: self.clock as nat,
        }
    }
}

impl Envelop {
    /// The calls counted since the last volume step.
    pub fn clock(&self) -> (r: usize)
        ensures
            r == self@.clock,
    {
        self.clock
    }

    pub fn new(amp: usize, count: usize, inc: bool) -> (r: Self)
        ensures
            r@ == (EnvelopView { amp: amp as nat, count: count as nat, inc, clock: 0 }),
    {
        Self { amp, count, inc, clock: 0 }
    }

    pub fn amp(&mut self, rate: usize) -> (r: usize)
        requires
            rate * old(self)@.count <= usize::MAX,
            old(self)@.clock < usize::MAX,
        ensures
            final(self)@ == envelop_amp_spec(old(self)@, rate as nat),
            r == (if old(self)@.amp == 0 {
                0
            } else {
                final(self)@.amp
            }),
    {
        if self.amp == 0 {
            return 0;
        }
        if self.count == 0 {
            return self.amp;
        }
        let interval = rate * self.count / 64;
        self.clock = self.clock + 1;
        if self.clock >= interval {
            self.clock = self.clock - interval;
            self.amp = if self.inc {
                self.amp.saturating_add(1).min(15)
            } else {
                self.amp.saturating_sub(1)
            };
        }
        self.amp
    }
}

} // verus!
