use vstd::prelude::*;

use super::frame_sequencer::{switched_spec, Frame};

verus! {

/// The abstract state of a [`LengthCounter`].
pub struct LengthCounterView {
    pub enable: bool,
    pub active: bool,
    pub length: nat,
    pub base: nat,
    pub extra_clock: bool,
}

/// Whether the frame sequencer step clocks the length counters (steps 0, 2, 4 and 6).
pub open spec fn can_clock_spec(frame_index: Option<usize>) -> bool {
    match frame_index {
        Some(i) => i == 0 || i == 2 || i == 4 || i == 6,
        None => false,
    }
}

pub open spec fn dec(n: nat) -> nat {
    if n > 0 {
        (n - 1) as nat
    } else {
        0
    }
}

/// The state after `update(trigger, enable)`.
pub open spec fn length_update_spec(v: LengthCounterView, trigger: bool, enable: bool) -> LengthCounterView {
    // Disabled -> enabled in the first half clocks once unless length is zero;
    // reaching zero that way deactivates the channel.
    let clocked = enable && !v.enable && v.extra_clock && v.length != 0;
    let length1 = if clocked {
        dec(v.length)
    } else {
        v.length
    };
    let active1 = if clocked && length1 == 0 {
        false
    } else {
        v.active
    };
    // Trigger on zero length loads max, and clocks once if enabled in the first half.
    let length2 = if trigger && length1 == 0 {
        if enable && v.extra_clock {
            dec(v.base)
        } else {
            v.base
        }
    } else {
        length1
    };
    let active2 = if trigger {
        true
    } else {
        active1
    };
    LengthCounterView { enable, active: active2, length: length2, ..v }
}

/// The state after `step(frame)`.
pub open spec fn length_step_spec(v: LengthCounterView, frame: Frame) -> LengthCounterView {
    let extra_clock = !can_clock_spec(frame.next);
    if !can_clock_spec(switched_spec(frame)) || !v.enable {
        LengthCounterView { extra_clock, ..v }
    } else {
        let length = dec(v.length);
        LengthCounterView {
            extra_clock,
            length,
            active: if length == 0 {
                false
            } else {
                v.active
            },
            ..v
        }
    }
}

/// Silences a channel after a programmed length, clocked at 256 Hz by the frame sequencer.
#[derive(Clone, Debug)]
pub struct LengthCounter {
    enable: bool,
    active: bool,
    length: usize,
    base: usize,
    extra_clock: bool,
}

impl View for LengthCounter {
    type V = LengthCounterView;

    closed spec fn view(&self) -> LengthCounterView {
        LengthCounterView {
            enable: self.enable,
            active: self.active,
            length: self.length as nat,
            base: self.base as nat,
            extra_clock: self.extra_clock,
        }
    }
}

impl LengthCounter {
    fn new(base: usize) -> (r: Self)
        ensures
            r@ == (LengthCounterView {
                enable: false,
                active: false,
                length: 0,
                base: base as nat,
                extra_clock: false,
            }),
    {
        Self { enable: false, active: false, length: 0, base, extra_clock: false }
    }

    /// A counter of up to 64 steps (square and noise channels).
    pub fn type64() -> (r: Self)
        ensures
            r@ == (LengthCounterView {
                enable: false,
                active: false,
                length: 0,
                base: 64,
                extra_clock: false,
            }),
    {
        Self::new(64)
    }

    /// A counter of up to 256 steps (wave channel).
    pub fn type256() -> (r: Self)
        ensures
            r@ == (LengthCounterView {
                enable: false,
                active: false,
                length: 0,
                base: 256,
                extra_clock: false,
            }),
    {
        Self::new(256)
    }

    /// Handles a write of the trigger and length-enable bits.
    pub fn update(&mut self, trigger: bool, enable: bool)
        ensures
            final(self)@ == length_update_spec(old(self)@, trigger, enable),
    {
        if enable {
            // Disabled -> enabled in the first half
            // should clock once on enable
            if !self.enable && self.extra_clock {
                // Clock unless length reaches zero
                if self.length != 0 {
                    self.clock();
                    // If counter reaches zero, should deactivate.
                    if self.length == 0 {
                        self.active = false;
                    }
                }
            }
        }
        self.enable = enable;
        if trigger {
            // Trigger on zero length loads max
            if self.length == 0 {
                self.length = self.base;
                // Reloading 0 -> max on trigger & enable in the first half
                // should clock once on enable.
                if self.enable && self.extra_clock {
                    self.clock();
                }
            }
            self.active = true;
        }
    }

    pub fn deactivate(&mut self)
        ensures
            final(self)@ == (LengthCounterView { active: false, ..old(self)@ }),
    {
        self.active = false;
    }

    pub fn power_on(&mut self)
        ensures
            final(self)@ == (LengthCounterView { extra_clock: false, ..old(self)@ }),
    {
        self.extra_clock = false;
    }

    pub fn power_off(&mut self)
        ensures
            final(self)@ == (LengthCounterView { enable: false, active: false, ..old(self)@ }),
    {
        self.enable = false;
        self.active = false;
    }

    /// Loads the length register: the counter runs for `base - value` steps.
    pub fn load(&mut self, value: usize)
        requires
            value <= old(self)@.base,
        ensures
            final(self)@ == (LengthCounterView {
                length: (old(self)@.base - value) as nat,
                ..old(self)@
            }),
    {
        self.length = self.base - value;
    }

    /// Clocks the counter on the steps of the frame sequencer that drive it.
    pub fn step(&mut self, frame: Frame)
        ensures
            final(self)@ == length_step_spec(old(self)@, frame),
    {
        // Extra clock happens if next frame isn't active.
        self.extra_clock = !can_clock(frame.next);
        if !can_clock(frame.switched()) {
            return;
        }
        if self.enable {
            // Disabling length should stop length clocking
            self.clock();
            if self.length == 0 {
                // Timeout de-activates the channel
                self.active = false;
            }
        }
    }

    pub fn is_active(&self) -> (r: bool)
        ensures
            r == self@.active,
    {
        self.active
    }

    fn clock(&mut self)
        ensures
            final(self)@ == (LengthCounterView { length: dec(old(self)@.length), ..old(self)@ }),
    {
        self.length = self.length.saturating_sub(1);
    }
}

fn can_clock(frame_index: Option<usize>) -> (r: bool)
    ensures
        r == can_clock_spec(frame_index),
{
    match frame_index {
        Some(0) | Some(2) | Some(4) | Some(6) => true,
        _ => false,
    }
}

/// A triggered counter is active; a counter that is clocked down to zero while enabled
/// becomes inactive.
pub proof fn lemma_length_trigger_activates(v: LengthCounterView, enable: bool)
    ensures
        length_update_spec(v, true, enable).active,
        v.base > 1 && v.length == 0 ==> length_update_spec(v, true, enable).length > 0,
{
}

/// An enabled counter at length one that is clocked by the sequencer times out.
pub proof fn lemma_length_times_out(v: LengthCounterView, frame: Frame)
    requires
        v.enable,
        v.length == 1,
        can_clock_spec(switched_spec(frame)),
    ensures
        length_step_spec(v, frame).length == 0,
        !length_step_spec(v, frame).active,
{
}

} // verus!
