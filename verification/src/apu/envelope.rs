use vstd::prelude::*;

use crate::clock::timer::{tick_spec, Timer, TimerView};

use super::frame_sequencer::{switched_spec, Frame};

verus! {

/// The abstract state of an [`Envelope`].
pub struct EnvelopeView {
    pub amp: nat,
    pub increase: bool,
    pub timer: TimerView,
    pub interval: nat,
    pub force_tick: bool,
    pub active: bool,
}

pub open spec fn inc_amp(amp: nat) -> nat {
    if amp + 1 > 15 {
        15
    } else {
        amp + 1
    }
}

pub open spec fn dec_amp(amp: nat) -> nat {
    if amp > 0 {
        (amp - 1) as nat
    } else {
        0
    }
}

/// Restarts the timer with the current interval.
pub open spec fn env_reload_timer(v: EnvelopeView) -> EnvelopeView {
    EnvelopeView { timer: TimerView { counter: 0, interval: v.interval, ..v.timer }, ..v }
}

/// One volume step in the current direction.
pub open spec fn env_update_amp(v: EnvelopeView) -> EnvelopeView {
    EnvelopeView {
        amp: if v.increase {
            inc_amp(v.amp)
        } else {
            dec_amp(v.amp)
        },
        ..v
    }
}

pub open spec fn env_tick(v: EnvelopeView) -> EnvelopeView {
    env_update_amp(env_reload_timer(EnvelopeView { force_tick: false, ..v }))
}

/// The state after `step(frame)`.
pub open spec fn env_step_spec(v: EnvelopeView, frame: Frame) -> EnvelopeView {
    match switched_spec(frame) {
        Some(s) => if s == 7 {
            let (t, fired) = tick_spec(v.timer);
            if fired {
                env_tick(EnvelopeView { timer: t, ..v })
            } else {
                EnvelopeView { timer: t, ..v }
            }
        } else if (s == 1 || s == 3 || s == 5) && v.force_tick {
            env_tick(v)
        } else {
            v
        },
        None => v,
    }
}

/// The state after `trigger(amp, interval, increase)`.
pub open spec fn env_trigger_spec(v: EnvelopeView, amp: nat, interval: nat, increase: bool) -> EnvelopeView {
    EnvelopeView {
        active: true,
        ..env_reload_timer(EnvelopeView { amp, increase, interval, ..v })
    }
}

/// The volume after a change of direction: 16 - volume, within the volume range [0, 15].
pub open spec fn flipped_amp(amp: nat) -> nat {
    if amp >= 16 {
        0
    } else if amp == 0 {
        15
    } else {
        (16 - amp) as nat
    }
}

/// The state after `reload(_, interval, increase)` while the envelope is running: a new
/// period takes effect at once when it enables or disables the envelope; an envelope whose
/// old period was zero and that still counts up gains one volume step, one in subtract mode
/// with a non-zero old period gains two; a change of direction sets the volume to
/// 16 - volume.
pub open spec fn env_reload_spec(v: EnvelopeView, interval: nat, increase: bool) -> EnvelopeView {
    if !v.active {
        v
    } else {
        let old_enabled = v.interval != 0;
        let new_enabled = interval != 0;
        let v1 = EnvelopeView { interval, ..v };
        let v2 = if !old_enabled && new_enabled {
            EnvelopeView { force_tick: true, ..env_reload_timer(v1) }
        } else if old_enabled && !new_enabled {
            EnvelopeView { force_tick: false, ..env_reload_timer(v1) }
        } else {
            v1
        };
        let v3 = if !old_enabled && v2.amp < 15 && v2.increase {
            EnvelopeView { amp: inc_amp(v2.amp), ..v2 }
        } else if old_enabled && !v2.increase {
            EnvelopeView { amp: inc_amp(inc_amp(v2.amp)), ..v2 }
        } else {
            v2
        };
        if v3.increase != increase {
            EnvelopeView { amp: flipped_amp(v3.amp), increase, ..v3 }
        } else {
            v3
        }
    }
}

/// Volume envelope: steps the volume up or down every `interval` ticks of 64 Hz.
#[derive(Debug, Clone)]
pub struct Envelope {
    amp: usize,
    increase: bool,
    timer: Timer,
    interval: usize,
    force_tick: bool,
    active: bool,
}

impl View for Envelope {
    type V = EnvelopeView;

    closed spec fn view(&self) -> EnvelopeView {
        EnvelopeView {
            amp: self.amp as nat,
            increase: self.increase,
            timer: self.timer@,
            interval: self.interval as nat,
            force_tick: self.force_tick,
            active: self.active,
        }
    }
}

impl Envelope {
    pub fn new() -> (r: Self)
        ensures
            r@ == (EnvelopeView {
                amp: 0,
                increase: false,
                timer: TimerView { enable: true, counter: 0, interval: 0 },
                interval: 0,
                force_tick: false,
                active: false,
            }),
    {
        Self {
            amp: 0,
            increase: false,
            timer: Timer::enabled(),
            interval: 0,
            force_tick: false,
            active: false,
        }
    }

    /// Starts the envelope at volume `amp`.
    pub fn trigger(&mut self, amp: usize, interval: usize, increase: bool)
        ensures
            final(self)@ == env_trigger_spec(old(self)@, amp as nat, interval as nat, increase),
    {
        self.amp = amp;
        self.increase = increase;
        self.interval = interval;
        self.reload_timer();
        self.active = true;
    }

    /// Handles a register write while the envelope runs ("zombie mode").
    pub fn reload(&mut self, _amp: usize, interval: usize, increase: bool)
        ensures
            final(self)@ == env_reload_spec(old(self)@, interval as nat, increase),
    {
        if !self.active {
            return;
        }
        // Definition of "enabled" here is non-zero interval.
        let old_enabled = self.interval != 0;
        let new_enabled = interval != 0;
        // The envelope speed can be changed while it's active, and the change takes
        // effect after the next time it ticks.
        self.interval = interval;
        if !old_enabled && new_enabled {
            // Enabling the envelope takes effect instantly.
            self.reload_timer();
            // For simulating the APU bug (see `step`)
            self.force_tick = true;
        } else if old_enabled && !new_enabled {
            // Disabling the envelope takes effect instantly.
            self.reload_timer();
            self.force_tick = false;
        }
        // Zombie mode effect (1): if the old envelope period was zero and the envelope is
        // still doing automatic updates, volume is incremented by 1, otherwise if the
        // envelope was in subtract mode, volume is incremented by 2.
        if !old_enabled && self.amp < 15 && self.increase {
            self.increase_amp();
        } else if old_enabled && !self.increase {
            self.increase_amp();
            self.increase_amp();
        }
        // Zombie mode effect (2): if the mode was changed (add to subtract or subtract to
        // add), volume is set to 16-volume.
        if self.increase != increase {
            let a = 16usize.saturating_sub(self.amp);
            self.amp = if a > 15 {
                15
            } else {
                a
            };
            self.increase = increase;
        }
    }

    /// Clocks the envelope on step 7 of the frame sequencer.
    pub fn step(&mut self, frame: Frame)
        ensures
            final(self)@ == env_step_spec(old(self)@, frame),
    {
        match frame.switched() {
            Some(7) => {},
            Some(s) => {
                if (s == 1 || s == 3 || s == 5) && self.force_tick {
                    // Enabling the envelope triggers an APU bug - in the next *even* DIV-APU
                    // tick, the APU ticks the volume envelope of that channel.
                    self.tick();
                }
                return;
            },
            None => return ,
        }
        if !self.timer.tick() {
            return;
        }
        self.tick();
    }

    pub fn amp(&self) -> (r: usize)
        ensures
            r == self@.amp,
    {
        self.amp
    }

    pub fn deactivate(&mut self)
        ensures
            final(self)@ == (EnvelopeView { active: false, ..old(self)@ }),
    {
        self.active = false;
    }

    fn tick(&mut self)
        ensures
            final(self)@ == env_tick(old(self)@),
    {
        self.force_tick = false;
        self.reload_timer();
        self.update_amp();
    }

    fn update_amp(&mut self)
        ensures
            final(self)@ == env_update_amp(old(self)@),
    {
        if self.increase {
            self.increase_amp();
        } else {
            self.decrease_amp();
        }
    }

    fn increase_amp(&mut self)
        ensures
            final(self)@ == (EnvelopeView { amp: inc_amp(old(self)@.amp), ..old(self)@ }),
    {
        self.amp = self.amp.saturating_add(1).min(15);
    }

    fn decrease_amp(&mut self)
        ensures
            final(self)@ == (EnvelopeView { amp: dec_amp(old(self)@.amp), ..old(self)@ }),
    {
        self.amp = self.amp.saturating_sub(1);
    }

    fn reload_timer(&mut self)
        ensures
            final(self)@ == env_reload_timer(old(self)@),
    {
        self.timer.reset();
        self.timer.set_interval(self.interval);
    }

    pub fn power_off(&mut self)
        ensures
            final(self)@ == (EnvelopeView { active: false, ..old(self)@ }),
    {
        self.active = false;
    }
}

/// The volume never leaves [0, 15] once it starts there: no call on the envelope can push it
/// out (a trigger sets the volume it is given), so every envelope reached from `new` by
/// triggers at volumes up to 15 and any steps, reloads, deactivations and power-offs has a
/// volume of at most 15.
pub proof fn lemma_envelope_amp_bounded(
    v: EnvelopeView,
    frame: Frame,
    interval: nat,
    increase: bool,
    amp: nat,
)
    requires
        v.amp <= 15,
    ensures
        env_step_spec(v, frame).amp <= 15,
        env_reload_spec(v, interval, increase).amp <= 15,
        amp <= 15 ==> env_trigger_spec(v, amp, interval, increase).amp <= 15,
        (EnvelopeView { active: false, ..v }).amp <= 15,
{
}

} // verus!
