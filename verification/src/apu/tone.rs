use vstd::prelude::*;

use crate::clock::clock_divider::{
    divider_after, divider_can_step, divider_times, divider_wf, ClockDivider, ClockDividerView,
};
use crate::clock::timer::{tick_spec, Timer, TimerView};

use super::dac::{analog_of, Dac, DacView};
use super::envelope::{env_step_spec, env_trigger_spec, Envelope, EnvelopeView};
use super::frame_sequencer::Frame;
use super::length_counter::{
    length_step_spec, length_update_spec, LengthCounter, LengthCounterView,
};
use super::sweep::{sweep_step_spec, sweep_trigger_spec, sweep_update_spec, Sweep, SweepView};

verus! {

/// The rate at which the square wave timer is clocked.
pub const TONE_FREQ_HZ: usize = 1_048_576;

/// The abstract state of a [`Tone`] channel.
pub struct ToneView {
    pub power: bool,
    pub sweep: Option<SweepView>,
    pub envelope: EnvelopeView,
    pub nr10: u8,
    pub nr11: u8,
    pub nr12: u8,
    pub nr13: u8,
    pub nr14: u8,
    pub length_counter: LengthCounterView,
    pub divider: ClockDividerView,
    pub timer: TimerView,
    pub freq: u16,
    pub dac: DacView,
    pub index: nat,
}

/// The invariant of a square channel.
pub open spec fn tone_wf(v: ToneView) -> bool {
    &&& v.freq < 2048
    &&& v.index < 8
    &&& v.envelope.amp <= 15
    &&& divider_wf(v.divider)
    &&& v.divider.target_clock_rate == TONE_FREQ_HZ
    &&& match v.sweep {
        Some(s) => s.shift < 8 && s.freq < 2048,
        None => true,
    }
}

// Register fields.
pub open spec fn nr10_shift(v: u8) -> u8 {
    v & 0x07
}

pub open spec fn nr10_subtract(v: u8) -> bool {
    v & 0x08 != 0
}

pub open spec fn nr10_period(v: u8) -> u8 {
    (v >> 4u8) & 0x07
}

pub open spec fn nr11_length(v: u8) -> u8 {
    v & 0x3f
}

pub open spec fn nr11_duty(v: u8) -> u8 {
    v >> 6u8
}

pub open spec fn nr12_count(v: u8) -> u8 {
    v & 0x07
}

pub open spec fn nr12_increase(v: u8) -> bool {
    v & 0x08 != 0
}

pub open spec fn nr12_init(v: u8) -> u8 {
    v >> 4u8
}

pub open spec fn nr14_trigger(v: u8) -> bool {
    v & 0x80 != 0
}

pub open spec fn nr14_length_enable(v: u8) -> bool {
    v & 0x40 != 0
}

/// Replaces the low 8 bits of an 11-bit frequency.
pub open spec fn with_low(freq: u16, low: u8) -> u16 {
    (freq & 0x700) | (low as u16)
}

/// Replaces the high 3 bits of an 11-bit frequency.
pub open spec fn with_high(freq: u16, high: u8) -> u16 {
    (freq & 0xff) | (((high & 0x07) as u16) << 8u16)
}

/// The output level (0 or 1) of the square wave at `index` for a duty setting.
pub open spec fn duty_bit(duty: u8, index: nat) -> nat {
    if duty == 0 {
        if index == 7 {
            1
        } else {
            0
        }
    } else if duty == 1 {
        if index == 0 || index == 7 {
            1
        } else {
            0
        }
    } else if duty == 2 {
        if index == 0 || index >= 5 {
            1
        } else {
            0
        }
    } else {
        if 1 <= index <= 6 {
            1
        } else {
            0
        }
    }
}

pub open spec fn tone_is_active(v: ToneView) -> bool {
    let disabling = match v.sweep {
        Some(s) => s.disabling_channel,
        None => false,
    };
    v.length_counter.active && v.dac.power && !disabling
}

pub open spec fn tone_reload_timer(v: ToneView) -> ToneView {
    ToneView {
        timer: TimerView { counter: 0, interval: (2048 - v.freq) as nat, ..v.timer },
        ..v
    }
}

/// One tick of the square wave timer.
pub open spec fn tone_update_index(v: ToneView) -> ToneView {
    if !tone_is_active(v) {
        v
    } else {
        let (t, fired) = tick_spec(v.timer);
        if !fired {
            ToneView { timer: t, ..v }
        } else {
            let v1 = tone_reload_timer(ToneView { timer: t, ..v });
            ToneView { index: (v1.index + 1) % 8, ..v1 }
        }
    }
}

pub open spec fn tone_update_n(v: ToneView, n: nat) -> ToneView
    decreases n,
{
    if n == 0 {
        v
    } else {
        tone_update_index(tone_update_n(v, (n - 1) as nat))
    }
}

pub open spec fn dac_write_spec(d: DacView, amp: nat) -> DacView {
    if d.power {
        DacView { power: true, digital_amp: amp, analog_amp: analog_of(amp) }
    } else {
        d
    }
}

pub open spec fn tone_write_amp(v: ToneView) -> ToneView {
    ToneView {
        dac: dac_write_spec(v.dac, duty_bit(nr11_duty(v.nr11), v.index) * v.envelope.amp),
        ..v
    }
}

/// Whether `step(cycles, _)` keeps the divider's accumulator in machine range.
pub open spec fn tone_can_step(v: ToneView, cycles: nat) -> bool {
    divider_can_step(v.divider, cycles)
}

/// The state after `step(cycles, frame)`.
pub open spec fn tone_step_spec(v: ToneView, cycles: nat, frame: Frame) -> ToneView {
    let (sweep, freq) = match v.sweep {
        Some(s) => {
            let (s1, nf) = sweep_step_spec(s, frame);
            (
                Some(s1),
                match nf {
                    Some(f) => f as u16,
                    None => v.freq,
                },
            )
        },
        None => (None, v.freq),
    };
    let v1 = ToneView {
        sweep,
        freq,
        length_counter: length_step_spec(v.length_counter, frame),
        envelope: env_step_spec(v.envelope, frame),
        divider: divider_after(v.divider, cycles),
        ..v
    };
    tone_write_amp(tone_update_n(v1, divider_times(v.divider, cycles)))
}

/// The state after a write of NR14/NR24 while powered.
pub open spec fn tone_write_freq_high_spec(v: ToneView, value: u8) -> ToneView {
    let freq = with_high(v.freq, value);
    let v1 = ToneView {
        nr14: value,
        freq,
        length_counter: length_update_spec(
            v.length_counter,
            nr14_trigger(value),
            nr14_length_enable(value),
        ),
        sweep: match v.sweep {
            Some(s) => Some(
                sweep_trigger_spec(
                    s,
                    freq as usize,
                    nr10_period(v.nr10) as nat,
                    nr10_subtract(v.nr10),
                    nr10_shift(v.nr10) as usize,
                ),
            ),
            None => None,
        },
        ..v
    };
    if nr14_trigger(value) {
        ToneView {
            envelope: env_trigger_spec(
                v1.envelope,
                nr12_init(v.nr12) as nat,
                nr12_count(v.nr12) as nat,
                nr12_increase(v.nr12),
            ),
            ..tone_reload_timer(v1)
        }
    } else {
        v1
    }
}

/// A square wave channel (channels 1 and 2; only channel 1 has a sweep).
#[derive(Debug, Clone)]
pub struct Tone {
    power: bool,
    sweep: Option<Sweep>,
    envelope: Envelope,
    nr10: u8,
    nr11: u8,
    nr12: u8,
    nr13: u8,
    nr14: u8,
    length_counter: LengthCounter,
    divider: ClockDivider,
    timer: Timer,
    freq: u16,
    dac: Dac,
    index: usize,
}

impl View for Tone {
    type V = ToneView;

    closed spec fn view(&self) -> ToneView {
        ToneView {
            power: self.power,
            sweep: match self.sweep {
                Some(s) => Some(s@),
                None => None,
            },
            envelope: self.envelope@,
            nr10: self.nr10,
            nr11: self.nr11,
            nr12: self.nr12,
            nr13: self.nr13,
            nr14: self.nr14,
            length_counter: self.length_counter@,
            divider: self.divider@,
            timer: self.timer@,
            freq: self.freq,
            dac: self.dac@,
            index: self.index as nat,
        }
    }
}

/// The state after `write_sweep(value)`.
pub open spec fn tone_write_sweep_spec(v: ToneView, value: u8) -> ToneView {
    if !v.power {
        v
    } else {
        ToneView {
            nr10: value,
            sweep: match v.sweep {
                Some(s) => Some(
                    sweep_update_spec(
                        s,
                        nr10_period(value) as nat,
                        nr10_subtract(value),
                        nr10_shift(value) as usize,
                    ),
                ),
                None => None,
            },
            ..v
        }
    }
}

/// The state after `write_wave(value)`.
pub open spec fn tone_write_wave_spec(v: ToneView, value: u8) -> ToneView {
    ToneView {
        length_counter: LengthCounterView {
            length: (64 - nr11_length(value)) as nat,
            ..v.length_counter
        },
        nr11: if v.power {
            value
        } else {
            v.nr11
        },
        ..v
    }
}

/// The state after `write_envelop(value)`.
pub open spec fn tone_write_envelop_spec(v: ToneView, value: u8) -> ToneView {
    if !v.power {
        v
    } else if nr12_init(value) > 0 || nr12_increase(value) {
        ToneView { nr12: value, dac: DacView { power: true, ..v.dac }, ..v }
    } else {
        ToneView {
            nr12: value,
            dac: DacView { power: false, analog_amp: 0, ..v.dac },
            length_counter: LengthCounterView {
                active: false,
                ..v.length_counter
            },
            ..v
        }
    }
}

/// The state after `write_freq_low(value)`.
pub open spec fn tone_write_freq_low_spec(v: ToneView, value: u8) -> ToneView {
    if !v.power {
        v
    } else {
        ToneView { nr13: value, freq: with_low(v.freq, value), ..v }
    }
}

/// The state after `power_on()`.
pub open spec fn tone_power_on_spec(v: ToneView) -> ToneView {
    ToneView {
        power: true,
        length_counter: LengthCounterView {
            extra_clock: false,
            ..v.length_counter
        },
        ..v
    }
}

/// The state after `power_off()`.
pub open spec fn tone_power_off_spec(v: ToneView) -> ToneView {
    ToneView {
        power: false,
        sweep: match v.sweep {
            Some(_) => Some(
                SweepView {
                    disabling_channel: false,
                    freq: 0,
                    timer: TimerView { enable: false, counter: 0, interval: 0 },
                    subtract: false,
                    subtracted: false,
                    period: 0,
                    shift: 0,
                },
            ),
            None => None,
        },
        nr10: 0,
        nr11: 0,
        nr12: 0,
        nr13: 0,
        nr14: 0,
        freq: 0,
        index: 0,
        length_counter: LengthCounterView {
            enable: false,
            active: false,
            ..v.length_counter
        },
        dac: DacView { power: false, analog_amp: 0, ..v.dac },
        ..v
    }
}

impl Tone {
    pub fn new(with_sweep: bool) -> (r: Self)
        ensures
            tone_wf(r@),
            r@.sweep is Some == with_sweep,
            !r@.power,
            r@.nr10 == 0 && r@.nr11 == 0 && r@.nr12 == 0 && r@.nr13 == 0 && r@.nr14 == 0,
            r@.freq == 0,
            r@.index == 0,
            r@.dac == (DacView { power: false, digital_amp: 0, analog_amp: 0 }),
            !r@.length_counter.active && r@.length_counter.base == 64,
            r@.timer == (TimerView { enable: true, counter: 0, interval: 0 }),
    {
        Self {
            power: false,
            sweep: if with_sweep {
                Some(Sweep::new())
            } else {
                None
            },
            envelope: Envelope::new(),
            nr10: 0,
            nr11: 0,
            nr12: 0,
            nr13: 0,
            nr14: 0,
            length_counter: LengthCounter::type64(),
            timer: Timer::enabled(),
            divider: ClockDivider::new(TONE_FREQ_HZ),
            freq: 0,
            dac: Dac::new(),
            index: 0,
        }
    }

    /// Read NR10 register (0xff10)
    pub fn read_sweep(&self) -> (r: u8)
        ensures
            r == self@.nr10 | 0x80,
    {
        self.nr10 | 0x80
    }

    /// Write NR10 register (0xff10)
    pub fn write_sweep(&mut self, value: u8)
        requires
            tone_wf(old(self)@),
        ensures
            tone_wf(final(self)@),
            final(self)@ == tone_write_sweep_spec(old(self)@, value),
    {
        if !self.power {
            return;
        }
        self.nr10 = value;
        let period = ((value >> 4u8) & 0x07) as usize;
        let subtract = value & 0x08 != 0;
        let shift = (value & 0x07) as usize;
        proof {
            crate::bits::lemma_byte_fields(value);
        }
        if let Some(sweep) = &mut self.sweep {
            sweep.update_params(period, subtract, shift);
        }
    }

    /// Read NR11/NR21 register (0xff11/0xff16)
    pub fn read_wave(&self) -> (r: u8)
        ensures
            r == self@.nr11 | 0x3f,
    {
        self.nr11 | 0x3f
    }

    /// Write NR11/NR21 register (0xff11/0xff16)
    pub fn write_wave(&mut self, value: u8)
        requires
            tone_wf(old(self)@),
            old(self)@.length_counter.base == 64,
        ensures
            tone_wf(final(self)@),
            final(self)@ == tone_write_wave_spec(old(self)@, value),
    {
        proof {
            crate::bits::lemma_byte_fields(value);
        }
        self.length_counter.load((value & 0x3f) as usize);
        if !self.power {
            return;
        }
        self.nr11 = value;
    }

    /// Read NR12/NR22 register (0xff12/0xff17)
    pub fn read_envelop(&self) -> (r: u8)
        ensures
            r == self@.nr12,
    {
        self.nr12
    }

    /// Write NR12/NR22 register (0xff12/0xff17)
    pub fn write_envelop(&mut self, value: u8)
        requires
            tone_wf(old(self)@),
        ensures
            tone_wf(final(self)@),
            final(self)@ == tone_write_envelop_spec(old(self)@, value),
    {
        if !self.power {
            return;
        }
        self.nr12 = value;
        if (value >> 4u8) > 0 || value & 0x08 != 0 {
            self.dac.power_on();
        } else {
            self.dac.power_off();
            self.length_counter.deactivate();
        }
    }

    /// Read NR13/NR23 register (0xff13/0xff18): write only.
    pub fn read_freq_low(&self) -> (r: u8)
        ensures
            r == 0xff,
    {
        0xff
    }

    /// Write NR13/NR23 register (0xff13/0xff18)
    pub fn write_freq_low(&mut self, value: u8)
        requires
            tone_wf(old(self)@),
        ensures
            tone_wf(final(self)@),
            final(self)@ == tone_write_freq_low_spec(old(self)@, value),
    {
        if !self.power {
            return;
        }
        self.nr13 = value;
        let f = self.freq;
        proof {
            crate::bits::lemma_freq_bits16(f, value);
        }
        self.freq = (self.freq & 0x700) | (value as u16);
    }

    /// Read NR14/NR24 register (0xff14/0xff19)
    pub fn read_freq_high(&self) -> (r: u8)
        ensures
            r == self@.nr14 | 0xbf,
    {
        // Fix write-only bits to high
        self.nr14 | 0xbf
    }

    /// Write NR14/NR24 register (0xff14/0xff19); returns whether the channel was triggered.
    pub fn write_freq_high(&mut self, value: u8) -> (r: bool)
        requires
            tone_wf(old(self)@),
        ensures
            tone_wf(final(self)@),
            !old(self)@.power ==> final(self)@ == old(self)@ && !r,
            old(self)@.power ==> final(self)@ == tone_write_freq_high_spec(old(self)@, value)
                && r == nr14_trigger(value),
    {
        if !self.power {
            return false;
        }
        self.nr14 = value;
        let f = self.freq;
        proof {
            crate::bits::lemma_freq_bits16(f, value);
        }
        self.freq = (self.freq & 0xff) | (((value & 0x07) as u16) << 8u16);
        let trigger = value & 0x80 != 0;
        self.length_counter.update(trigger, value & 0x40 != 0);
        let nr10 = self.nr10;
        proof {
            crate::bits::lemma_byte_fields(nr10);
        }
        if let Some(sweep) = self.sweep.as_mut() {
            sweep.trigger(
                self.freq as usize,
                ((nr10 >> 4u8) & 0x07) as usize,
                nr10 & 0x08 != 0,
                (nr10 & 0x07) as usize,
            );
        }
        if trigger {
            self.reload_timer();
            let nr12 = self.nr12;
            proof {
                crate::bits::lemma_byte_fields(nr12);
            }
            self.envelope.trigger((nr12 >> 4u8) as usize, (nr12 & 0x07) as usize, nr12 & 0x08 != 0);
        }
        trigger
    }

    pub fn power_on(&mut self)
        requires
            tone_wf(old(self)@),
        ensures
            tone_wf(final(self)@),
            final(self)@ == tone_power_on_spec(old(self)@),
    {
        self.power = true;
        if let Some(sweep) = self.sweep.as_mut() {
            sweep.power_on();
        }
        self.length_counter.power_on();
    }

    pub fn power_off(&mut self)
        requires
            tone_wf(old(self)@),
        ensures
            tone_wf(final(self)@),
            final(self)@ == tone_power_off_spec(old(self)@),
    {
        self.power = false;
        if let Some(sweep) = self.sweep.as_mut() {
            sweep.power_off();
        }
        self.nr10 = 0;
        self.nr11 = 0;
        self.nr12 = 0;
        self.nr13 = 0;
        self.nr14 = 0;
        self.freq = 0;
        self.index = 0;
        self.length_counter.power_off();
        self.dac.power_off();
    }

    /// Advances the channel by `cycles` CPU cycles within the given sequencer frame.
    pub fn step(&mut self, cycles: usize, frame: Frame)
        requires
            tone_wf(old(self)@),
            tone_can_step(old(self)@, cycles as nat),
        ensures
            tone_wf(final(self)@),
            final(self)@ == tone_step_spec(old(self)@, cycles as nat, frame),
            final(self)@.length_counter.base == old(self)@.length_counter.base,
    {
        if let Some(sweep) = self.sweep.as_mut() {
            if let Some(new_freq) = sweep.step(frame) {
                self.freq = new_freq as u16;
            }
        }
        self.length_counter.step(frame);
        self.envelope.step(frame);
        let times = self.divider.step(cycles);
        let ghost v0 = self@;
        let mut i: usize = 0;
        while i < times
            invariant
                i <= times,
                tone_wf(self@),
                self@ == tone_update_n(v0, i as nat),
                self@.length_counter.base == old(self)@.length_counter.base,
            decreases times - i,
        {
            self.update_index();
            i = i + 1;
        }
        self.write_amp();
    }

    fn update_index(&mut self)
        requires
            tone_wf(old(self)@),
        ensures
            tone_wf(final(self)@),
            final(self)@ == tone_update_index(old(self)@),
    {
        if !self.is_active() {
            return;
        }
        if !self.timer.tick() {
            return;
        }
        self.reload_timer();
        self.index = (self.index + 1) % 8;
    }

    fn write_amp(&mut self)
        requires
            tone_wf(old(self)@),
        ensures
            tone_wf(final(self)@),
            final(self)@ == tone_write_amp(old(self)@),
    {
        let duty = self.nr11 >> 6u8;
        let wave: [usize; 8] = if duty == 0 {
            [0, 0, 0, 0, 0, 0, 0, 1]
        } else if duty == 1 {
            [1, 0, 0, 0, 0, 0, 0, 1]
        } else if duty == 2 {
            [1, 0, 0, 0, 0, 1, 1, 1]
        } else {
            [0, 1, 1, 1, 1, 1, 1, 0]
        };
        let b = wave[self.index];
        assert(b == duty_bit(duty, self.index as nat));
        let amp = self.envelope.amp();
        assert(b <= 1 && amp <= 15);
        assert(b * amp <= 15) by (nonlinear_arith)
            requires
                b <= 1,
                amp <= 15,
        ;
        self.dac.write(b * amp);
    }

    fn reload_timer(&mut self)
        requires
            tone_wf(old(self)@),
        ensures
            final(self)@ == tone_reload_timer(old(self)@),
    {
        self.timer.reset();
        self.timer.set_interval(self.timer_interval());
    }

    fn timer_interval(&self) -> (r: usize)
        requires
            tone_wf(self@),
        ensures
            r == 2048 - self@.freq,
    {
        2048 - self.freq as usize
    }

    pub fn is_active(&self) -> (r: bool)
        ensures
            r == tone_is_active(self@),
    {
        let sweep_disabling_channel = if let Some(sweep) = self.sweep.as_ref() {
            sweep.disabling_channel()
        } else {
            false
        };
        self.length_counter.is_active() && self.dac.on() && !sweep_disabling_channel
    }

    pub fn amp(&self) -> (r: isize)
        ensures
            r == self@.dac.analog_amp,
    {
        self.dac.amp()
    }

    pub fn pcm(&self) -> (r: usize)
        ensures
            r == self@.dac.digital_amp,
    {
        self.dac.pcm()
    }
}

} // verus!
