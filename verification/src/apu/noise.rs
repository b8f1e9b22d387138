use vstd::prelude::*;

use crate::clock::clock_divider::{
    divider_after, divider_can_step, divider_times, divider_wf, ClockDivider, ClockDividerView,
};
use crate::clock::timer::{tick_spec, Timer, TimerView};
use crate::cpu::CPU_FREQ_HZ;

use super::dac::{Dac, DacView};
use super::envelope::{env_step_spec, env_trigger_spec, Envelope, EnvelopeView};
use super::frame_sequencer::Frame;
use super::length_counter::{
    length_step_spec, length_update_spec, LengthCounter, LengthCounterView,
};
use super::tone::{dac_write_spec, nr12_count, nr12_increase, nr12_init, nr14_length_enable, nr14_trigger};

verus! {

/// The LFSR runs at the CPU rate.
pub const NOISE_FREQ_HZ: usize = CPU_FREQ_HZ;

/// The abstract state of the noise channel's shift register.
pub struct LfsrView {
    pub value: u16,
    pub short: bool,
}

/// One shift of the register: bits 0 and 1 are XORed into bit 14 (and bit 6 in 7-bit mode).
pub open spec fn lfsr_update_spec(l: LfsrView) -> LfsrView {
    let bit: u16 = (l.value & 1) ^ (((l.value & 2) >> 1u16) & 1);
    let v1: u16 = l.value >> 1u16;
    let v2: u16 = (v1 & !0x4000u16) | (bit << 14u16);
    let v3: u16 = if l.short {
        (v2 & !0x0040u16) | (bit << 6u16)
    } else {
        v2
    };
    LfsrView { value: v3, ..l }
}

/// The output is the inverted bit 0.
pub open spec fn lfsr_high_spec(l: LfsrView) -> bool {
    l.value & 1 == 0
}

#[derive(Debug, Clone)]
struct Lfsr {
    value: u16,
    short: bool,
}

impl View for Lfsr {
    type V = LfsrView;

    closed spec fn view(&self) -> LfsrView {
        LfsrView { value: self.value, short: self.short }
    }
}

impl Lfsr {
    fn new() -> (r: Self)
        ensures
            r@ == (LfsrView { value: 0xff, short: false }),
    {
        Self { value: 0xff, short: false }
    }

    fn high(&self) -> (r: bool)
        ensures
            r == lfsr_high_spec(self@),
    {
        // Inverted bit 1
        self.value & 1 == 0
    }

    fn trigger(&mut self, short: bool)
        ensures
            final(self)@ == (LfsrView { value: 0xff, short }),
    {
        self.short = short;
        self.value = 0xff;
    }

    fn update(&mut self)
        ensures
            final(self)@ == lfsr_update_spec(old(self)@),
    {
        // Xor bit 0 and 1.
        let bit = (self.value & 1) ^ ((self.value & 2) >> 1u16) & 1;
        // Shift right.
        self.value = self.value >> 1u16;
        // Put the bit at bit 14 (i.e. 15 bits shift register)
        self.value = (self.value & !0x4000u16) | (bit << 14u16);
        if self.short {
            // Put the bit at bit 6 (i.e. 7 bits shift register)
            self.value = (self.value & !0x0040u16) | (bit << 6u16);
        }
    }
}

/// The register is 15 bits wide: a shift never sets bit 15, and in 7-bit mode bit 6 receives
/// the same bit as bit 14.
pub proof fn lemma_lfsr_width(l: LfsrView)
    ensures
        lfsr_update_spec(l).value < 0x8000,
        lfsr_update_spec(l).short == l.short,
        l.short ==> (lfsr_update_spec(l).value >> 14u16) & 1 == (lfsr_update_spec(l).value >> 6u16)
            & 1,
{
    let v = l.value;
    assert({
        let bit: u16 = (v & 1) ^ (((v & 2) >> 1u16) & 1);
        let v1: u16 = v >> 1u16;
        let v2: u16 = (v1 & !0x4000u16) | (bit << 14u16);
        let v3: u16 = (v2 & !0x0040u16) | (bit << 6u16);
        &&& v2 < 0x8000
        &&& v3 < 0x8000
        &&& (v3 >> 14u16) & 1 == (v3 >> 6u16) & 1
    }) by (bit_vector);
}

/// The abstract state of the [`Noise`] channel.
pub struct NoiseView {
    pub power: bool,
    pub nr41: u8,
    pub nr42: u8,
    pub nr43: u8,
    pub nr44: u8,
    pub length_counter: LengthCounterView,
    pub divider: ClockDividerView,
    pub timer: TimerView,
    pub envelope: EnvelopeView,
    pub lfsr: LfsrView,
    pub dac: DacView,
}

pub open spec fn noise_wf(v: NoiseView) -> bool {
    &&& v.envelope.amp <= 15
    &&& divider_wf(v.divider)
    &&& v.divider.target_clock_rate == NOISE_FREQ_HZ
    &&& v.length_counter.base == 64
}

pub open spec fn nr43_div(v: u8) -> u8 {
    v & 0x07
}

pub open spec fn nr43_step(v: u8) -> bool {
    v & 0x08 != 0
}

pub open spec fn nr43_shift(v: u8) -> u8 {
    v >> 4u8
}

/// The timer period from the polynomial counter register:
/// a divisor of 8 for code 0 and 16 times the code otherwise, shifted left by the clock shift.
pub open spec fn noise_interval(nr43: u8) -> nat {
    let base: nat = if nr43_div(nr43) == 0 {
        8
    } else {
        (nr43_div(nr43) * 16) as nat
    };
    (base * vstd::arithmetic::power2::pow2(nr43_shift(nr43) as nat)) as nat
}

pub open spec fn noise_is_active(v: NoiseView) -> bool {
    v.length_counter.active && v.dac.power
}

pub open spec fn noise_reload_timer(v: NoiseView) -> NoiseView {
    NoiseView {
        timer: TimerView { counter: 0, interval: noise_interval(v.nr43), ..v.timer },
        ..v
    }
}

pub open spec fn noise_update(v: NoiseView) -> NoiseView {
    let (t, fired) = tick_spec(v.timer);
    if !fired {
        NoiseView { timer: t, ..v }
    } else {
        let v1 = noise_reload_timer(NoiseView { timer: t, ..v });
        NoiseView { lfsr: lfsr_update_spec(v1.lfsr), ..v1 }
    }
}

pub open spec fn noise_update_n(v: NoiseView, n: nat) -> NoiseView
    decreases n,
{
    if n == 0 {
        v
    } else {
        noise_update(noise_update_n(v, (n - 1) as nat))
    }
}

pub open spec fn noise_write_amp(v: NoiseView) -> NoiseView {
    NoiseView {
        dac: dac_write_spec(
            v.dac,
            if noise_is_active(v) && lfsr_high_spec(v.lfsr) {
                v.envelope.amp
            } else {
                0
            },
        ),
        ..v
    }
}

pub open spec fn noise_step_spec(v: NoiseView, cycles: nat, frame: Frame) -> NoiseView {
    let v1 = NoiseView {
        length_counter: length_step_spec(v.length_counter, frame),
        envelope: env_step_spec(v.envelope, frame),
        divider: divider_after(v.divider, cycles),
        ..v
    };
    noise_write_amp(noise_update_n(v1, divider_times(v.divider, cycles)))
}

/// The state after a write of NR44 while powered.
pub open spec fn noise_write_select_spec(v: NoiseView, value: u8) -> NoiseView {
    let v1 = NoiseView {
        nr44: value,
        length_counter: length_update_spec(
            v.length_counter,
            nr14_trigger(value),
            nr14_length_enable(value),
        ),
        ..v
    };
    if nr14_trigger(value) {
        let v2 = noise_reload_timer(v1);
        NoiseView {
            lfsr: LfsrView { value: 0xff, short: nr43_step(v.nr43) },
            envelope: env_trigger_spec(
                v2.envelope,
                nr12_init(v.nr42) as nat,
                nr12_count(v.nr42) as nat,
                nr12_increase(v.nr42),
            ),
            ..v2
        }
    } else {
        v1
    }
}

/// The noise channel (channel 4).
#[derive(Debug, Clone)]
pub struct Noise {
    power: bool,
    nr41: u8,
    nr42: u8,
    nr43: u8,
    nr44: u8,
    length_counter: LengthCounter,
    divider: ClockDivider,
    timer: Timer,
    envelope: Envelope,
    lfsr: Lfsr,
    dac: Dac,
}

impl View for Noise {
    type V = NoiseView;

    closed spec fn view(&self) -> NoiseView {
        NoiseView {
            power: self.power,
            nr41: self.nr41,
            nr42: self.nr42,
            nr43: self.nr43,
            nr44: self.nr44,
            length_counter: self.length_counter@,
            divider: self.divider@,
            timer: self.timer@,
            envelope: self.envelope@,
            lfsr: self.lfsr@,
            dac: self.dac@,
        }
    }
}

/// The state after `write_len(value)`.
pub open spec fn noise_write_len_spec(v: NoiseView, value: u8) -> NoiseView {
    NoiseView {
        nr41: value,
        length_counter: LengthCounterView {
            length: (64 - (value & 0x3f)) as nat,
            ..v.length_counter
        },
        ..v
    }
}

/// The state after `write_envelop(value)`.
pub open spec fn noise_write_envelop_spec(v: NoiseView, value: u8) -> NoiseView {
    if !v.power {
        v
    } else if nr12_init(value) > 0 || nr12_increase(value) {
        NoiseView { nr42: value, dac: DacView { power: true, ..v.dac }, ..v }
    } else {
        NoiseView {
            nr42: value,
            dac: DacView { power: false, analog_amp: 0, ..v.dac },
            length_counter: LengthCounterView {
                active: false,
                ..v.length_counter
            },
            ..v
        }
    }
}

/// The state after `write_poly_counter(value)`.
pub open spec fn noise_write_poly_counter_spec(v: NoiseView, value: u8) -> NoiseView {
    if !v.power {
        v
    } else {
        NoiseView { nr43: value, ..v }
    }
}

/// The state after `power_on()`.
pub open spec fn noise_power_on_spec(v: NoiseView) -> NoiseView {
    NoiseView {
        power: true,
        length_counter: LengthCounterView {
            extra_clock: false,
            ..v.length_counter
        },
        timer: TimerView {
            counter: 0,
            interval: noise_interval(v.nr43),
            ..v.timer
        },
        divider: ClockDividerView { counter: 0, ..v.divider },
        ..v
    }
}

/// The state after `power_off()`.
pub open spec fn noise_power_off_spec(v: NoiseView) -> NoiseView {
    NoiseView {
        power: false,
        nr41: 0,
        nr42: 0,
        nr43: 0,
        nr44: 0,
        length_counter: LengthCounterView {
            enable: false,
            active: false,
            ..v.length_counter
        },
        dac: DacView { power: false, analog_amp: 0, ..v.dac },
        ..v
    }
}

impl Noise {
    pub fn new() -> (r: Self)
        ensures
            noise_wf(r@),
            !r@.power,
            r@.nr41 == 0 && r@.nr42 == 0 && r@.nr43 == 0 && r@.nr44 == 0,
            r@.lfsr == (LfsrView { value: 0xff, short: false }),
            r@.dac == (DacView { power: false, digital_amp: 0, analog_amp: 0 }),
            !r@.length_counter.active,
            r@.timer == (TimerView { enable: true, counter: 0, interval: 0 }),
    {
        Self {
            power: false,
            nr41: 0,
            nr42: 0,
            nr43: 0,
            nr44: 0,
            length_counter: LengthCounter::type64(),
            divider: ClockDivider::new(NOISE_FREQ_HZ),
            timer: Timer::enabled(),
            envelope: Envelope::new(),
            lfsr: Lfsr::new(),
            dac: Dac::new(),
        }
    }

    /// Read NR41 register (0xff20): write only.
    pub fn read_len(&self) -> (r: u8)
        ensures
            r == 0xff,
    {
        0xff
    }

    /// Write NR41 register (0xff20)
    pub fn write_len(&mut self, value: u8)
        requires
            noise_wf(old(self)@),
        ensures
            noise_wf(final(self)@),
            final(self)@ == noise_write_len_spec(old(self)@, value),
    {
        self.nr41 = value;
        assert(value & 0x3f <= 63) by (bit_vector);
        self.length_counter.load((value & 0x3f) as usize);
    }

    /// Read NR42 register (0xff21)
    pub fn read_envelop(&self) -> (r: u8)
        ensures
            r == self@.nr42,
    {
        self.nr42
    }

    /// Write NR42 register (0xff21)
    pub fn write_envelop(&mut self, value: u8)
        requires
            noise_wf(old(self)@),
        ensures
            noise_wf(final(self)@),
            final(self)@ == noise_write_envelop_spec(old(self)@, value),
    {
        if !self.power {
            return;
        }
        self.nr42 = value;
        if (value >> 4u8) > 0 || value & 0x08 != 0 {
            self.dac.power_on();
        } else {
            self.dac.power_off();
            self.length_counter.deactivate();
        }
    }

    /// Read NR43 register (0xff22)
    pub fn read_poly_counter(&self) -> (r: u8)
        ensures
            r == self@.nr43,
    {
        self.nr43
    }

    /// Write NR43 register (0xff22)
    pub fn write_poly_counter(&mut self, value: u8)
        requires
            noise_wf(old(self)@),
        ensures
            noise_wf(final(self)@),
            final(self)@ == noise_write_poly_counter_spec(old(self)@, value),
    {
        if !self.power {
            return;
        }
        self.nr43 = value;
    }

    /// Read NR44 register (0xff23)
    pub fn read_select(&self) -> (r: u8)
        ensures
            r == self@.nr44 | 0xbf,
    {
        self.nr44 | 0xbf
    }

    /// Write NR44 register (0xff23); returns whether the channel was triggered.
    pub fn write_select(&mut self, value: u8) -> (r: bool)
        requires
            noise_wf(old(self)@),
        ensures
            noise_wf(final(self)@),
            !old(self)@.power ==> final(self)@ == old(self)@ && !r,
            old(self)@.power ==> final(self)@ == noise_write_select_spec(old(self)@, value) && r
                == nr14_trigger(value),
    {
        if !self.power {
            return false;
        }
        self.nr44 = value;
        let trigger = value & 0x80 != 0;
        self.length_counter.update(trigger, value & 0x40 != 0);
        if trigger {
            self.reload_timer();
            self.lfsr.trigger(self.nr43 & 0x08 != 0);
            let nr42 = self.nr42;
            assert(nr42 >> 4u8 <= 15) by (bit_vector);
            self.envelope.trigger((nr42 >> 4u8) as usize, (nr42 & 0x07) as usize, nr42 & 0x08 != 0);
        }
        trigger
    }

    /// Advances the channel by `cycles` CPU cycles within the given sequencer frame.
    pub fn step(&mut self, cycles: usize, frame: Frame)
        requires
            noise_wf(old(self)@),
            divider_can_step(old(self)@.divider, cycles as nat),
        ensures
            noise_wf(final(self)@),
            final(self)@ == noise_step_spec(old(self)@, cycles as nat, frame),
    {
        self.length_counter.step(frame);
        self.envelope.step(frame);
        let times = self.divider.step(cycles);
        let ghost v0 = self@;
        let mut i: usize = 0;
        while i < times
            invariant
                i <= times,
                noise_wf(self@),
                self@ == noise_update_n(v0, i as nat),
            decreases times - i,
        {
            self.update();
            i = i + 1;
        }
        self.write_amp();
    }

    fn update(&mut self)
        requires
            noise_wf(old(self)@),
        ensures
            noise_wf(final(self)@),
            final(self)@ == noise_update(old(self)@),
    {
        if !self.timer.tick() {
            return;
        }
        self.reload_timer();
        self.lfsr.update();
    }

    fn write_amp(&mut self)
        requires
            noise_wf(old(self)@),
        ensures
            noise_wf(final(self)@),
            final(self)@ == noise_write_amp(old(self)@),
    {
        let amp = if self.is_active() && self.lfsr.high() {
            self.envelope.amp()
        } else {
            0
        };
        self.dac.write(amp);
    }

    fn reload_timer(&mut self)
        ensures
            final(self)@ == noise_reload_timer(old(self)@),
    {
        self.timer.reset();
        let interval = self.timer_interval();
        self.timer.set_interval(interval);
    }

    fn timer_interval(&self) -> (r: usize)
        ensures
            r == noise_interval(self@.nr43),
    {
        let divider = (self.nr43 & 0x07) as usize;
        let shift = (self.nr43 >> 4u8) as usize;
        // Divisor code   Divisor
        // -----------------------
        //    0             8
        //    1            16
        //    2            32
        //    3            48
        //    4            64
        //    5            80
        //    6            96
        //    7           112
        let base: usize = if divider == 0 {
            8
        } else {
            divider * 16
        };
        let nr43 = self.nr43;
        assert(nr43 & 0x07 <= 7 && nr43 >> 4u8 <= 15) by (bit_vector);
        proof {
            lemma_shl_is_mul_pow2(base, shift);
        }
        base << shift
    }

    pub fn is_active(&self) -> (r: bool)
        ensures
            r == noise_is_active(self@),
    {
        self.length_counter.is_active() && self.dac.on()
    }

    pub fn power_on(&mut self)
        requires
            noise_wf(old(self)@),
        ensures
            noise_wf(final(self)@),
            final(self)@ == noise_power_on_spec(old(self)@),
    {
        self.power = true;
        self.length_counter.power_on();
        self.reload_timer();
        self.divider.reset();
    }

    pub fn power_off(&mut self)
        requires
            noise_wf(old(self)@),
        ensures
            noise_wf(final(self)@),
            final(self)@ == noise_power_off_spec(old(self)@),
    {
        self.power = false;
        self.nr41 = 0;
        self.nr42 = 0;
        self.nr43 = 0;
        self.nr44 = 0;
        self.length_counter.power_off();
        self.dac.power_off();
    }

    pub fn amp(&self) -> (r: isize)
        ensures
            r == self@.dac.analog_amp,
    {
        self.dac.amp()
    }

    pub fn pcm(&self) -> (r: usize)
        ensures
            r == self@.dac.digital_amp,
    {
        self.dac.pcm()
    }
}

/// `base << shift` for the noise divisors, which never overflow.
proof fn lemma_shl_is_mul_pow2(base: usize, shift: usize)
    requires
        base <= 112,
        shift <= 15,
    ensures
        base << shift == base * vstd::arithmetic::power2::pow2(shift as nat),
        base * vstd::arithmetic::power2::pow2(shift as nat) <= 112 * 32768,
{
    vstd::arithmetic::power2::lemma2_to64();
    let p = vstd::arithmetic::power2::pow2(shift as nat);
    assert(p <= 32768) by {
        if shift < 15 {
            vstd::arithmetic::power2::lemma_pow2_strictly_increases(shift as nat, 15);
        }
    }
    assert(base * p <= 112 * 32768) by (nonlinear_arith)
        requires
            base <= 112,
            p <= 32768,
    ;
    assert(base << shift == base * p) by {
        vstd::bits::lemma_usize_shl_is_mul(base, shift);
    }
}

} // verus!
