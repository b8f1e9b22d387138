use vstd::prelude::*;

use crate::clock::clock_divider::{
    divider_after, divider_can_step, divider_times, divider_wf, ClockDivider, ClockDividerView,
};
use crate::clock::timer::{expires_in_spec, tick_spec, Timer, TimerView};

use super::dac::{Dac, DacView};
use super::frame_sequencer::Frame;
use super::length_counter::{
    length_step_spec, length_update_spec, LengthCounter, LengthCounterView,
};
use super::tone::{dac_write_spec, nr14_length_enable, nr14_trigger, with_high, with_low};

verus! {

/// Bytes of wave RAM.
pub const RAM_SIZE: usize = 16;

/// 4-bit samples in wave RAM.
pub const WAVE_SIZE: usize = 32;

/// The rate at which the wave timer is clocked.
pub const WAVE_FREQ_HZ: usize = 2_097_152;

/// The abstract state of the [`Wave`] channel.
pub struct WaveView {
    pub power: bool,
    pub length_counter: LengthCounterView,
    pub freq: u16,
    pub ram: Seq<u8>,
    pub index: nat,
    pub nr30: u8,
    pub nr31: u8,
    pub nr32: u8,
    pub nr33: u8,
    pub nr34: u8,
    pub divider: ClockDividerView,
    pub timer: TimerView,
    pub last_sample: u8,
    pub first_fetch: bool,
    pub dac: DacView,
}

pub open spec fn wave_wf(v: WaveView) -> bool {
    &&& v.freq < 2048
    &&& v.index < 32
    &&& v.ram.len() == 16
    &&& divider_wf(v.divider)
    &&& v.divider.target_clock_rate == WAVE_FREQ_HZ
    &&& v.length_counter.base == 256
    &&& v.last_sample < 16
}

/// The 4-bit sample at `index`: the high nibble of a byte comes first.
pub open spec fn wave_ram_read(ram: Seq<u8>, index: nat) -> u8 {
    if index % 2 == 0 {
        ram[(index / 2) as int] >> 4u8
    } else {
        ram[(index / 2) as int] & 0xf
    }
}

pub open spec fn next_index(index: nat) -> nat {
    (index + 1) % 32
}

/// The output level for a sample given the volume shift code of NR32.
pub open spec fn scaled_sample(nr32: u8, sample: u8) -> u8 {
    let code = (nr32 >> 5u8) & 0x03;
    if code == 0 {
        0
    } else if code == 1 {
        sample
    } else if code == 2 {
        sample >> 1u8
    } else {
        sample >> 2u8
    }
}

pub open spec fn wave_is_active(v: WaveView) -> bool {
    v.length_counter.active && v.dac.power
}

/// The channel is reading a sample from wave RAM at this very moment.
pub open spec fn wave_is_sampling(v: WaveView) -> bool {
    expires_in_spec(v.timer) == 2
}

/// Where a CPU access to wave RAM byte `cpu_index` lands, if anywhere: while the channel
/// plays, only the byte being sampled is reachable.
pub open spec fn wave_ram_target(v: WaveView, cpu_index: nat) -> Option<nat> {
    if wave_is_active(v) {
        if !v.first_fetch && wave_is_sampling(v) {
            Some(v.index / 2)
        } else {
            None
        }
    } else {
        Some(cpu_index)
    }
}

pub open spec fn wave_reload_timer(v: WaveView) -> WaveView {
    WaveView { timer: TimerView { counter: 0, interval: (2048 - v.freq) as nat, ..v.timer }, ..v }
}

pub open spec fn wave_load_initial_timer(v: WaveView) -> WaveView {
    WaveView {
        timer: TimerView { counter: 0, interval: (2048 - v.freq + 3) as nat, ..v.timer },
        ..v
    }
}

/// The wave RAM corruption of a retrigger while sampling.
pub open spec fn wave_alter_ram(v: WaveView) -> WaveView {
    if !wave_is_sampling(v) {
        v
    } else {
        let b = next_index(v.index) / 2;
        if b <= 3 {
            WaveView { ram: v.ram.update(0, v.ram[b as int]), ..v }
        } else {
            let k = (b / 4) * 4;
            WaveView { ram: v.ram.subrange(k as int, (k + 4) as int) + v.ram.subrange(4, 16), ..v }
        }
    }
}

/// One tick of the wave timer.
pub open spec fn wave_update(v: WaveView) -> WaveView {
    if !wave_is_active(v) {
        v
    } else {
        let (t, fired) = tick_spec(v.timer);
        if !fired {
            WaveView { timer: t, ..v }
        } else {
            let v1 = wave_reload_timer(WaveView { timer: t, ..v });
            let sample = if v1.first_fetch {
                v1.last_sample
            } else {
                wave_ram_read(v1.ram, v1.index)
            };
            WaveView {
                first_fetch: false,
                last_sample: sample,
                index: next_index(v1.index),
                dac: dac_write_spec(v1.dac, scaled_sample(v1.nr32, sample) as nat),
                ..v1
            }
        }
    }
}

pub open spec fn wave_update_n(v: WaveView, n: nat) -> WaveView
    decreases n,
{
    if n == 0 {
        v
    } else {
        wave_update(wave_update_n(v, (n - 1) as nat))
    }
}

pub open spec fn wave_step_spec(v: WaveView, cycles: nat, frame: Frame) -> WaveView {
    let v1 = WaveView {
        length_counter: length_step_spec(v.length_counter, frame),
        divider: divider_after(v.divider, cycles),
        ..v
    };
    wave_update_n(v1, divider_times(v.divider, cycles))
}

/// The state after a write of NR34 while powered.
pub open spec fn wave_write_freq_high_spec(v: WaveView, value: u8) -> WaveView {
    let trigger = nr14_trigger(value);
    let retrigger = v.length_counter.active;
    let v1 = WaveView {
        nr34: value,
        freq: with_high(v.freq, value),
        length_counter: length_update_spec(v.length_counter, trigger, nr14_length_enable(value)),
        ..v
    };
    if v1.dac.power && trigger {
        let v2 = if retrigger && !v1.first_fetch {
            wave_alter_ram(WaveView { timer: tick_spec(v1.timer).0, ..v1 })
        } else {
            v1
        };
        WaveView { index: 0, first_fetch: true, ..wave_load_initial_timer(v2) }
    } else {
        v1
    }
}

/// The wave channel (channel 3), playing 32 4-bit samples from wave RAM.
#[derive(Debug, Clone)]
pub struct Wave {
    power: bool,
    length_counter: LengthCounter,
    freq: u16,
    ram: [u8; 16],
    index: usize,
    nr30: u8,
    nr31: u8,
    nr32: u8,
    nr33: u8,
    nr34: u8,
    divider: ClockDivider,
    timer: Timer,
    last_sample: u8,
    first_fetch: bool,
    dac: Dac,
}

impl View for Wave {
    type V = WaveView;

    closed spec fn view(&self) -> WaveView {
        WaveView {
            power: self.power,
            length_counter: self.length_counter@,
            freq: self.freq,
            ram: self.ram@,
            index: self.index as nat,
            nr30: self.nr30,
            nr31: self.nr31,
            nr32: self.nr32,
            nr33: self.nr33,
            nr34: self.nr34,
            divider: self.divider@,
            timer: self.timer@,
            last_sample: self.last_sample,
            first_fetch: self.first_fetch,
            dac: self.dac@,
        }
    }
}

/// The state after `write_enable(value)`.
pub open spec fn wave_write_enable_spec(v: WaveView, value: u8) -> WaveView {
    if !v.power {
        v
    } else if value & 0x80 != 0 {
        WaveView { nr30: value, dac: DacView { power: true, ..v.dac }, ..v }
    } else {
        WaveView {
            nr30: value,
            dac: DacView { power: false, analog_amp: 0, ..v.dac },
            length_counter: LengthCounterView {
                active: false,
                ..v.length_counter
            },
            ..v
        }
    }
}

/// The state after `write_len(value)`.
pub open spec fn wave_write_len_spec(v: WaveView, value: u8) -> WaveView {
    WaveView {
        nr31: value,
        length_counter: LengthCounterView {
            length: (256 - value) as nat,
            ..v.length_counter
        },
        ..v
    }
}

/// The state after `write_amp(value)`.
pub open spec fn wave_write_amp_spec(v: WaveView, value: u8) -> WaveView {
    if v.power {
        WaveView { nr32: value, ..v }
    } else {
        v
    }
}

/// The state after `write_freq_low(value)`.
pub open spec fn wave_write_freq_low_spec(v: WaveView, value: u8) -> WaveView {
    if v.power {
        WaveView { nr33: value, freq: with_low(v.freq, value), ..v }
    } else {
        v
    }
}

/// The state after `power_on()`.
pub open spec fn wave_power_on_spec(v: WaveView) -> WaveView {
    WaveView {
        power: true,
        length_counter: LengthCounterView {
            extra_clock: false,
            ..v.length_counter
        },
        ..v
    }
}

/// The state after `power_off()`.
pub open spec fn wave_power_off_spec(v: WaveView) -> WaveView {
    WaveView {
        power: false,
        length_counter: LengthCounterView {
            enable: false,
            active: false,
            ..v.length_counter
        },
        index: 0,
        divider: ClockDividerView { counter: 0, ..v.divider },
        timer: TimerView { counter: 0, interval: 0, ..v.timer },
        last_sample: 0,
        first_fetch: false,
        dac: DacView { power: false, analog_amp: 0, ..v.dac },
        nr30: 0,
        nr31: 0,
        nr32: 0,
        nr33: 0,
        nr34: 0,
        freq: 0,
        ..v
    }
}

impl Wave {
    pub fn new() -> (r: Self)
        ensures
            wave_wf(r@),
            !r@.power,
            r@.ram == Seq::new(16, |i: int| 0u8),
            r@.index == 0,
            r@.freq == 0,
            !r@.length_counter.active,
            r@.dac == (DacView { power: false, digital_amp: 0, analog_amp: 0 }),
            r@.nr30 == 0 && r@.nr31 == 0 && r@.nr32 == 0 && r@.nr33 == 0 && r@.nr34 == 0,
            r@.timer == (TimerView { enable: true, counter: 0, interval: 0 }),
            r@.last_sample == 0 && !r@.first_fetch,
    {
        let w = Self {
            power: false,
            length_counter: LengthCounter::type256(),
            freq: 0,
            ram: [0; 16],
            index: 0,
            nr30: 0,
            nr31: 0,
            nr32: 0,
            nr33: 0,
            nr34: 0,
            divider: ClockDivider::new(WAVE_FREQ_HZ),
            timer: Timer::enabled(),
            last_sample: 0,
            dac: Dac::new(),
            first_fetch: false,
        };
        assert(w.ram@ =~= Seq::new(16, |i: int| 0u8));
        w
    }

    /// Read NR30 register (0xff1a)
    pub fn read_enable(&self) -> (r: u8)
        ensures
            r == self@.nr30 | 0x7f,
    {
        self.nr30 | 0x7f
    }

    /// Write NR30 register (0xff1a): bit 7 powers the DAC.
    pub fn write_enable(&mut self, value: u8)
        requires
            wave_wf(old(self)@),
        ensures
            wave_wf(final(self)@),
            final(self)@ == wave_write_enable_spec(old(self)@, value),
    {
        if !self.power {
            return;
        }
        self.nr30 = value;
        if value & 0x80 != 0 {
            self.dac.power_on();
        } else {
            self.dac.power_off();
            self.length_counter.deactivate();
        }
    }

    /// Read NR31 register (0xff1b): write only.
    pub fn read_len(&self) -> (r: u8)
        ensures
            r == 0xff,
    {
        0xff
    }

    /// Write NR31 register (0xff1b)
    pub fn write_len(&mut self, value: u8)
        requires
            wave_wf(old(self)@),
        ensures
            wave_wf(final(self)@),
            final(self)@ == wave_write_len_spec(old(self)@, value),
    {
        self.nr31 = value;
        self.length_counter.load(value as usize);
    }

    /// Read NR32 register (0xff1c)
    pub fn read_amp(&self) -> (r: u8)
        ensures
            r == self@.nr32 | 0x9f,
    {
        self.nr32 | 0x9f
    }

    /// Write NR32 register (0xff1c)
    pub fn write_amp(&mut self, value: u8)
        requires
            wave_wf(old(self)@),
        ensures
            wave_wf(final(self)@),
            final(self)@ == wave_write_amp_spec(old(self)@, value),
    {
        if !self.power {
            return;
        }
        self.nr32 = value;
    }

    /// Read NR33 register (0xff1d): write only.
    pub fn read_freq_low(&self) -> (r: u8)
        ensures
            r == 0xff,
    {
        0xff
    }

    /// Write NR33 register (0xff1d)
    pub fn write_freq_low(&mut self, value: u8)
        requires
            wave_wf(old(self)@),
        ensures
            wave_wf(final(self)@),
            final(self)@ == wave_write_freq_low_spec(old(self)@, value),
    {
        if !self.power {
            return;
        }
        self.nr33 = value;
        let f = self.freq;
        proof {
            crate::bits::lemma_freq_bits16(f, value);
        }
        self.freq = (self.freq & 0x700) | (value as u16);
    }

    /// Read NR34 register (0xff1e)
    pub fn read_freq_high(&self) -> (r: u8)
        ensures
            r == self@.nr34 | 0xbf,
    {
        // Mask write-only bits
        self.nr34 | 0xbf
    }

    /// Write NR34 register (0xff1e); returns whether the channel was triggered.
    pub fn write_freq_high(&mut self, value: u8) -> (r: bool)
        requires
            wave_wf(old(self)@),
        ensures
            wave_wf(final(self)@),
            !old(self)@.power ==> final(self)@ == old(self)@ && !r,
            old(self)@.power ==> final(self)@ == wave_write_freq_high_spec(old(self)@, value) && r
                == nr14_trigger(value),
    {
        if !self.power {
            return false;
        }
        self.nr34 = value;
        let f = self.freq;
        proof {
            crate::bits::lemma_freq_bits16(f, value);
        }
        self.freq = (self.freq & 0xff) | (((value & 0x07) as u16) << 8u16);
        let trigger = value & 0x80 != 0;
        let length_enable = value & 0x40 != 0;
        let retrigger = self.length_counter.is_active();
        self.length_counter.update(trigger, length_enable);
        if self.dac.on() && trigger {
            if retrigger && !self.first_fetch {
                // Advance one tick on retrigger
                self.timer.tick();
                self.alter_waveram();
            }
            self.load_initial_timer();
            self.index = 0;
            self.first_fetch = true;
        }
        trigger
    }

    /// Read wave pattern buffer (0xff30-0xff3f)
    pub fn read_wave_buf(&self, offset: u16) -> (r: u8)
        requires
            wave_wf(self@),
            0xff30 <= offset <= 0xff3f,
        ensures
            r == match wave_ram_target(self@, (offset - 0xff30) as nat) {
                Some(i) => self@.ram[i as int],
                None => 0xff,
            },
    {
        match self.adjust_waveram_index(offset - 0xff30) {
            Some(index) => self.ram[index],
            None => 0xff,
        }
    }

    /// Write wave pattern buffer (0xff30-0xff3f)
    pub fn write_wave_buf(&mut self, offset: u16, value: u8)
        requires
            wave_wf(old(self)@),
            0xff30 <= offset <= 0xff3f,
        ensures
            wave_wf(final(self)@),
            final(self)@ == match wave_ram_target(old(self)@, (offset - 0xff30) as nat) {
                Some(i) => WaveView { ram: old(self)@.ram.update(i as int, value), ..old(self)@ },
                None => old(self)@,
            },
    {
        if let Some(index) = self.adjust_waveram_index(offset - 0xff30) {
            self.ram[index] = value;
        }
    }

    /// Advances the channel by `cycles` CPU cycles within the given sequencer frame.
    pub fn step(&mut self, cycles: usize, frame: Frame)
        requires
            wave_wf(old(self)@),
            divider_can_step(old(self)@.divider, cycles as nat),
        ensures
            wave_wf(final(self)@),
            final(self)@ == wave_step_spec(old(self)@, cycles as nat, frame),
    {
        self.length_counter.step(frame);
        let times = self.divider.step(cycles);
        let ghost v0 = self@;
        let mut i: usize = 0;
        while i < times
            invariant
                i <= times,
                wave_wf(self@),
                self@ == wave_update_n(v0, i as nat),
            decreases times - i,
        {
            self.update();
            i = i + 1;
        }
    }

    fn adjust_waveram_index(&self, cpu_index: u16) -> (r: Option<usize>)
        requires
            wave_wf(self@),
            cpu_index < 16,
        ensures
            r matches Some(i) ==> i < 16,
            r == match wave_ram_target(self@, cpu_index as nat) {
                Some(i) => Some(i as usize),
                None => None::<usize>,
            },
    {
        let apu_index = self.index / 2;
        if self.is_active() {
            if !self.first_fetch && self.is_sampling() {
                Some(apu_index)
            } else {
                None
            }
        } else {
            Some(cpu_index as usize)
        }
    }

    fn alter_waveram(&mut self)
        requires
            wave_wf(old(self)@),
        ensures
            wave_wf(final(self)@),
            final(self)@ == wave_alter_ram(old(self)@),
    {
        if !self.is_sampling() {
            return;
        }
        let byte_offset = ((self.index + 1) % 32) / 2;
        if byte_offset <= 3 {
            self.ram[0] = self.ram[byte_offset];
        } else {
            let base = (byte_offset / 4) * 4;
            let ghost before = self.ram@;
            let mut i: usize = 0;
            while i < 4
                invariant
                    i <= 4,
                    4 <= base <= 12,
                    self.ram@.len() == 16,
                    forall|j: int| 0 <= j < i ==> self.ram@[j] == before[base + j],
                    forall|j: int| i <= j < 16 ==> self.ram@[j] == before[j],
                    self.power == old(self).power,
                    self.index == old(self).index,
                    self.length_counter == old(self).length_counter,
                    self.freq == old(self).freq,
                    self.nr30 == old(self).nr30,
                    self.nr31 == old(self).nr31,
                    self.nr32 == old(self).nr32,
                    self.nr33 == old(self).nr33,
                    self.nr34 == old(self).nr34,
                    self.divider == old(self).divider,
                    self.timer == old(self).timer,
                    self.last_sample == old(self).last_sample,
                    self.first_fetch == old(self).first_fetch,
                    self.dac == old(self).dac,
                    before == old(self).ram@,
                decreases 4 - i,
            {
                self.ram[i] = self.ram[base + i];
                i = i + 1;
            }
            assert(self.ram@ =~= before.subrange(base as int, (base + 4) as int) + before.subrange(4, 16));
        }
    }

    fn is_sampling(&self) -> (r: bool)
        ensures
            r == wave_is_sampling(self@),
    {
        // Timer tick is 2 cycles. 2 ticks means 4 cycles.
        // Having this in CPU instruction means the instruction is happening
        // at the same time that APU is reading a sample from the Wave RAM.
        self.timer.expires_in() == 2
    }

    fn read_ram(&self) -> (r: u8)
        requires
            wave_wf(self@),
        ensures
            r == wave_ram_read(self@.ram, self@.index),
            r < 16,
    {
        let b = self.ram[self.index / 2];
        proof {
            crate::bits::lemma_byte_fields(b);
        }
        if self.index % 2 == 0 {
            b >> 4u8
        } else {
            b & 0xf
        }
    }

    fn update(&mut self)
        requires
            wave_wf(old(self)@),
        ensures
            wave_wf(final(self)@),
            final(self)@ == wave_update(old(self)@),
    {
        if !self.is_active() {
            return;
        }
        if !self.timer.tick() {
            return;
        }
        self.reload_timer();
        let sample = if self.first_fetch {
            self.first_fetch = false;
            self.last_sample
        } else {
            let new_amp = self.read_ram();
            self.last_sample = new_amp;
            new_amp
        };
        self.first_fetch = false;
        self.last_sample = sample;
        self.index = (self.index + 1) % 32;
        let code = (self.nr32 >> 5u8) & 0x03;
        let out = if code == 0 {
            0
        } else if code == 1 {
            sample
        } else if code == 2 {
            sample >> 1u8
        } else {
            sample >> 2u8
        };
        proof {
            crate::bits::lemma_byte_fields(sample);
        }
        self.dac.write(out as usize);
    }

    fn load_initial_timer(&mut self)
        requires
            wave_wf(old(self)@),
        ensures
            final(self)@ == wave_load_initial_timer(old(self)@),
    {
        self.timer.reset();
        self.timer.set_interval(self.timer_interval() + 3);
    }

    fn reload_timer(&mut self)
        requires
            wave_wf(old(self)@),
        ensures
            final(self)@ == wave_reload_timer(old(self)@),
    {
        self.timer.reset();
        self.timer.set_interval(self.timer_interval());
    }

    fn timer_interval(&self) -> (r: usize)
        requires
            wave_wf(self@),
        ensures
            r == 2048 - self@.freq,
    {
        2048 - self.freq as usize
    }

    pub fn is_active(&self) -> (r: bool)
        ensures
            r == wave_is_active(self@),
    {
        self.length_counter.is_active() && self.dac.on()
    }

    pub fn power_on(&mut self)
        requires
            wave_wf(old(self)@),
        ensures
            wave_wf(final(self)@),
            final(self)@ == wave_power_on_spec(old(self)@),
    {
        self.power = true;
        self.length_counter.power_on();
    }

    pub fn power_off(&mut self)
        requires
            wave_wf(old(self)@),
        ensures
            wave_wf(final(self)@),
            final(self)@ == wave_power_off_spec(old(self)@),
    {
        self.power = false;
        self.length_counter.power_off();
        self.index = 0;
        self.divider.reset();
        self.timer.reset();
        self.last_sample = 0;
        self.first_fetch = false;
        self.dac.power_off();
        self.nr30 = 0;
        self.nr31 = 0;
        self.nr32 = 0;
        self.nr33 = 0;
        self.nr34 = 0;
        self.freq = 0;
    }

    pub fn amp(&self) -> (r: isize)
        ensures
            r == self@.dac.analog_amp,
    {
        self.dac.amp()
    }
}

} // verus!
