//! The audio processing unit: four sound channels clocked by a frame sequencer.
pub mod buffer;
pub mod clock_divider;
pub mod dac;
pub mod envelop;
pub mod envelope;
pub mod frame_sequencer;
pub mod length_counter;
pub mod mixer;
pub mod noise;
pub mod stream;
pub mod sweep;
pub mod timer;
pub mod tone;
pub mod util;
pub mod wave;
pub mod wave_buf;

use vstd::prelude::*;

use self::frame_sequencer::{sequencer_step_spec, FrameSequencer, FrameSequencerView};
use self::mixer::{Mixer, MixerView};
use crate::clock::clock_divider::divider_can_step;
use self::noise::{Noise, NoiseView, noise_is_active, noise_power_off_spec, noise_power_on_spec, noise_step_spec, noise_wf, noise_write_envelop_spec, noise_write_len_spec, noise_write_poly_counter_spec, noise_write_select_spec};
use self::tone::{Tone, ToneView, tone_can_step, tone_is_active, tone_power_off_spec, tone_power_on_spec, tone_step_spec, tone_wf, tone_write_envelop_spec, tone_write_freq_high_spec, tone_write_freq_low_spec, tone_write_sweep_spec, tone_write_wave_spec};
use self::wave::{Wave, WaveView, wave_is_active, wave_power_off_spec, wave_power_on_spec, wave_ram_target, wave_step_spec, wave_wf, wave_write_amp_spec, wave_write_enable_spec, wave_write_freq_high_spec, wave_write_freq_low_spec, wave_write_len_spec};

verus! {

/// The abstract state of an [`Apu`].
pub struct ApuView {
    pub tone1: ToneView,
    pub tone2: ToneView,
    pub wave: WaveView,
    pub noise: NoiseView,
    pub mixer: MixerView,
    pub nr52: u8,
    pub frame_sequencer: FrameSequencerView,
}

/// Every channel within its invariant: channel 1 with its sweep unit, channel 2 without, and
/// both square channels with 64-step length counters.
/// Whether every channel's frequency divider can take `cycles` more CPU cycles within the
/// machine range.
pub open spec fn apu_can_step(v: ApuView, cycles: nat) -> bool {
    &&& tone_can_step(v.tone1, cycles)
    &&& tone_can_step(v.tone2, cycles)
    &&& divider_can_step(v.wave.divider, cycles)
    &&& divider_can_step(v.noise.divider, cycles)
}

pub open spec fn apu_wf(a: ApuView) -> bool {
    &&& tone_wf(a.tone1)
    &&& tone_wf(a.tone2)
    &&& a.tone1.length_counter.base == 64
    &&& a.tone2.length_counter.base == 64
    &&& wave_wf(a.wave)
    &&& noise_wf(a.noise)
}

/// The square channel `tone` (0 or 1).
pub open spec fn apu_tone(a: ApuView, tone: usize) -> ToneView {
    if tone == 0 {
        a.tone1
    } else {
        a.tone2
    }
}

/// The state with square channel `tone` replaced.
pub open spec fn apu_with_tone(a: ApuView, tone: usize, t: ToneView) -> ApuView {
    if tone == 0 {
        ApuView { tone1: t, ..a }
    } else {
        ApuView { tone2: t, ..a }
    }
}

/// A channel's bit in NR52.
pub open spec fn on_bit(on: bool, mask: u8) -> u8 {
    if on {
        mask
    } else {
        0
    }
}

/// The NR52 value: the power bit as written, bits 4-6 high, and one bit per active channel.
pub open spec fn nr52_read_spec(a: ApuView) -> u8 {
    (a.nr52 & 0xf0) | on_bit(tone_is_active(a.tone1), 0x01) | on_bit(tone_is_active(a.tone2), 0x02)
        | on_bit(wave_is_active(a.wave), 0x04) | on_bit(noise_is_active(a.noise), 0x08) | 0x70
}

/// The state after an NR52 write: powering on restarts the frame sequencer and powers the
/// channels and the mixer; powering off powers them down.
pub open spec fn nr52_write_spec(a: ApuView, value: u8) -> ApuView {
    let before = a.nr52 & 0x80 != 0;
    let after = value & 0x80 != 0;
    let a1 = ApuView { nr52: value, ..a };
    if !before && after {
        ApuView {
            frame_sequencer: FrameSequencerView {
                frame: frame_sequencer::initial_frame(),
                resetting: 4,
                last_div: a.frame_sequencer.last_div,
            },
            tone1: tone_power_on_spec(a.tone1),
            tone2: tone_power_on_spec(a.tone2),
            wave: wave_power_on_spec(a.wave),
            noise: noise_power_on_spec(a.noise),
            mixer: MixerView { power: true, ..a.mixer },
            ..a1
        }
    } else if before && !after {
        ApuView {
            tone1: tone_power_off_spec(a.tone1),
            tone2: tone_power_off_spec(a.tone2),
            wave: wave_power_off_spec(a.wave),
            noise: noise_power_off_spec(a.noise),
            mixer: MixerView { power: false, nr50: 0, nr51: 0 },
            ..a1
        }
    } else {
        a1
    }
}

/// The audio processing unit: the four channels, the mixer registers, and the frame sequencer
/// that clocks their length counters, envelopes and sweep.
pub struct Apu {
    tone1: Tone,
    tone2: Tone,
    wave: Wave,
    noise: Noise,
    mixer: Mixer,
    nr52: u8,
    frame_sequencer: FrameSequencer,
}

impl View for Apu {
    type V = ApuView;

    closed spec fn view(&self) -> ApuView {
        ApuView {
            tone1: self.tone1@,
            tone2: self.tone2@,
            wave: self.wave@,
            noise: self.noise@,
            mixer: self.mixer@,
            nr52: self.nr52,
            frame_sequencer: self.frame_sequencer@,
        }
    }
}

impl Apu {
    pub fn new() -> (r: Self)
        ensures
            apu_wf(r@),
            r@.tone1.sweep is Some && r@.tone2.sweep is None,
            !r@.tone1.power && !r@.tone2.power && !r@.wave.power && !r@.noise.power,
            r@.mixer == (MixerView { power: false, nr50: 0, nr51: 0 }),
            r@.nr52 == 0,
    {
        Self {
            tone1: Tone::new(true),
            tone2: Tone::new(false),
            wave: Wave::new(),
            noise: Noise::new(),
            mixer: Mixer::new(),
            nr52: 0,
            frame_sequencer: FrameSequencer::new(),
        }
    }

    /// Read NR10 register (0xff10)
    pub fn read_tone_sweep(&self) -> (r: u8)
        ensures
            r == self@.tone1.nr10 | 0x80,
    {
        self.tone1.read_sweep()
    }

    /// Write NR10 register (0xff10)
    pub fn write_tone_sweep(&mut self, value: u8)
        requires
            apu_wf(old(self)@),
        ensures
            apu_wf(final(self)@),
            final(self)@ == (ApuView {
                tone1: tone_write_sweep_spec(old(self)@.tone1, value),
                ..old(self)@
            }),
    {
        self.tone1.write_sweep(value)
    }

    /// Read NR11/NR21 register (0xff11/0xff16)
    pub fn read_tone_wave(&self, tone: usize) -> (r: u8)
        requires
            tone < 2,
        ensures
            r == apu_tone(self@, tone).nr11 | 0x3f,
    {
        if tone == 0 {
            self.tone1.read_wave()
        } else {
            self.tone2.read_wave()
        }
    }

    /// Read NR12/NR22 register (0xff12/0xff17)
    pub fn read_tone_envelop(&self, tone: usize) -> (r: u8)
        requires
            tone < 2,
        ensures
            r == apu_tone(self@, tone).nr12,
    {
        if tone == 0 {
            self.tone1.read_envelop()
        } else {
            self.tone2.read_envelop()
        }
    }

    /// Read NR13/NR23 register (0xff13/0xff18)
    pub fn read_tone_freq_low(&self, tone: usize) -> (r: u8)
        requires
            tone < 2,
        ensures
            r == 0xff,
    {
        if tone == 0 {
            self.tone1.read_freq_low()
        } else {
            self.tone2.read_freq_low()
        }
    }

    /// Read NR14/NR24 register (0xff14/0xff19)
    pub fn read_tone_freq_high(&self, tone: usize) -> (r: u8)
        requires
            tone < 2,
        ensures
            r == apu_tone(self@, tone).nr14 | 0xbf,
    {
        if tone == 0 {
            self.tone1.read_freq_high()
        } else {
            self.tone2.read_freq_high()
        }
    }

    /// Write NR11/NR21 register (0xff11/0xff16)
    pub fn write_tone_wave(&mut self, tone: usize, value: u8)
        requires
            apu_wf(old(self)@),
            tone < 2,
        ensures
            apu_wf(final(self)@),
            final(self)@ == apu_with_tone(
                old(self)@,
                tone,
                tone_write_wave_spec(apu_tone(old(self)@, tone), value),
            ),
    {
        if tone == 0 {
            self.tone1.write_wave(value)
        } else {
            self.tone2.write_wave(value)
        }
    }

    /// Write NR12/NR22 register (0xff12/0xff17)
    pub fn write_tone_envelop(&mut self, tone: usize, value: u8)
        requires
            apu_wf(old(self)@),
            tone < 2,
        ensures
            apu_wf(final(self)@),
            final(self)@ == apu_with_tone(
                old(self)@,
                tone,
                tone_write_envelop_spec(apu_tone(old(self)@, tone), value),
            ),
    {
        if tone == 0 {
            self.tone1.write_envelop(value)
        } else {
            self.tone2.write_envelop(value)
        }
    }

    /// Write NR13/NR23 register (0xff13/0xff18)
    pub fn write_tone_freq_low(&mut self, tone: usize, value: u8)
        requires
            apu_wf(old(self)@),
            tone < 2,
        ensures
            apu_wf(final(self)@),
            final(self)@ == apu_with_tone(
                old(self)@,
                tone,
                tone_write_freq_low_spec(apu_tone(old(self)@, tone), value),
            ),
    {
        if tone == 0 {
            self.tone1.write_freq_low(value)
        } else {
            self.tone2.write_freq_low(value)
        }
    }

    /// Write NR14/NR24 register (0xff14/0xff19); ignored while the channel is off.
    pub fn write_tone_freq_high(&mut self, tone: usize, value: u8)
        requires
            apu_wf(old(self)@),
            tone < 2,
        ensures
            apu_wf(final(self)@),
            final(self)@ == (if apu_tone(old(self)@, tone).power {
                apu_with_tone(
                    old(self)@,
                    tone,
                    tone_write_freq_high_spec(apu_tone(old(self)@, tone), value),
                )
            } else {
                old(self)@
            }),
    {
        if tone == 0 {
            self.tone1.write_freq_high(value);
        } else {
            self.tone2.write_freq_high(value);
        }
    }

    /// Read NR30 register (0xff1a)
    pub fn read_wave_enable(&self) -> (r: u8)
        ensures
            r == self@.wave.nr30 | 0x7f,
    {
        self.wave.read_enable()
    }

    /// Write NR30 register (0xff1a)
    pub fn write_wave_enable(&mut self, value: u8)
        requires
            apu_wf(old(self)@),
        ensures
            apu_wf(final(self)@),
            final(self)@ == (ApuView { wave: wave_write_enable_spec(old(self)@.wave, value), ..old(self)@ }),
    {
        self.wave.write_enable(value)
    }

    /// Write NR31 register (0xff1b)
    pub fn write_wave_len(&mut self, value: u8)
        requires
            apu_wf(old(self)@),
        ensures
            apu_wf(final(self)@),
            final(self)@ == (ApuView { wave: wave_write_len_spec(old(self)@.wave, value), ..old(self)@ }),
    {
        self.wave.write_len(value)
    }

    /// Write NR32 register (0xff1c)
    pub fn write_wave_amp(&mut self, value: u8)
        requires
            apu_wf(old(self)@),
        ensures
            apu_wf(final(self)@),
            final(self)@ == (ApuView { wave: wave_write_amp_spec(old(self)@.wave, value), ..old(self)@ }),
    {
        self.wave.write_amp(value)
    }

    /// Write NR33 register (0xff1d)
    pub fn write_wave_freq_low(&mut self, value: u8)
        requires
            apu_wf(old(self)@),
        ensures
            apu_wf(final(self)@),
            final(self)@ == (ApuView { wave: wave_write_freq_low_spec(old(self)@.wave, value), ..old(self)@ }),
    {
        self.wave.write_freq_low(value)
    }

    /// Read NR31 register (0xff1b)
    pub fn read_wave_len(&self) -> (r: u8)
        ensures
            r == 0xff,
    {
        self.wave.read_len()
    }

    /// Read NR32 register (0xff1c)
    pub fn read_wave_amp(&self) -> (r: u8)
        ensures
            r == self@.wave.nr32 | 0x9f,
    {
        self.wave.read_amp()
    }

    /// Read NR33 register (0xff1d)
    pub fn read_wave_freq_low(&self) -> (r: u8)
        ensures
            r == 0xff,
    {
        self.wave.read_freq_low()
    }

    /// Read NR34 register (0xff1e)
    pub fn read_wave_freq_high(&self) -> (r: u8)
        ensures
            r == self@.wave.nr34 | 0xbf,
    {
        self.wave.read_freq_high()
    }

    /// Write NR34 register (0xff1e); ignored while the channel is off.
    pub fn write_wave_freq_high(&mut self, value: u8)
        requires
            apu_wf(old(self)@),
        ensures
            apu_wf(final(self)@),
            final(self)@ == (if old(self)@.wave.power {
                ApuView { wave: wave_write_freq_high_spec(old(self)@.wave, value), ..old(self)@ }
            } else {
                old(self)@
            }),
    {
        self.wave.write_freq_high(value);
    }

    /// Read wave pattern buffer
    pub fn read_wave_buf(&self, offset: u16) -> (r: u8)
        requires
            apu_wf(self@),
            0xff30 <= offset <= 0xff3f,
        ensures
            r == match wave_ram_target(self@.wave, (offset - 0xff30) as nat) {
                Some(i) => self@.wave.ram[i as int],
                None => 0xff,
            },
    {
        self.wave.read_wave_buf(offset)
    }

    /// Write wave pattern buffer
    pub fn write_wave_buf(&mut self, offset: u16, value: u8)
        requires
            apu_wf(old(self)@),
            0xff30 <= offset <= 0xff3f,
        ensures
            apu_wf(final(self)@),
            final(self)@ == (ApuView {
                wave: match wave_ram_target(old(self)@.wave, (offset - 0xff30) as nat) {
                    Some(i) => WaveView { ram: old(self)@.wave.ram.update(i as int, value), ..old(self)@.wave },
                    None => old(self)@.wave,
                },
                ..old(self)@
            }),
    {
        self.wave.write_wave_buf(offset, value)
    }

    /// Read NR41 register (0xff20)
    pub fn read_noise_len(&self) -> (r: u8)
        ensures
            r == 0xff,
    {
        self.noise.read_len()
    }

    /// Read NR42 register (0xff21)
    pub fn read_noise_envelop(&self) -> (r: u8)
        ensures
            r == self@.noise.nr42,
    {
        self.noise.read_envelop()
    }

    /// Read NR43 register (0xff22)
    pub fn read_noise_poly_counter(&self) -> (r: u8)
        ensures
            r == self@.noise.nr43,
    {
        self.noise.read_poly_counter()
    }

    /// Read NR44 register (0xff23)
    pub fn read_noise_select(&self) -> (r: u8)
        ensures
            r == self@.noise.nr44 | 0xbf,
    {
        self.noise.read_select()
    }

    /// Write NR41 register (0xff20)
    pub fn write_noise_len(&mut self, value: u8)
        requires
            apu_wf(old(self)@),
        ensures
            apu_wf(final(self)@),
            final(self)@ == (ApuView { noise: noise_write_len_spec(old(self)@.noise, value), ..old(self)@ }),
    {
        self.noise.write_len(value)
    }

    /// Write NR42 register (0xff21)
    pub fn write_noise_envelop(&mut self, value: u8)
        requires
            apu_wf(old(self)@),
        ensures
            apu_wf(final(self)@),
            final(self)@ == (ApuView { noise: noise_write_envelop_spec(old(self)@.noise, value), ..old(self)@ }),
    {
        self.noise.write_envelop(value)
    }

    /// Write NR43 register (0xff22)
    pub fn write_noise_poly_counter(&mut self, value: u8)
        requires
            apu_wf(old(self)@),
        ensures
            apu_wf(final(self)@),
            final(self)@ == (ApuView { noise: noise_write_poly_counter_spec(old(self)@.noise, value), ..old(self)@ }),
    {
        self.noise.write_poly_counter(value)
    }

    /// Write NR44 register (0xff23); ignored while the channel is off.
    pub fn write_noise_select(&mut self, value: u8)
        requires
            apu_wf(old(self)@),
        ensures
            apu_wf(final(self)@),
            final(self)@ == (if old(self)@.noise.power {
                ApuView { noise: noise_write_select_spec(old(self)@.noise, value), ..old(self)@ }
            } else {
                old(self)@
            }),
    {
        self.noise.write_select(value);
    }

    /// Read NR50 register (0xff24)
    pub fn read_ctrl(&self) -> (r: u8)
        ensures
            r == self@.mixer.nr50,
    {
        self.mixer.read_ctrl()
    }

    /// Write NR50 register (0xff24); ignored while the mixer is off.
    pub fn write_ctrl(&mut self, value: u8)
        requires
            apu_wf(old(self)@),
        ensures
            apu_wf(final(self)@),
            final(self)@ == (ApuView {
                mixer: if old(self)@.mixer.power {
                    MixerView { nr50: value, ..old(self)@.mixer }
                } else {
                    old(self)@.mixer
                },
                ..old(self)@
            }),
    {
        self.mixer.write_ctrl(value)
    }

    /// Read NR51 register (0xff25)
    pub fn read_so_mask(&self) -> (r: u8)
        ensures
            r == self@.mixer.nr51,
    {
        self.mixer.read_so_mask()
    }

    /// Write NR51 register (0xff25); ignored while the mixer is off.
    pub fn write_so_mask(&mut self, value: u8)
        requires
            apu_wf(old(self)@),
        ensures
            apu_wf(final(self)@),
            final(self)@ == (ApuView {
                mixer: if old(self)@.mixer.power {
                    MixerView { nr51: value, ..old(self)@.mixer }
                } else {
                    old(self)@.mixer
                },
                ..old(self)@
            }),
    {
        self.mixer.write_so_mask(value)
    }

    /// Read NR52 register (0xff26)
    pub fn read_enable(&self) -> (r: u8)
        ensures
            r == nr52_read_spec(self@),
    {
        (self.nr52 & 0xf0) | (if self.tone1.is_active() { 0x01u8 } else { 0u8 }) | (
        if self.tone2.is_active() { 0x02u8 } else { 0u8 }) | (if self.wave.is_active() {
            0x04u8
        } else {
            0u8
        }) | (if self.noise.is_active() { 0x08u8 } else { 0u8 }) | 0x70
    }

    /// Write NR52 register (0xff26)
    pub fn write_enable(&mut self, value: u8)
        requires
            apu_wf(old(self)@),
        ensures
            apu_wf(final(self)@),
            final(self)@ == nr52_write_spec(old(self)@, value),
    {
        let before = self.nr52 & 0x80 != 0;
        self.nr52 = value;
        let after = self.nr52 & 0x80 != 0;
        if !before && after {
            self.frame_sequencer.reset_step();
            self.tone1.power_on();
            self.tone2.power_on();
            self.wave.power_on();
            self.noise.power_on();
            self.mixer.power_on();
        } else if before && !after {
            self.tone1.power_off();
            self.tone2.power_off();
            self.wave.power_off();
            self.noise.power_off();
            self.mixer.power_off();
        }
    }

    /// Advances every channel by `cycles` CPU cycles; `div` is the DIV register, whose falling
    /// bit clocks the frame sequencer.
    pub fn step(&mut self, cycles: usize, div: usize)
        requires
            apu_wf(old(self)@),
            apu_can_step(old(self)@, cycles as nat),
        ensures
            apu_wf(final(self)@),
            ({
                let (fs, frame) = sequencer_step_spec(old(self)@.frame_sequencer, cycles, div);
                final(self)@ == ApuView {
                    frame_sequencer: fs,
                    tone1: tone_step_spec(old(self)@.tone1, cycles as nat, frame),
                    tone2: tone_step_spec(old(self)@.tone2, cycles as nat, frame),
                    wave: wave_step_spec(old(self)@.wave, cycles as nat, frame),
                    noise: noise_step_spec(old(self)@.noise, cycles as nat, frame),
                    ..old(self)@
                }
            }),
    {
        let frame = self.frame_sequencer.step(cycles, div);
        self.tone1.step(cycles, frame);
        self.tone2.step(cycles, frame);
        self.wave.step(cycles, frame);
        self.noise.step(cycles, frame);
    }
}

} // verus!
