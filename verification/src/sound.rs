//! The sample-rate driven sound model: register files of the four channels, and the streams
//! that turn a snapshot of those registers into samples at the host's rate.
use vstd::prelude::*;

use vstd::arithmetic::power2::pow2;
use crate::apu::util::{envelop_amp_spec, wave_index_spec, Envelop, EnvelopView, WaveIndex, WaveIndexView};

verus! {

// ---------------------------------------------------------------------------------------------
// Sweep
// ---------------------------------------------------------------------------------------------

/// The abstract state of a [`Sweep`].
pub struct SweepView {
    pub enable: bool,
    pub freq: usize,
    pub time: nat,
    pub sub: bool,
    pub shift: usize,
    pub clock: nat,
}

/// The state after `freq(rate)`, whose result is the new frequency: every `rate * time / 128`
/// calls the frequency moves by `freq / 2^shift`; leaving (0, 2048) silences the channel.
pub open spec fn sweep_freq_spec(v: SweepView, rate: nat) -> SweepView {
    if !v.enable || v.time == 0 || v.shift == 0 {
        v
    } else {
        let interval = rate * v.time / 128;
        let c = v.clock + 1;
        if c >= interval {
            let p = v.freq >> v.shift;
            let f: int = if v.sub {
                if v.freq >= p {
                    v.freq - p
                } else {
                    0
                }
            } else {
                if v.freq + p > usize::MAX {
                    usize::MAX as int
                } else {
                    v.freq + p
                }
            };
            if f >= 2048 || f == 0 {
                SweepView { clock: (c - interval) as nat, enable: false, freq: 0, ..v }
            } else {
                SweepView { clock: (c - interval) as nat, freq: f as usize, ..v }
            }
        } else {
            SweepView { clock: c, ..v }
        }
    }
}

struct Sweep {
    enable: bool,
    freq: usize,
    time: usize,
    sub: bool,
    shift: usize,
    clock: usize,
}

impl View for Sweep {
    type V = SweepView;

    closed spec fn view(&self) -> SweepView {
        SweepView {
            enable: self.enable,
            freq: self.freq,
            time: self.time as nat,
            sub: self.sub,
            shift: self.shift,
            clock: self.clock as nat,
        }
    }
}

impl Sweep {
    fn new(enable: bool, freq: usize, time: usize, sub: bool, shift: usize) -> (r: Self)
        ensures
            r@ == (SweepView { enable, freq, time: time as nat, sub, shift, clock: 0 }),
    {
        Self { enable, freq, time, sub, shift, clock: 0 }
    }

    fn freq(&mut self, rate: usize) -> (r: usize)
        requires
            old(self)@.shift < 8,
            old(self)@.time < 8,
            rate * 8 <= usize::MAX,
            old(self)@.clock < usize::MAX,
        ensures
            final(self)@ == sweep_freq_spec(old(self)@, rate as nat),
            r == final(self)@.freq,
    {
        if !self.enable || self.time == 0 || self.shift == 0 {
            return self.freq;
        }
        assert(rate * self.time <= rate * 8) by (nonlinear_arith)
            requires
                self.time < 8,
        ;
        let interval = rate * self.time / 128;
        self.clock = self.clock + 1;
        if self.clock >= interval {
            self.clock = self.clock - interval;
            let p = self.freq >> self.shift;
            self.freq = if self.sub {
                self.freq.saturating_sub(p)
            } else {
                self.freq.saturating_add(p)
            };
            if self.freq >= 2048 || self.freq == 0 {
                self.enable = false;
                self.freq = 0;
            }
        }
        self.freq
    }
}

// ---------------------------------------------------------------------------------------------
// Counter
// ---------------------------------------------------------------------------------------------

/// The abstract state of a [`Counter`].
pub struct CounterView {
    pub can_expire: bool,
    pub count: nat,
    pub base: nat,
    pub clock: nat,
    pub expired: bool,
}

/// The state after `proceed(rate)`: the counter expires once `rate * (base - count) / 256`
/// calls have passed.
pub open spec fn counter_proceed_spec(v: CounterView, rate: nat) -> CounterView {
    if !v.can_expire || v.expired {
        v
    } else {
        let deadline = rate * (v.base - v.count) / 256;
        if v.clock >= deadline {
            CounterView { expired: true, ..v }
        } else {
            CounterView { clock: v.clock + 1, ..v }
        }
    }
}

struct Counter {
    can_expire: bool,
    count: usize,
    base: usize,
    clock: usize,
    expired: bool,
}

impl View for Counter {
    type V = CounterView;

    closed spec fn view(&self) -> CounterView {
        CounterView {
            can_expire: self.can_expire,
            count: self.count as nat,
            base: self.base as nat,
            clock: self.clock as nat,
            expired: self.expired,
        }
    }
}

impl Counter {
    fn new(can_expire: bool, count: usize, base: usize) -> (r: Self)
        ensures
            r@ == (CounterView {
                can_expire,
                count: count as nat,
                base: base as nat,
                clock: 0,
                expired: false,
            }),
    {
        Self { can_expire, expired: false, count, base, clock: 0 }
    }

    fn proceed(&mut self, rate: usize)
        requires
            old(self)@.count <= old(self)@.base,
            rate * old(self)@.base <= usize::MAX,
        ensures
            final(self)@ == counter_proceed_spec(old(self)@, rate as nat),
    {
        if !self.can_expire || self.expired {
            return;
        }
        let d = self.base - self.count;
        assert(rate * d <= rate * self.base) by (nonlinear_arith)
            requires
                d <= self.base,
        ;
        let deadline = rate * d / 256;
        if self.clock >= deadline {
            self.expired = true;
        } else {
            self.clock = self.clock + 1;
        }
    }

    fn is_expired(&self) -> (r: bool)
        ensures
            r == self@.expired,
    {
        self.expired
    }
}

// ---------------------------------------------------------------------------------------------
// Noise source
// ---------------------------------------------------------------------------------------------

/// The abstract state of an [`Lfsr`].
pub struct LfsrView {
    pub value: u16,
    pub short: bool,
}

/// One shift: the feedback bit from the taps enters at bit 7 (short mode, 8 bits) or bit 15.
pub open spec fn lfsr_update_spec(l: LfsrView) -> LfsrView {
    if l.short {
        let v: u16 = l.value & 0xff;
        let bit: u16 = (v & 0x0001) ^ ((v & 0x0004) >> 2u16) ^ ((v & 0x0008) >> 3u16) ^ ((v
            & 0x0010) >> 5u16);
        LfsrView { value: (v >> 1u16) | (bit << 7u16), ..l }
    } else {
        let v = l.value;
        let bit: u16 = (v & 0x0001) ^ ((v & 0x0004) >> 2u16) ^ ((v & 0x0008) >> 3u16) ^ ((v
            & 0x0020) >> 5u16);
        LfsrView { value: (v >> 1u16) | (bit << 15u16), ..l }
    }
}

struct Lfsr {
    value: u16,
    short: bool,
}

impl View for Lfsr {
    type V = LfsrView;

    closed spec fn view(&self) -> LfsrView {
        LfsrView { value: self.value, short: self.short }
    }
}

impl Lfsr {
    fn new(short: bool) -> (r: Self)
        ensures
            r@ == (LfsrView { value: 0xdead, short }),
    {
        Self { value: 0xdead, short }
    }

    fn high(&self) -> (r: bool)
        ensures
            r == (self@.value & 1 == 0),
    {
        self.value & 1 == 0
    }

    fn update(&mut self)
        ensures
            final(self)@ == lfsr_update_spec(old(self)@),
    {
        if self.short {
            self.value = self.value & 0xff;
            let bit = (self.value & 0x0001) ^ ((self.value & 0x0004) >> 2u16) ^ ((self.value
                & 0x0008) >> 3u16) ^ ((self.value & 0x0010) >> 5u16);
            self.value = (self.value >> 1u16) | (bit << 7u16);
        } else {
            let bit = (self.value & 0x0001) ^ ((self.value & 0x0004) >> 2u16) ^ ((self.value
                & 0x0008) >> 3u16) ^ ((self.value & 0x0020) >> 5u16);
            self.value = (self.value >> 1u16) | (bit << 15u16);
        }
    }
}

/// In short mode the register holds 8 bits.
pub proof fn lemma_short_lfsr_width(l: LfsrView)
    requires
        l.short,
    ensures
        lfsr_update_spec(l).value <= 0xff,
{
    let x = l.value;
    assert(x & 0xff <= 0xff) by (bit_vector);
    let v: u16 = x & 0xff;
    assert({
        let bit: u16 = (v & 0x0001) ^ ((v & 0x0004) >> 2u16) ^ ((v & 0x0008) >> 3u16) ^ ((v
            & 0x0010) >> 5u16);
        (v >> 1u16) | (bit << 7u16) <= 0xff
    }) by (bit_vector)
        requires
            v <= 0xff,
    ;
}

/// The abstract state of a [`RandomWave`].
pub struct RandomWaveView {
    pub lfsr: LfsrView,
    pub clock: nat,
}

/// The state after `high(rate, freq)`: the register shifts once per `rate` accumulated `freq`.
pub open spec fn random_wave_spec(v: RandomWaveView, rate: nat, freq: nat) -> RandomWaveView {
    let c = v.clock + freq;
    if c >= rate {
        RandomWaveView { clock: (c - rate) as nat, lfsr: lfsr_update_spec(v.lfsr) }
    } else {
        RandomWaveView { clock: c, ..v }
    }
}

struct RandomWave {
    lfsr: Lfsr,
    clock: usize,
}

impl View for RandomWave {
    type V = RandomWaveView;

    closed spec fn view(&self) -> RandomWaveView {
        RandomWaveView { lfsr: self.lfsr@, clock: self.clock as nat }
    }
}

impl RandomWave {
    fn new(short: bool) -> (r: Self)
        ensures
            r@ == (RandomWaveView { lfsr: LfsrView { value: 0xdead, short }, clock: 0 }),
    {
        Self { lfsr: Lfsr::new(short), clock: 0 }
    }

    fn high(&mut self, rate: usize, freq: usize) -> (r: bool)
        requires
            old(self)@.clock + freq <= usize::MAX,
        ensures
            final(self)@ == random_wave_spec(old(self)@, rate as nat, freq as nat),
            r == (final(self)@.lfsr.value & 1 == 0),
    {
        self.clock = self.clock + freq;
        if self.clock >= rate {
            self.clock = self.clock - rate;
            self.lfsr.update()
        }
        self.lfsr.high()
    }
}

// ---------------------------------------------------------------------------------------------
// Square channels
// ---------------------------------------------------------------------------------------------

/// The register file of a square channel.
#[derive(Debug, Clone, Copy)]
pub struct Tone {
    pub sweep: u8,
    pub sweep_time: usize,
    pub sweep_sub: bool,
    pub sweep_shift: usize,
    pub wave: u8,
    pub sound_len: usize,
    pub wave_duty: usize,
    pub envelop: u8,
    pub env_init: usize,
    pub env_inc: bool,
    pub env_count: usize,
    pub counter: bool,
    pub freq: usize,
    pub freq_high: u8,
}

/// The register fields stay within their bit widths.
pub open spec fn tone_regs_wf(t: Tone) -> bool {
    &&& t.sweep_time < 8
    &&& t.sweep_shift < 8
    &&& t.sound_len < 32
    &&& t.wave_duty < 4
    &&& t.env_init < 16
    &&& t.env_count < 8
    &&& t.freq < 2048
}

pub open spec fn tone_initial() -> Tone {
    Tone {
        sweep: 0,
        sweep_time: 0,
        sweep_sub: false,
        sweep_shift: 0,
        wave: 0,
        sound_len: 0,
        wave_duty: 0,
        envelop: 0,
        env_init: 0,
        env_inc: false,
        env_count: 0,
        counter: false,
        freq: 0,
        freq_high: 0,
    }
}

/// The registers after `write_sweep`.
pub open spec fn tone_write_sweep(r: Tone, value: u8) -> Tone {
    Tone { sweep: value, sweep_time: ((value >> 4u8) & 0x7) as usize, sweep_sub: value & 0x08 != 0, sweep_shift: (value & 0x07) as usize, ..r }
}

/// The registers after `write_wave`.
pub open spec fn tone_write_wave(r: Tone, value: u8) -> Tone {
    Tone { wave: value, wave_duty: (value >> 6u8) as usize, sound_len: (value & 0x1f) as usize, ..r }
}

/// The registers after `write_envelop`.
pub open spec fn tone_write_envelop(r: Tone, value: u8) -> Tone {
    Tone { envelop: value, env_init: (value >> 4u8) as usize, env_inc: value & 0x08 != 0, env_count: (value & 0x7) as usize, ..r }
}

/// The registers after `write_freq_low`.
pub open spec fn tone_write_freq_low(r: Tone, value: u8) -> Tone {
    Tone { freq: (r.freq & !0xffusize) | (value as usize), ..r }
}

/// The registers after `write_freq_high`.
pub open spec fn tone_write_freq_high(r: Tone, value: u8) -> Tone {
    Tone { freq_high: value, counter: value & 0x40 != 0, freq: (r.freq & !0x700usize) | (((value & 0x7) as usize) << 8usize), ..r }
}

impl Tone {
    pub fn new() -> (r: Self)
        ensures
            r == tone_initial(),
    {
        Self {
            sweep: 0,
            sweep_time: 0,
            sweep_sub: false,
            sweep_shift: 0,
            wave: 0,
            sound_len: 0,
            wave_duty: 0,
            envelop: 0,
            env_init: 0,
            env_inc: false,
            env_count: 0,
            counter: false,
            freq: 0,
            freq_high: 0,
        }
    }

    /// Read NR10 register (0xff10)
    pub fn read_sweep(&self) -> (r: u8)
        ensures
            r == self.sweep | 0x80,
    {
        self.sweep | 0x80
    }

    /// Write NR10 register (0xff10)
    pub fn write_sweep(&mut self, value: u8)
        ensures
            *final(self) == tone_write_sweep(*old(self), value),
            tone_regs_wf(*old(self)) ==> tone_regs_wf(*final(self)),
    {
        self.sweep = value;
        self.sweep_time = ((value >> 4u8) & 0x7) as usize;
        self.sweep_sub = value & 0x08 != 0;
        self.sweep_shift = (value & 0x07) as usize;
        proof {
            crate::bits::lemma_byte_fields(value);
        }
    }

    /// Read NR11/NR21 register (0xff11/0xff16)
    pub fn read_wave(&self) -> (r: u8)
        ensures
            r == self.wave | 0x3f,
    {
        self.wave | 0x3f
    }

    /// Write NR11/NR21 register (0xff11/0xff16)
    pub fn write_wave(&mut self, value: u8)
        ensures
            *final(self) == tone_write_wave(*old(self), value),
            tone_regs_wf(*old(self)) ==> tone_regs_wf(*final(self)),
    {
        self.wave = value;
        self.wave_duty = (value >> 6u8) as usize;
        self.sound_len = (value & 0x1f) as usize;
        proof {
            crate::bits::lemma_byte_fields(value);
        }
    }

    /// Read NR12/NR22 register (0xff12/0xff17)
    pub fn read_envelop(&self) -> (r: u8)
        ensures
            r == self.envelop,
    {
        self.envelop
    }

    /// Write NR12/NR22 register (0xff12/0xff17)
    pub fn write_envelop(&mut self, value: u8)
        ensures
            *final(self) == tone_write_envelop(*old(self), value),
            tone_regs_wf(*old(self)) ==> tone_regs_wf(*final(self)),
    {
        self.envelop = value;
        self.env_init = (value >> 4u8) as usize;
        self.env_inc = value & 0x08 != 0;
        self.env_count = (value & 0x7) as usize;
        proof {
            crate::bits::lemma_byte_fields(value);
        }
    }

    /// Read NR13/NR23 register (0xff13/0xff18): write only.
    pub fn read_freq_low(&self) -> (r: u8)
        ensures
            r == 0xff,
    {
        0xff
    }

    /// Write NR13/NR23 register (0xff13/0xff18)
    pub fn write_freq_low(&mut self, value: u8)
        ensures
            *final(self) == tone_write_freq_low(*old(self), value),
            tone_regs_wf(*old(self)) ==> tone_regs_wf(*final(self)),
    {
        let f = self.freq;
        proof {
            if f < 2048 {
                crate::bits::lemma_freq_bits(f, value);
            }
        }
        self.freq = (self.freq & !0xff) | value as usize;
    }

    /// Read NR14/NR24 register (0xff14/0xff19)
    pub fn read_freq_high(&self) -> (r: u8)
        ensures
            r == self.freq_high | 0xbf,
    {
        // Fix write-only bits to high
        self.freq_high | 0xbf
    }

    /// Write NR14/NR24 register (0xff14/0xff19); returns whether the channel restarts.
    pub fn write_freq_high(&mut self, value: u8) -> (r: bool)
        ensures
            *final(self) == tone_write_freq_high(*old(self), value),
            r == (value & 0x80 != 0),
            tone_regs_wf(*old(self)) ==> tone_regs_wf(*final(self)),
    {
        self.freq_high = value;
        self.counter = value & 0x40 != 0;
        let f = self.freq;
        proof {
            if f < 2048 {
                crate::bits::lemma_freq_bits(f, value);
            }
        }
        self.freq = (self.freq & !0x700) | (((value & 0x7) as usize) << 8usize);
        value & 0x80 != 0
    }

    /// Clears every register.
    pub fn clear(&mut self)
        ensures
            *final(self) == tone_initial(),
    {
        *self = Tone::new();
    }
}

/// The position in the 8-step square wave at or below which the output is low.
pub open spec fn duty_threshold(wave_duty: usize) -> nat {
    if wave_duty == 0 {
        0
    } else if wave_duty == 1 {
        1
    } else if wave_duty == 2 {
        3
    } else {
        5
    }
}

/// The abstract state of a [`ToneStream`].
pub struct ToneStreamView {
    pub tone: Tone,
    pub sweep: SweepView,
    pub env: EnvelopView,
    pub counter: CounterView,
    pub index: WaveIndexView,
}

/// Whether the stream may produce another sample at `rate` without leaving the machine range.
pub open spec fn tone_stream_can_next(v: ToneStreamView, rate: nat) -> bool {
    &&& rate * 256 <= usize::MAX
    &&& v.sweep.clock < usize::MAX
    &&& v.env.clock < usize::MAX
    &&& v.index.clock + 131072 * 8 <= usize::MAX
}

/// The sample `next(rate)` produces and the state after it.
pub open spec fn tone_stream_next_spec(v: ToneStreamView, rate: nat) -> (ToneStreamView, u16) {
    let counter = counter_proceed_spec(v.counter, rate);
    if counter.expired {
        (ToneStreamView { counter, ..v }, 0)
    } else {
        let env = envelop_amp_spec(v.env, rate);
        let amp = if v.env.amp == 0 {
            0
        } else {
            env.amp
        };
        let sweep = sweep_freq_spec(v.sweep, rate);
        let index = wave_index_spec(v.index, rate, (sweep.freq * 8) as nat, 8);
        (
            ToneStreamView { counter, env, sweep, index, ..v },
            if index.index <= duty_threshold(v.tone.wave_duty) {
                0
            } else {
                amp as u16
            },
        )
    }
}

/// Generates a square channel's samples from a snapshot of its registers.
pub struct ToneStream {
    tone: Tone,
    sweep: Sweep,
    env: Envelop,
    counter: Counter,
    index: WaveIndex,
}

impl View for ToneStream {
    type V = ToneStreamView;

    closed spec fn view(&self) -> ToneStreamView {
        ToneStreamView {
            tone: self.tone,
            sweep: self.sweep@,
            env: self.env@,
            counter: self.counter@,
            index: self.index@,
        }
    }
}

/// The stream invariant: register fields in range and the sweep and counter derived from them.
pub open spec fn tone_stream_wf(v: ToneStreamView) -> bool {
    &&& tone_regs_wf(v.tone)
    &&& v.sweep.shift < 8
    &&& v.sweep.time < 8
    &&& v.sweep.freq <= 131072
    &&& v.counter.count <= v.counter.base
    &&& v.counter.base == 64
    &&& v.env.count < 8
    &&& v.env.amp <= 15
    &&& v.index.index < 8
}

/// A square channel's stream as it starts: sweep from the tone's frequency in Hz, envelope
/// from its initial volume, length counter from its length.
pub open spec fn tone_stream_initial(tone: Tone, sweep: bool) -> ToneStreamView {
    ToneStreamView {
        tone,
        sweep: SweepView {
            enable: sweep,
            freq: (131072int / (2048 - tone.freq)) as usize,
            time: tone.sweep_time as nat,
            sub: tone.sweep_sub,
            shift: tone.sweep_shift,
            clock: 0,
        },
        env: EnvelopView {
            amp: tone.env_init as nat,
            count: tone.env_count as nat,
            inc: tone.env_inc,
            clock: 0,
        },
        counter: CounterView {
            can_expire: tone.counter,
            count: tone.sound_len as nat,
            base: 64,
            clock: 0,
            expired: false,
        },
        index: WaveIndexView { clock: 0, index: 0 },
    }
}

impl ToneStream {
    /// Starts a stream for the registers of a channel (`sweep` for channel 1).
    pub fn new(tone: Tone, sweep: bool) -> (r: Self)
        requires
            tone_regs_wf(tone),
        ensures
            tone_stream_wf(r@),
            r@ == tone_stream_initial(tone, sweep),
    {
        let freq = 131072 / (2048 - tone.freq);
        assert(freq <= 131072) by (nonlinear_arith)
            requires
                freq == 131072int / (2048 - tone.freq),
                tone.freq < 2048,
        ;
        let sweep = Sweep::new(sweep, freq, tone.sweep_time, tone.sweep_sub, tone.sweep_shift);
        let env = Envelop::new(tone.env_init, tone.env_count, tone.env_inc);
        let counter = Counter::new(tone.counter, tone.sound_len, 64);
        Self { tone, sweep, env, counter, index: WaveIndex::new() }
    }

    /// The next sample at the given sample rate.
    pub fn next(&mut self, rate: u32) -> (r: u16)
        requires
            tone_stream_wf(old(self)@),
            tone_stream_can_next(old(self)@, rate as nat),
        ensures
            tone_stream_wf(final(self)@),
            (final(self)@, r) == tone_stream_next_spec(old(self)@, rate as nat),
            r <= 15,
    {
        let rate = rate as usize;
        self.counter.proceed(rate);
        if self.counter.is_expired() {
            return 0;
        }
        assert(rate * self@.env.count <= usize::MAX) by (nonlinear_arith)
            requires
                self@.env.count < 8,
                rate * 256 <= usize::MAX,
        ;
        // Envelop
        let amp = self.env.amp(rate);
        // Sweep
        let freq = self.sweep.freq(rate);
        // Square wave generation
        let duty: usize = if self.tone.wave_duty == 0 {
            0
        } else if self.tone.wave_duty == 1 {
            1
        } else if self.tone.wave_duty == 2 {
            3
        } else {
            5
        };
        let index = self.index.index(rate, freq * 8, 8);
        if index <= duty {
            0
        } else {
            amp as u16
        }
    }

    /// Whether the channel still plays.
    pub fn on(&self) -> (r: bool)
        ensures
            r == !self@.counter.expired,
    {
        !self.counter.is_expired()
    }
}


// ---------------------------------------------------------------------------------------------
// Wave channel
// ---------------------------------------------------------------------------------------------

/// The register file of the wave channel.
#[derive(Debug, Clone, Copy)]
pub struct Wave {
    pub enable: bool,
    pub sound_len: usize,
    pub amp: u8,
    pub amp_shift: usize,
    pub counter: bool,
    pub freq: usize,
    pub freq_high: u8,
    pub wavebuf: [u8; 16],
}

/// The register fields stay within their bit widths.
pub open spec fn wave_regs_wf(w: Wave) -> bool {
    &&& w.sound_len < 256
    &&& w.amp_shift < 4
    &&& w.freq < 2048
}

/// The registers after `write_enable`.
pub open spec fn wave_write_enable(r: Wave, value: u8) -> Wave {
    Wave { enable: value & 0x80 != 0, ..r }
}

/// The registers after `write_len`.
pub open spec fn wave_write_len(r: Wave, value: u8) -> Wave {
    Wave { sound_len: value as usize, ..r }
}

/// The registers after `write_amp`.
pub open spec fn wave_write_amp(r: Wave, value: u8) -> Wave {
    Wave { amp: value, amp_shift: ((value as usize) >> 5usize) & 0x3, ..r }
}

/// The registers after `write_freq_low`.
pub open spec fn wave_write_freq_low(r: Wave, value: u8) -> Wave {
    Wave { freq: (r.freq & !0xffusize) | (value as usize), ..r }
}

/// The registers after `write_freq_high`.
pub open spec fn wave_write_freq_high(r: Wave, value: u8) -> Wave {
    Wave { freq_high: value, counter: value & 0x40 != 0, freq: (r.freq & !0x700usize) | (((value & 0x7) as usize) << 8usize), ..r }
}

impl Wave {
    pub fn new() -> (r: Self)
        ensures
            wave_regs_wf(r),
            !r.enable,
            r.sound_len == 0 && r.amp == 0 && r.amp_shift == 0 && !r.counter,
            r.freq == 0 && r.freq_high == 0,
            r.wavebuf@ == Seq::new(16, |i: int| 0u8),
    {
        let w = Self {
            enable: false,
            sound_len: 0,
            amp: 0,
            amp_shift: 0,
            counter: false,
            freq: 0,
            freq_high: 0,
            wavebuf: [0; 16],
        };
        assert(w.wavebuf@ =~= Seq::new(16, |i: int| 0u8));
        w
    }

    /// Read NR30 register (0xff1a)
    pub fn read_enable(&self) -> (r: u8)
        ensures
            r == (if self.enable {
                0xffu8
            } else {
                0x7fu8
            }),
    {
        if self.enable {
            0xff
        } else {
            0x7f
        }
    }

    /// Write NR30 register (0xff1a)
    pub fn write_enable(&mut self, value: u8)
        ensures
            *final(self) == wave_write_enable(*old(self), value),
    {
        self.enable = value & 0x80 != 0;
    }

    /// Read NR31 register (0xff1b): write only.
    pub fn read_len(&self) -> (r: u8)
        ensures
            r == 0xff,
    {
        0xff
    }

    /// Write NR31 register (0xff1b)
    pub fn write_len(&mut self, value: u8)
        ensures
            *final(self) == wave_write_len(*old(self), value),
            wave_regs_wf(*old(self)) ==> wave_regs_wf(*final(self)),
    {
        self.sound_len = value as usize;
    }

    /// Read NR32 register (0xff1c)
    pub fn read_amp(&self) -> (r: u8)
        ensures
            r == self.amp | 0x9f,
    {
        self.amp | 0x9f
    }

    /// Write NR32 register (0xff1c): bits 5-6 select the output level.
    pub fn write_amp(&mut self, value: u8)
        ensures
            *final(self) == wave_write_amp(*old(self), value),
            wave_regs_wf(*old(self)) ==> wave_regs_wf(*final(self)),
    {
        self.amp = value;
        let v = value as usize;
        proof {
            crate::bits::lemma_wide_byte_fields(v);
        }
        self.amp_shift = (v >> 5usize) & 0x3;
    }

    /// Read NR33 register (0xff1d): write only.
    pub fn read_freq_low(&self) -> (r: u8)
        ensures
            r == 0xff,
    {
        0xff
    }

    /// Write NR33 register (0xff1d)
    pub fn write_freq_low(&mut self, value: u8)
        ensures
            *final(self) == wave_write_freq_low(*old(self), value),
            wave_regs_wf(*old(self)) ==> wave_regs_wf(*final(self)),
    {
        let f = self.freq;
        proof {
            if f < 2048 {
                crate::bits::lemma_freq_bits(f, value);
            }
        }
        self.freq = (self.freq & !0xff) | value as usize;
    }

    /// Read NR34 register (0xff1e)
    pub fn read_freq_high(&self) -> (r: u8)
        ensures
            r == self.freq_high | 0xbf,
    {
        // Mask write-only bits
        self.freq_high | 0xbf
    }

    /// Write NR34 register (0xff1e); returns whether the channel restarts.
    pub fn write_freq_high(&mut self, value: u8) -> (r: bool)
        ensures
            *final(self) == wave_write_freq_high(*old(self), value),
            r == (value & 0x80 != 0),
            wave_regs_wf(*old(self)) ==> wave_regs_wf(*final(self)),
    {
        self.freq_high = value;
        self.counter = value & 0x40 != 0;
        let f = self.freq;
        proof {
            if f < 2048 {
                crate::bits::lemma_freq_bits(f, value);
            }
        }
        self.freq = (self.freq & !0x700) | (((value & 0x7) as usize) << 8usize);
        value & 0x80 != 0
    }

    /// Read wave pattern buffer
    pub fn read_wave_buf(&self, offset: u16) -> (r: u8)
        requires
            0xff30 <= offset <= 0xff3f,
        ensures
            r == self.wavebuf@[offset - 0xff30],
    {
        self.wavebuf[offset as usize - 0xff30]
    }

    /// Write wave pattern buffer
    pub fn write_wave_buf(&mut self, offset: u16, value: u8)
        requires
            0xff30 <= offset <= 0xff3f,
        ensures
            final(self).wavebuf@ == old(self).wavebuf@.update(offset - 0xff30, value),
            *final(self) == (Wave { wavebuf: final(self).wavebuf, ..*old(self) }),
    {
        self.wavebuf[offset as usize - 0xff30] = value;
    }

    /// Clears every register but keeps the wave pattern.
    pub fn clear(&mut self)
        ensures
            wave_regs_wf(*final(self)),
            *final(self) == (Wave {
                enable: false,
                sound_len: 0,
                amp: 0,
                amp_shift: 0,
                counter: false,
                freq: 0,
                freq_high: 0,
                wavebuf: old(self).wavebuf,
            }),
    {
        let mut wave = Wave::new();
        wave.wavebuf = self.wavebuf;
        *self = wave;
    }
}

/// The 4-bit sample at `index` of the 32 samples packed two per byte, high nibble first,
/// scaled by the output level.
pub open spec fn wave_sample_spec(buf: Seq<u8>, index: nat, amp_shift: usize) -> u16 {
    let b = buf[(index / 2) as int];
    let amp: u8 = if index % 2 == 0 {
        b >> 4u8
    } else {
        b & 0xf
    };
    (if amp_shift == 0 {
        0
    } else if amp_shift == 1 {
        amp
    } else if amp_shift == 2 {
        amp >> 1u8
    } else {
        amp >> 2u8
    }) as u16
}

/// The abstract state of a [`WaveStream`].
pub struct WaveStreamView {
    pub wave: Wave,
    pub counter: CounterView,
    pub index: WaveIndexView,
}

pub open spec fn wave_stream_wf(v: WaveStreamView) -> bool {
    &&& wave_regs_wf(v.wave)
    &&& v.counter.count <= v.counter.base
    &&& v.counter.base == 256
    &&& v.index.index < 32
}

pub open spec fn wave_stream_can_next(v: WaveStreamView, rate: nat) -> bool {
    &&& rate * 256 <= usize::MAX
    &&& v.index.clock + 65536 * 32 <= usize::MAX
}

/// The sample `next(rate)` produces and the state after it.
pub open spec fn wave_stream_next_spec(v: WaveStreamView, rate: nat) -> (WaveStreamView, u16) {
    if !v.wave.enable {
        (v, 0)
    } else {
        let counter = counter_proceed_spec(v.counter, rate);
        if counter.expired {
            (WaveStreamView { counter, ..v }, 0)
        } else {
            let freq = 65536int / (2048 - v.wave.freq);
            let index = wave_index_spec(v.index, rate, (freq * 32) as nat, 32);
            (
                WaveStreamView { counter, index, ..v },
                wave_sample_spec(v.wave.wavebuf@, index.index, v.wave.amp_shift),
            )
        }
    }
}

/// Generates the wave channel's samples from a snapshot of its registers.
pub struct WaveStream {
    wave: Wave,
    counter: Counter,
    index: WaveIndex,
}

impl View for WaveStream {
    type V = WaveStreamView;

    closed spec fn view(&self) -> WaveStreamView {
        WaveStreamView { wave: self.wave, counter: self.counter@, index: self.index@ }
    }
}

/// The wave channel's stream as it starts.
pub open spec fn wave_stream_initial(wave: Wave) -> WaveStreamView {
    WaveStreamView {
        wave,
        counter: CounterView {
            can_expire: wave.counter,
            count: wave.sound_len as nat,
            base: 256,
            clock: 0,
            expired: false,
        },
        index: WaveIndexView { clock: 0, index: 0 },
    }
}

impl WaveStream {
    pub fn new(wave: Wave) -> (r: Self)
        requires
            wave_regs_wf(wave),
        ensures
            wave_stream_wf(r@),
            r@ == wave_stream_initial(wave),
    {
        let counter = Counter::new(wave.counter, wave.sound_len, 256);
        Self { wave, counter, index: WaveIndex::new() }
    }

    /// The next sample at the given sample rate.
    pub fn next(&mut self, rate: u32) -> (r: u16)
        requires
            wave_stream_wf(old(self)@),
            wave_stream_can_next(old(self)@, rate as nat),
        ensures
            wave_stream_wf(final(self)@),
            (final(self)@, r) == wave_stream_next_spec(old(self)@, rate as nat),
            r <= 15,
    {
        if !self.wave.enable {
            return 0;
        }
        let rate = rate as usize;
        self.counter.proceed(rate);
        if self.counter.is_expired() {
            return 0;
        }
        let samples: usize = 32;
        let freq = 65536 / (2048 - self.wave.freq);
        assert(freq <= 65536) by (nonlinear_arith)
            requires
                freq == 65536int / (2048 - self.wave.freq),
                self.wave.freq < 2048,
        ;
        let index_freq = freq * samples;
        let index = self.index.index(rate, index_freq, samples);
        let b = self.wave.wavebuf[index / 2];
        proof {
            crate::bits::lemma_byte_fields(b);
            crate::bits::lemma_byte_fields(b >> 4u8);
            crate::bits::lemma_byte_fields(b & 0xf);
        }
        let amp = if index % 2 == 0 {
            b >> 4u8
        } else {
            b & 0xf
        };
        let amp = if self.wave.amp_shift == 0 {
            0
        } else if self.wave.amp_shift == 1 {
            amp
        } else if self.wave.amp_shift == 2 {
            amp >> 1u8
        } else {
            amp >> 2u8
        };
        amp as u16
    }

    /// Whether the channel still plays.
    pub fn on(&self) -> (r: bool)
        ensures
            r == !self@.counter.expired,
    {
        !self.counter.is_expired()
    }
}


// ---------------------------------------------------------------------------------------------
// Noise channel
// ---------------------------------------------------------------------------------------------

/// The register file of the noise channel.
#[derive(Debug, Clone, Copy)]
pub struct Noise {
    pub sound_len: usize,
    pub envelop: u8,
    pub env_init: usize,
    pub env_inc: bool,
    pub env_count: usize,
    pub poly_counter: u8,
    pub shift_freq: usize,
    pub step: bool,
    pub div_freq: usize,
    pub select: u8,
    pub counter: bool,
    pub freq: usize,
}

/// The register fields stay within their bit widths.
pub open spec fn noise_regs_wf(n: Noise) -> bool {
    &&& n.sound_len < 32
    &&& n.env_init < 16
    &&& n.env_count < 8
    &&& n.shift_freq < 16
    &&& n.div_freq < 8
}

pub open spec fn noise_initial() -> Noise {
    Noise {
        sound_len: 0,
        envelop: 0,
        env_init: 0,
        env_inc: false,
        env_count: 0,
        poly_counter: 0,
        shift_freq: 0,
        step: false,
        div_freq: 0,
        select: 0,
        counter: false,
        freq: 0,
    }
}

/// The registers after `write_len`.
pub open spec fn noise_write_len(r: Noise, value: u8) -> Noise {
    Noise { sound_len: (value & 0x1f) as usize, ..r }
}

/// The registers after `write_envelop`.
pub open spec fn noise_write_envelop(r: Noise, value: u8) -> Noise {
    Noise { envelop: value, env_init: (value >> 4u8) as usize, env_inc: value & 0x08 != 0, env_count: (value & 0x7) as usize, ..r }
}

/// The registers after `write_poly_counter`.
pub open spec fn noise_write_poly_counter(r: Noise, value: u8) -> Noise {
    Noise { poly_counter: value, shift_freq: (value >> 4u8) as usize, step: value & 0x08 != 0, div_freq: (value & 0x7) as usize, ..r }
}

/// The registers after `write_select`.
pub open spec fn noise_write_select(r: Noise, value: u8) -> Noise {
    Noise { select: value, counter: value & 0x40 != 0, ..r }
}

impl Noise {
    pub fn new() -> (r: Self)
        ensures
            r == noise_initial(),
    {
        Self {
            sound_len: 0,
            envelop: 0,
            env_init: 0,
            env_inc: false,
            env_count: 0,
            poly_counter: 0,
            shift_freq: 0,
            step: false,
            div_freq: 0,
            select: 0,
            counter: false,
            freq: 0,
        }
    }

    /// Read NR41 register (0xff20): write only.
    pub fn read_len(&self) -> (r: u8)
        ensures
            r == 0xff,
    {
        0xff
    }

    /// Write NR41 register (0xff20)
    pub fn write_len(&mut self, value: u8)
        ensures
            *final(self) == noise_write_len(*old(self), value),
            noise_regs_wf(*old(self)) ==> noise_regs_wf(*final(self)),
    {
        proof {
            crate::bits::lemma_byte_fields(value);
        }
        self.sound_len = (value & 0x1f) as usize;
    }

    /// Read NR42 register (0xff21)
    pub fn read_envelop(&self) -> (r: u8)
        ensures
            r == self.envelop,
    {
        self.envelop
    }

    /// Write NR42 register (0xff21)
    pub fn write_envelop(&mut self, value: u8)
        ensures
            *final(self) == noise_write_envelop(*old(self), value),
            noise_regs_wf(*old(self)) ==> noise_regs_wf(*final(self)),
    {
        self.envelop = value;
        self.env_init = (value >> 4u8) as usize;
        self.env_inc = value & 0x08 != 0;
        self.env_count = (value & 0x7) as usize;
        proof {
            crate::bits::lemma_byte_fields(value);
        }
    }

    /// Read NR43 register (0xff22)
    pub fn read_poly_counter(&self) -> (r: u8)
        ensures
            r == self.poly_counter,
    {
        self.poly_counter
    }

    /// Write NR43 register (0xff22)
    pub fn write_poly_counter(&mut self, value: u8)
        ensures
            *final(self) == noise_write_poly_counter(*old(self), value),
            noise_regs_wf(*old(self)) ==> noise_regs_wf(*final(self)),
    {
        self.poly_counter = value;
        self.shift_freq = (value >> 4u8) as usize;
        self.step = value & 0x08 != 0;
        self.div_freq = (value & 0x7) as usize;
        proof {
            crate::bits::lemma_byte_fields(value);
        }
    }

    /// Read NR44 register (0xff23)
    pub fn read_select(&self) -> (r: u8)
        ensures
            r == self.select | 0xbf,
    {
        self.select | 0xbf
    }

    /// Write NR44 register (0xff23); returns whether the channel restarts.
    pub fn write_select(&mut self, value: u8) -> (r: bool)
        ensures
            *final(self) == noise_write_select(*old(self), value),
            r == (value & 0x80 != 0),
    {
        self.select = value;
        self.counter = value & 0x40 != 0;
        value & 0x80 != 0
    }

    /// Clears every register.
    pub fn clear(&mut self)
        ensures
            *final(self) == noise_initial(),
    {
        *self = Noise::new();
    }
}

/// The rate at which the noise register shifts: 524288 Hz / r / 2^(s+1), with r = 0 read
/// as one half.
pub open spec fn noise_freq_spec(div_freq: nat, shift_freq: nat) -> nat {
    if div_freq == 0 {
        524288nat * 5 / 10 / pow2(shift_freq + 1)
    } else {
        524288nat / div_freq / pow2(shift_freq + 1)
    }
}

/// The abstract state of a [`NoiseStream`].
pub struct NoiseStreamView {
    pub noise: Noise,
    pub env: EnvelopView,
    pub counter: CounterView,
    pub wave: RandomWaveView,
}

pub open spec fn noise_stream_wf(v: NoiseStreamView) -> bool {
    &&& noise_regs_wf(v.noise)
    &&& v.counter.count <= v.counter.base
    &&& v.counter.base == 64
    &&& v.env.count < 8
    &&& v.env.amp <= 15
}

pub open spec fn noise_stream_can_next(v: NoiseStreamView, rate: nat) -> bool {
    &&& rate * 256 <= usize::MAX
    &&& v.env.clock < usize::MAX
    &&& v.wave.clock + 262144 <= usize::MAX
}

/// The sample `next(rate)` produces and the state after it.
pub open spec fn noise_stream_next_spec(v: NoiseStreamView, rate: nat) -> (NoiseStreamView, u16) {
    let counter = counter_proceed_spec(v.counter, rate);
    if counter.expired {
        (NoiseStreamView { counter, ..v }, 0)
    } else {
        let env = envelop_amp_spec(v.env, rate);
        let amp = if v.env.amp == 0 {
            0
        } else {
            env.amp
        };
        let freq = noise_freq_spec(v.noise.div_freq as nat, v.noise.shift_freq as nat);
        let wave = random_wave_spec(v.wave, rate, freq);
        (
            NoiseStreamView { counter, env, wave, ..v },
            if wave.lfsr.value & 1 == 0 {
                amp as u16
            } else {
                0
            },
        )
    }
}

/// Generates the noise channel's samples from a snapshot of its registers.
pub struct NoiseStream {
    noise: Noise,
    env: Envelop,
    counter: Counter,
    wave: RandomWave,
}

impl View for NoiseStream {
    type V = NoiseStreamView;

    closed spec fn view(&self) -> NoiseStreamView {
        NoiseStreamView {
            noise: self.noise,
            env: self.env@,
            counter: self.counter@,
            wave: self.wave@,
        }
    }
}

/// The noise channel's stream as it starts, its shift register seeded.
pub open spec fn noise_stream_initial(noise: Noise) -> NoiseStreamView {
    NoiseStreamView {
        noise,
        env: EnvelopView {
            amp: noise.env_init as nat,
            count: noise.env_count as nat,
            inc: noise.env_inc,
            clock: 0,
        },
        counter: CounterView {
            can_expire: noise.counter,
            count: noise.sound_len as nat,
            base: 64,
            clock: 0,
            expired: false,
        },
        wave: RandomWaveView { lfsr: LfsrView { value: 0xdead, short: noise.step }, clock: 0 },
    }
}

impl NoiseStream {
    pub fn new(noise: Noise) -> (r: Self)
        requires
            noise_regs_wf(noise),
        ensures
            noise_stream_wf(r@),
            r@ == noise_stream_initial(noise),
    {
        let env = Envelop::new(noise.env_init, noise.env_count, noise.env_inc);
        let counter = Counter::new(noise.counter, noise.sound_len, 64);
        let wave = RandomWave::new(noise.step);
        Self { noise, env, counter, wave }
    }

    /// The next sample at the given sample rate.
    pub fn next(&mut self, rate: u32) -> (r: u16)
        requires
            noise_stream_wf(old(self)@),
            noise_stream_can_next(old(self)@, rate as nat),
        ensures
            noise_stream_wf(final(self)@),
            (final(self)@, r) == noise_stream_next_spec(old(self)@, rate as nat),
            r <= 15,
    {
        let rate = rate as usize;
        self.counter.proceed(rate);
        if self.counter.is_expired() {
            return 0;
        }
        assert(rate * self@.env.count <= usize::MAX) by (nonlinear_arith)
            requires
                self@.env.count < 8,
                rate * 256 <= usize::MAX,
        ;
        // Envelop
        let amp = self.env.amp(rate);
        // Noise: 524288 Hz / r / 2 ^ (s+1)
        let r = self.noise.div_freq;
        let s = self.noise.shift_freq;
        let p = 1usize << (s + 1);
        proof {
            lemma_pow2_bounds((s + 1) as usize);
            vstd::bits::lemma_usize_shl_is_mul(1, (s + 1) as usize);
        }
        let freq = if r == 0 {
            // For r = 0, assume r = 0.5 instead
            524288 * 5 / 10 / p
        } else {
            524288 / r / p
        };
        proof {
            assert(freq <= 262144) by (nonlinear_arith)
                requires
                    p >= 2,
                    r == 0 ==> freq == 262144usize / p,
                    r != 0 ==> freq == 524288usize / r / p,
            ;
        }
        if self.wave.high(rate, freq) {
            amp as u16
        } else {
            0
        }
    }

    /// Whether the channel still plays.
    pub fn on(&self) -> (r: bool)
        ensures
            r == !self@.counter.expired,
    {
        !self.counter.is_expired()
    }
}

/// `2^n` for the shift amounts of the noise divider, with its bounds.
proof fn lemma_pow2_bounds(n: usize)
    requires
        1 <= n <= 16,
    ensures
        2 <= pow2(n as nat) <= 65536,
        1 * pow2(n as nat) <= usize::MAX,
{
    vstd::arithmetic::power2::lemma2_to64();
}


// ---------------------------------------------------------------------------------------------
// Mixer
// ---------------------------------------------------------------------------------------------

impl ToneStream {
    /// Whether `next(rate)` stays within the machine range.
    pub fn can_next(&self, rate: u32) -> (r: bool)
        ensures
            r == tone_stream_can_next(self@, rate as nat),
    {
        (rate as usize) <= usize::MAX / 256 && self.sweep.clock < usize::MAX && self.env.clock()
            < usize::MAX && self.index.clock() <= usize::MAX - 131072 * 8
    }
}

impl WaveStream {
    /// Whether `next(rate)` stays within the machine range.
    pub fn can_next(&self, rate: u32) -> (r: bool)
        ensures
            r == wave_stream_can_next(self@, rate as nat),
    {
        (rate as usize) <= usize::MAX / 256 && self.index.clock() <= usize::MAX - 65536 * 32
    }
}

impl NoiseStream {
    /// Whether `next(rate)` stays within the machine range.
    pub fn can_next(&self, rate: u32) -> (r: bool)
        ensures
            r == noise_stream_can_next(self@, rate as nat),
    {
        (rate as usize) <= usize::MAX / 256 && self.env.clock() < usize::MAX && self.wave.clock
            <= usize::MAX - 262144
    }
}

/// The abstract state of a [`MixerStream`].
pub struct MixerStreamView {
    pub tones: (Option<ToneStreamView>, Option<ToneStreamView>),
    pub wave: Option<WaveStreamView>,
    pub noise: Option<NoiseStreamView>,
    pub volumes: (usize, usize, usize, usize),
    pub enable: bool,
}

/// Every playing stream is well formed and every volume is at most 14.
pub open spec fn mixer_stream_wf(v: MixerStreamView) -> bool {
    &&& (v.tones.0 matches Some(t) ==> tone_stream_wf(t))
    &&& (v.tones.1 matches Some(t) ==> tone_stream_wf(t))
    &&& (v.wave matches Some(w) ==> wave_stream_wf(w))
    &&& (v.noise matches Some(n) ==> noise_stream_wf(n))
    &&& v.volumes.0 <= 14 && v.volumes.1 <= 14 && v.volumes.2 <= 14 && v.volumes.3 <= 14
}

pub open spec fn mixer_stream_can_next(v: MixerStreamView, rate: nat) -> bool {
    &&& (v.tones.0 matches Some(t) ==> tone_stream_can_next(t, rate))
    &&& (v.tones.1 matches Some(t) ==> tone_stream_can_next(t, rate))
    &&& (v.wave matches Some(w) ==> wave_stream_can_next(w, rate))
    &&& (v.noise matches Some(n) ==> noise_stream_can_next(n, rate))
}

/// The amplitude of a channel and its state after one sample, silent when nothing plays.
pub open spec fn tone_unit_next(t: Option<ToneStreamView>, rate: nat) -> (Option<ToneStreamView>, u16) {
    match t {
        Some(t) => {
            let (t2, a) = tone_stream_next_spec(t, rate);
            (Some(t2), a)
        },
        None => (None, 0),
    }
}

pub open spec fn wave_unit_next(w: Option<WaveStreamView>, rate: nat) -> (Option<WaveStreamView>, u16) {
    match w {
        Some(w) => {
            let (w2, a) = wave_stream_next_spec(w, rate);
            (Some(w2), a)
        },
        None => (None, 0),
    }
}

pub open spec fn noise_unit_next(n: Option<NoiseStreamView>, rate: nat) -> (Option<NoiseStreamView>, u16) {
    match n {
        Some(n) => {
            let (n2, a) = noise_stream_next_spec(n, rate);
            (Some(n2), a)
        },
        None => (None, 0),
    }
}

/// The mixed sample and the state after it: each channel's amplitude times its volume, the
/// noise channel halved; nothing advances while the mixer is off.
pub open spec fn mixer_stream_next_spec(v: MixerStreamView, rate: nat) -> (MixerStreamView, u16) {
    if !v.enable {
        (v, 0)
    } else {
        let (t1, a1) = tone_unit_next(v.tones.0, rate);
        let (t2, a2) = tone_unit_next(v.tones.1, rate);
        let (w, a3) = wave_unit_next(v.wave, rate);
        let (n, a4) = noise_unit_next(v.noise, rate);
        (
            MixerStreamView { tones: (t1, t2), wave: w, noise: n, ..v },
            (a1 * v.volumes.0 + a2 * v.volumes.1 + a3 * v.volumes.2 + (a4 * v.volumes.3) / 2) as u16,
        )
    }
}

/// The samples of the four channels, mixed at the host's rate.
pub struct MixerStream {
    tone1: Option<ToneStream>,
    tone2: Option<ToneStream>,
    wave: Option<WaveStream>,
    noise: Option<NoiseStream>,
    volumes: (usize, usize, usize, usize),
    enable: bool,
}

impl View for MixerStream {
    type V = MixerStreamView;

    closed spec fn view(&self) -> MixerStreamView {
        MixerStreamView {
            tones: (
                match self.tone1 {
                    Some(t) => Some(t@),
                    None => None,
                },
                match self.tone2 {
                    Some(t) => Some(t@),
                    None => None,
                },
            ),
            wave: match self.wave {
                Some(w) => Some(w@),
                None => None,
            },
            noise: match self.noise {
                Some(n) => Some(n@),
                None => None,
            },
            volumes: self.volumes,
            enable: self.enable,
        }
    }
}

/// The loudest mixed sample: volume 14 times amplitude 15 for four channels, softened three
/// times.
pub const MIXER_MAX: u16 = 2520;

impl MixerStream {
    pub fn new() -> (r: Self)
        ensures
            mixer_stream_wf(r@),
            r@ == (MixerStreamView {
                tones: (None, None),
                wave: None,
                noise: None,
                volumes: (0, 0, 0, 0),
                enable: false,
            }),
    {
        Self { tone1: None, tone2: None, wave: None, noise: None, volumes: (0, 0, 0, 0), enable: false }
    }

    /// The largest sample this stream produces.
    pub fn max(&self) -> (r: u16)
        ensures
            r == MIXER_MAX,
    {
        // volume max = 7 * 2 = 14
        // amplitude max = 15
        // total volume max = 14 * 15 * 4 = 840
        // * 3 to soften the sound
        MIXER_MAX
    }

    /// Whether `next(rate)` stays within the machine range.
    pub fn can_next(&self, rate: u32) -> (r: bool)
        ensures
            r == mixer_stream_can_next(self@, rate as nat),
    {
        let t1 = match &self.tone1 {
            Some(t) => t.can_next(rate),
            None => true,
        };
        let t2 = match &self.tone2 {
            Some(t) => t.can_next(rate),
            None => true,
        };
        let w = match &self.wave {
            Some(w) => w.can_next(rate),
            None => true,
        };
        let n = match &self.noise {
            Some(n) => n.can_next(rate),
            None => true,
        };
        t1 && t2 && w && n
    }

    /// The next mixed sample at the given sample rate.
    pub fn next(&mut self, rate: u32) -> (r: u16)
        requires
            mixer_stream_wf(old(self)@),
            mixer_stream_can_next(old(self)@, rate as nat),
        ensures
            mixer_stream_wf(final(self)@),
            (final(self)@, r) == mixer_stream_next_spec(old(self)@, rate as nat),
            r <= 840,
    {
        if !self.enable {
            return 0;
        }
        let a1 = match &mut self.tone1 {
            Some(t) => t.next(rate),
            None => 0,
        };
        let a2 = match &mut self.tone2 {
            Some(t) => t.next(rate),
            None => 0,
        };
        let a3 = match &mut self.wave {
            Some(w) => w.next(rate),
            None => 0,
        };
        let a4 = match &mut self.noise {
            Some(n) => n.next(rate),
            None => 0,
        };
        assert(a1 <= 15 && a2 <= 15 && a3 <= 15 && a4 <= 15);
        let (v1, v2, v3, v4) = self.volumes;
        assert(a1 * v1 <= 210 && a2 * v2 <= 210 && a3 * v3 <= 210 && a4 * v4 <= 210)
            by (nonlinear_arith)
            requires
                a1 <= 15 && a2 <= 15 && a3 <= 15 && a4 <= 15,
                v1 <= 14 && v2 <= 14 && v3 <= 14 && v4 <= 14,
        ;
        let vol = a1 * (v1 as u16) + a2 * (v2 as u16) + a3 * (v3 as u16) + a4 * (v4 as u16) / 2;
        vol
    }

    /// Whether the mixer plays.
    pub fn on(&self) -> (r: bool)
        ensures
            r == self@.enable,
    {
        self.enable
    }
}


/// The volume of channel `id` (0 to 3): the SO1 volume if NR51 routes it to SO1, plus the SO2
/// volume if NR51 routes it to SO2.
pub open spec fn mixer_volume_spec(so_mask: usize, so1: usize, so2: usize, id: nat) -> usize {
    let mask: usize = 1usize << id;
    ((if so_mask & mask != 0 {
        so1
    } else {
        0
    }) + (if so_mask & (mask << 4usize) != 0 {
        so2
    } else {
        0
    })) as usize
}

/// The master volume and channel routing registers, and the stream they control.
pub struct Mixer {
    pub ctrl: u8,
    pub so1_volume: usize,
    pub so2_volume: usize,
    pub so_mask: usize,
    pub enable: bool,
    pub stream: MixerStream,
}

pub open spec fn mixer_wf(m: Mixer) -> bool {
    &&& m.so1_volume <= 7
    &&& m.so2_volume <= 7
    &&& m.so_mask < 256
    &&& mixer_stream_wf(m.stream@)
}

/// The stream after the registers are handed to it: on or off with the master switch, and, when
/// on, each channel's volume from the routing.
pub open spec fn mixer_updated_stream(m: Mixer) -> MixerStreamView {
    MixerStreamView {
        enable: m.enable,
        volumes: if m.enable {
            (
                mixer_volume_spec(m.so_mask, m.so1_volume, m.so2_volume, 0),
                mixer_volume_spec(m.so_mask, m.so1_volume, m.so2_volume, 1),
                mixer_volume_spec(m.so_mask, m.so1_volume, m.so2_volume, 2),
                mixer_volume_spec(m.so_mask, m.so1_volume, m.so2_volume, 3),
            )
        } else {
            m.stream@.volumes
        },
        ..m.stream@
    }
}

/// Whether a channel's stream still plays.
pub open spec fn tone_unit_on(t: Option<ToneStreamView>) -> bool {
    t matches Some(t) && !t.counter.expired
}

pub open spec fn wave_unit_on(w: Option<WaveStreamView>) -> bool {
    w matches Some(w) && !w.counter.expired
}

pub open spec fn noise_unit_on(n: Option<NoiseStreamView>) -> bool {
    n matches Some(n) && !n.counter.expired
}

/// The NR52 value: the master switch in bit 7, bits 4-6 high, and one bit per playing channel.
pub open spec fn mixer_status_spec(m: Mixer) -> u8 {
    let v: u8 = 0x70u8 | (if m.enable {
        0x80u8
    } else {
        0u8
    });
    let v: u8 = v | (if tone_unit_on(m.stream@.tones.0) {
        0x01u8
    } else {
        0u8
    });
    let v: u8 = v | (if tone_unit_on(m.stream@.tones.1) {
        0x02u8
    } else {
        0u8
    });
    let v: u8 = v | (if wave_unit_on(m.stream@.wave) {
        0x04u8
    } else {
        0u8
    });
    v | (if noise_unit_on(m.stream@.noise) {
        0x08u8
    } else {
        0u8
    })
}

impl Mixer {
    pub fn new() -> (r: Self)
        ensures
            mixer_wf(r),
            r.ctrl == 0 && r.so1_volume == 0 && r.so2_volume == 0 && r.so_mask == 0 && !r.enable,
            r.stream@ == (MixerStreamView {
                tones: (None, None),
                wave: None,
                noise: None,
                volumes: (0, 0, 0, 0),
                enable: false,
            }),
    {
        Self {
            ctrl: 0,
            so1_volume: 0,
            so2_volume: 0,
            so_mask: 0,
            enable: false,
            stream: MixerStream::new(),
        }
    }

    /// Read NR50 register (0xff24)
    pub fn read_ctrl(&self) -> (r: u8)
        ensures
            r == self.ctrl,
    {
        self.ctrl
    }

    /// Write NR50 register (0xff24): bits 4-6 the SO1 volume, bits 0-2 the SO2 volume.
    pub fn write_ctrl(&mut self, value: u8)
        requires
            mixer_wf(*old(self)),
        ensures
            mixer_wf(*final(self)),
            final(self).ctrl == value,
            final(self).so1_volume == ((value as usize) & 0x70) >> 4usize,
            final(self).so2_volume == (value as usize) & 0x07,
            final(self).so_mask == old(self).so_mask,
            final(self).enable == old(self).enable,
            final(self).stream@ == mixer_updated_stream(
                Mixer {
                    ctrl: value,
                    so1_volume: ((value as usize) & 0x70) >> 4usize,
                    so2_volume: (value as usize) & 0x07,
                    ..*old(self)
                },
            ),
    {
        self.ctrl = value;
        let v = value as usize;
        proof {
            crate::bits::lemma_wide_byte_fields(v);
        }
        self.so1_volume = (v & 0x70) >> 4usize;
        self.so2_volume = v & 0x07;
        self.update_stream();
    }

    /// Read NR51 register (0xff25)
    pub fn read_so_mask(&self) -> (r: u8)
        requires
            mixer_wf(*self),
        ensures
            r == self.so_mask,
    {
        self.so_mask as u8
    }

    /// Write NR51 register (0xff25)
    pub fn write_so_mask(&mut self, value: u8)
        requires
            mixer_wf(*old(self)),
        ensures
            mixer_wf(*final(self)),
            final(self).so_mask == value as usize,
            final(self).ctrl == old(self).ctrl,
            final(self).so1_volume == old(self).so1_volume,
            final(self).so2_volume == old(self).so2_volume,
            final(self).enable == old(self).enable,
            final(self).stream@ == mixer_updated_stream(
                Mixer { so_mask: value as usize, ..*old(self) },
            ),
    {
        self.so_mask = value as usize;
        self.update_stream();
    }

    /// Read NR52 register (0xff26)
    pub fn read_enable(&self) -> (r: u8)
        ensures
            r == mixer_status_spec(*self),
    {
        let mut v: u8 = 0x70;
        v = v | if self.enable {
            0x80u8
        } else {
            0x00u8
        };
        v = v | if unit_on_tone(&self.stream.tone1) {
            0x01u8
        } else {
            0x00u8
        };
        v = v | if unit_on_tone(&self.stream.tone2) {
            0x02u8
        } else {
            0x00u8
        };
        v = v | if unit_on_wave(&self.stream.wave) {
            0x04u8
        } else {
            0x00u8
        };
        v = v | if unit_on_noise(&self.stream.noise) {
            0x08u8
        } else {
            0x00u8
        };
        v
    }

    /// Write NR52 register (0xff26): bit 7 switches the sound on or off; off clears the
    /// master volume and the routing. Returns the new switch.
    pub fn write_enable(&mut self, value: u8) -> (r: bool)
        requires
            mixer_wf(*old(self)),
        ensures
            mixer_wf(*final(self)),
            r == (value & 0x80 != 0),
            final(self).enable == r,
            r ==> final(self).ctrl == old(self).ctrl && final(self).so1_volume
                == old(self).so1_volume && final(self).so2_volume == old(self).so2_volume
                && final(self).so_mask == old(self).so_mask,
            !r ==> final(self).ctrl == 0 && final(self).so1_volume == 0 && final(self).so2_volume
                == 0 && final(self).so_mask == 0,
            final(self).stream@ == mixer_updated_stream(
                Mixer { stream: old(self).stream, ..*final(self) },
            ),
    {
        self.enable = value & 0x80 != 0;
        if !self.enable {
            self.ctrl = 0;
            self.so1_volume = 0;
            self.so2_volume = 0;
            self.so_mask = 0;
        }
        self.update_stream();
        self.enable
    }

    /// Starts square channel `tone` (0 or 1) afresh from its registers.
    pub fn restart_tone(&mut self, tone: usize, tone_value: Tone)
        requires
            mixer_wf(*old(self)),
            tone < 2,
            tone_regs_wf(tone_value),
        ensures
            mixer_wf(*final(self)),
            *final(self) == (Mixer { stream: final(self).stream, ..*old(self) }),
            final(self).stream@ == (if tone == 0 {
                MixerStreamView {
                    tones: (Some(tone_stream_initial(tone_value, true)), old(self).stream@.tones.1),
                    ..old(self).stream@
                }
            } else {
                MixerStreamView {
                    tones: (old(self).stream@.tones.0, Some(tone_stream_initial(tone_value, false))),
                    ..old(self).stream@
                }
            }),
    {
        let sweep = tone == 0;
        let s = ToneStream::new(tone_value, sweep);
        if tone == 0 {
            self.stream.tone1 = Some(s);
        } else {
            self.stream.tone2 = Some(s);
        }
    }

    /// Starts the wave channel afresh from its registers.
    pub fn restart_wave(&mut self, w: Wave)
        requires
            mixer_wf(*old(self)),
            wave_regs_wf(w),
        ensures
            mixer_wf(*final(self)),
            *final(self) == (Mixer { stream: final(self).stream, ..*old(self) }),
            final(self).stream@ == (MixerStreamView {
                wave: Some(wave_stream_initial(w)),
                ..old(self).stream@
            }),
    {
        self.stream.wave = Some(WaveStream::new(w));
    }

    /// Starts the noise channel afresh from its registers.
    pub fn restart_noise(&mut self, n: Noise)
        requires
            mixer_wf(*old(self)),
            noise_regs_wf(n),
        ensures
            mixer_wf(*final(self)),
            *final(self) == (Mixer { stream: final(self).stream, ..*old(self) }),
            final(self).stream@ == (MixerStreamView {
                noise: Some(noise_stream_initial(n)),
                ..old(self).stream@
            }),
    {
        self.stream.noise = Some(NoiseStream::new(n));
    }

    // Update streams based on register settings
    fn update_stream(&mut self)
        requires
            old(self).so1_volume <= 7,
            old(self).so2_volume <= 7,
            old(self).so_mask < 256,
            mixer_stream_wf(old(self).stream@),
        ensures
            mixer_wf(*final(self)),
            *final(self) == (Mixer { stream: final(self).stream, ..*old(self) }),
            final(self).stream@ == mixer_updated_stream(*old(self)),
    {
        self.stream.enable = self.enable;
        if self.enable {
            let v0 = self.get_volume(0);
            let v1 = self.get_volume(1);
            let v2 = self.get_volume(2);
            let v3 = self.get_volume(3);
            self.stream.volumes = (v0, v1, v2, v3);
        }
    }

    /// The volume of channel `id` from the routing and the master volumes.
    pub fn get_volume(&self, id: u8) -> (r: usize)
        requires
            id < 4,
            self.so1_volume <= 7,
            self.so2_volume <= 7,
        ensures
            r == mixer_volume_spec(self.so_mask, self.so1_volume, self.so2_volume, id as nat),
            r <= 14,
    {
        let mask: usize = 1usize << (id as usize);
        let v1 = if self.so_mask & mask != 0 {
            self.so1_volume
        } else {
            0
        };
        let v2 = if self.so_mask & (mask << 4usize) != 0 {
            self.so2_volume
        } else {
            0
        };
        v1 + v2
    }

    /// Silences every channel.
    pub fn clear(&mut self)
        requires
            mixer_wf(*old(self)),
        ensures
            mixer_wf(*final(self)),
            *final(self) == (Mixer { stream: final(self).stream, ..*old(self) }),
            final(self).stream@ == (MixerStreamView {
                tones: (None, None),
                wave: None,
                noise: None,
                ..old(self).stream@
            }),
    {
        self.stream.tone1 = None;
        self.stream.tone2 = None;
        self.stream.wave = None;
        self.stream.noise = None;
    }
}

fn unit_on_tone(t: &Option<ToneStream>) -> (r: bool)
    ensures
        r == tone_unit_on(
            match t {
                Some(t) => Some(t@),
                None => None,
            },
        ),
{
    match t {
        Some(s) => s.on(),
        None => false,
    }
}

fn unit_on_wave(w: &Option<WaveStream>) -> (r: bool)
    ensures
        r == wave_unit_on(
            match w {
                Some(w) => Some(w@),
                None => None,
            },
        ),
{
    match w {
        Some(s) => s.on(),
        None => false,
    }
}

fn unit_on_noise(n: &Option<NoiseStream>) -> (r: bool)
    ensures
        r == noise_unit_on(
            match n {
                Some(n) => Some(n@),
                None => None,
            },
        ),
{
    match n {
        Some(s) => s.on(),
        None => false,
    }
}


// ---------------------------------------------------------------------------------------------
// Sound registers
// ---------------------------------------------------------------------------------------------

/// The sound registers of all four channels, the mixer, and the master switch.
pub struct Sound {
    pub tone1: Tone,
    pub tone2: Tone,
    pub wave: Wave,
    pub noise: Noise,
    pub mixer: Mixer,
    pub enable: bool,
}

pub open spec fn sound_wf(s: Sound) -> bool {
    &&& tone_regs_wf(s.tone1)
    &&& tone_regs_wf(s.tone2)
    &&& wave_regs_wf(s.wave)
    &&& noise_regs_wf(s.noise)
    &&& mixer_wf(s.mixer)
}

/// The registers of square channel `tone` (0 or 1).
pub open spec fn sound_tone(s: Sound, tone: usize) -> Tone {
    if tone == 0 {
        s.tone1
    } else {
        s.tone2
    }
}

/// The state with square channel `tone`'s registers replaced.
pub open spec fn sound_with_tone(s: Sound, tone: usize, t: Tone) -> Sound {
    if tone == 0 {
        Sound { tone1: t, ..s }
    } else {
        Sound { tone2: t, ..s }
    }
}

/// NR50 written with `value`: the master volumes change and reach the stream, nothing else does.
pub open spec fn sound_ctrl_written(s0: Sound, s1: Sound, value: u8) -> bool {
    &&& s1 == Sound { mixer: s1.mixer, ..s0 }
    &&& s1.mixer.ctrl == value
    &&& s1.mixer.so1_volume == ((value as usize) & 0x70) >> 4usize
    &&& s1.mixer.so2_volume == (value as usize) & 0x07
    &&& s1.mixer.so_mask == s0.mixer.so_mask
    &&& s1.mixer.enable == s0.mixer.enable
    &&& s1.mixer.stream@ == mixer_updated_stream(s1.mixer)
}

impl Sound {
    pub fn new() -> (r: Self)
        ensures
            sound_wf(r),
            r.tone1 == tone_initial() && r.tone2 == tone_initial(),
            r.noise == noise_initial(),
            !r.wave.enable && r.wave.freq == 0 && r.wave.wavebuf@ == Seq::new(16, |i: int| 0u8),
            !r.enable && !r.mixer.enable,
            r.mixer.stream@.tones == (Option::<ToneStreamView>::None, Option::<ToneStreamView>::None),
            r.mixer.stream@.wave is None && r.mixer.stream@.noise is None,
    {
        Self {
            tone1: Tone::new(),
            tone2: Tone::new(),
            wave: Wave::new(),
            noise: Noise::new(),
            mixer: Mixer::new(),
            enable: false,
        }
    }

    /// Read NR10 register (0xff10)
    pub fn read_tone_sweep(&self) -> (r: u8)
        ensures
            r == self.tone1.sweep | 0x80,
    {
        self.tone1.read_sweep()
    }

    /// Write NR10 register (0xff10); ignored while the sound is off.
    pub fn write_tone_sweep(&mut self, value: u8)
        requires
            sound_wf(*old(self)),
        ensures
            sound_wf(*final(self)),
            *final(self) == (if old(self).enable {
                Sound { tone1: tone_write_sweep(old(self).tone1, value), ..*old(self) }
            } else {
                *old(self)
            }),
    {
        if !self.enable {
            return;
        }
        self.tone1.write_sweep(value)
    }

    /// Read NR11/NR21 register (0xff11/0xff16)
    pub fn read_tone_wave(&self, tone: usize) -> (r: u8)
        requires
            tone < 2,
        ensures
            r == sound_tone(*self, tone).wave | 0x3f,
    {
        if tone == 0 {
            self.tone1.read_wave()
        } else {
            self.tone2.read_wave()
        }
    }

    /// Read NR12/NR22 register (0xff12/0xff17)
    pub fn read_tone_envelop(&self, tone: usize) -> (r: u8)
        requires
            tone < 2,
        ensures
            r == sound_tone(*self, tone).envelop,
    {
        if tone == 0 {
            self.tone1.read_envelop()
        } else {
            self.tone2.read_envelop()
        }
    }

    /// Read NR13/NR23 register (0xff13/0xff18)
    pub fn read_tone_freq_low(&self, tone: usize) -> (r: u8)
        requires
            tone < 2,
        ensures
            r == 0xff,
    {
        if tone == 0 {
            self.tone1.read_freq_low()
        } else {
            self.tone2.read_freq_low()
        }
    }

    /// Read NR14/NR24 register (0xff14/0xff19)
    pub fn read_tone_freq_high(&self, tone: usize) -> (r: u8)
        requires
            tone < 2,
        ensures
            r == sound_tone(*self, tone).freq_high | 0xbf,
    {
        if tone == 0 {
            self.tone1.read_freq_high()
        } else {
            self.tone2.read_freq_high()
        }
    }

    /// Write NR11/NR21 register (0xff11/0xff16); ignored while the sound is off.
    pub fn write_tone_wave(&mut self, tone: usize, value: u8)
        requires
            tone < 2,
            sound_wf(*old(self)),
        ensures
            sound_wf(*final(self)),
            *final(self) == (if old(self).enable {
                sound_with_tone(*old(self), tone, tone_write_wave(sound_tone(*old(self), tone), value))
            } else {
                *old(self)
            }),
    {
        if !self.enable {
            return;
        }
        if tone == 0 {
            self.tone1.write_wave(value)
        } else {
            self.tone2.write_wave(value)
        }
    }

    /// Write NR12/NR22 register (0xff12/0xff17); ignored while the sound is off.
    pub fn write_tone_envelop(&mut self, tone: usize, value: u8)
        requires
            tone < 2,
            sound_wf(*old(self)),
        ensures
            sound_wf(*final(self)),
            *final(self) == (if old(self).enable {
                sound_with_tone(*old(self), tone, tone_write_envelop(sound_tone(*old(self), tone), value))
            } else {
                *old(self)
            }),
    {
        if !self.enable {
            return;
        }
        if tone == 0 {
            self.tone1.write_envelop(value)
        } else {
            self.tone2.write_envelop(value)
        }
    }

    /// Write NR13/NR23 register (0xff13/0xff18); ignored while the sound is off.
    pub fn write_tone_freq_low(&mut self, tone: usize, value: u8)
        requires
            tone < 2,
            sound_wf(*old(self)),
        ensures
            sound_wf(*final(self)),
            *final(self) == (if old(self).enable {
                sound_with_tone(*old(self), tone, tone_write_freq_low(sound_tone(*old(self), tone), value))
            } else {
                *old(self)
            }),
    {
        if !self.enable {
            return;
        }
        if tone == 0 {
            self.tone1.write_freq_low(value)
        } else {
            self.tone2.write_freq_low(value)
        }
    }

    /// Write NR14/NR24 register (0xff14/0xff19); ignored while the sound is off. With bit 7 set
    /// the channel restarts from its registers.
    pub fn write_tone_freq_high(&mut self, tone: usize, value: u8)
        requires
            tone < 2,
            sound_wf(*old(self)),
        ensures
            sound_wf(*final(self)),
            !old(self).enable ==> *final(self) == *old(self),
            old(self).enable ==> {
                let t = tone_write_freq_high(sound_tone(*old(self), tone), value);
                &&& *final(self) == Sound {
                    mixer: final(self).mixer,
                    ..sound_with_tone(*old(self), tone, t)
                }
                &&& final(self).mixer == Mixer { stream: final(self).mixer.stream, ..old(self).mixer }
                &&& final(self).mixer.stream@ == if value & 0x80 == 0 {
                    old(self).mixer.stream@
                } else if tone == 0 {
                    MixerStreamView {
                        tones: (Some(tone_stream_initial(t, true)), old(self).mixer.stream@.tones.1),
                        ..old(self).mixer.stream@
                    }
                } else {
                    MixerStreamView {
                        tones: (old(self).mixer.stream@.tones.0, Some(tone_stream_initial(t, false))),
                        ..old(self).mixer.stream@
                    }
                }
            },
    {
        if !self.enable {
            return;
        }
        if tone == 0 {
            if self.tone1.write_freq_high(value) {
                self.mixer.restart_tone(tone, self.tone1);
            }
        } else {
            if self.tone2.write_freq_high(value) {
                self.mixer.restart_tone(tone, self.tone2);
            }
        }
    }

    /// Read NR30 register (0xff1a)
    pub fn read_wave_enable(&self) -> (r: u8)
        ensures
            r == (if self.wave.enable {
                0xffu8
            } else {
                0x7fu8
            }),
    {
        self.wave.read_enable()
    }

    /// Write NR30 register (0xff1a); ignored while the sound is off. The wave channel restarts
    /// from its registers.
    pub fn write_wave_enable(&mut self, value: u8)
        requires
            sound_wf(*old(self)),
        ensures
            sound_wf(*final(self)),
            !old(self).enable ==> *final(self) == *old(self),
            old(self).enable ==> {
                let w = wave_write_enable(old(self).wave, value);
                &&& *final(self) == Sound { wave: w, mixer: final(self).mixer, ..*old(self) }
                &&& final(self).mixer == Mixer { stream: final(self).mixer.stream, ..old(self).mixer }
                &&& final(self).mixer.stream@ == MixerStreamView {
                    wave: Some(wave_stream_initial(w)),
                    ..old(self).mixer.stream@
                }
            },
    {
        if !self.enable {
            return;
        }
        self.wave.write_enable(value);
        self.mixer.restart_wave(self.wave);
    }

    /// Read NR31 register (0xff1b)
    pub fn read_wave_len(&self) -> (r: u8)
        ensures
            r == 0xff,
    {
        self.wave.read_len()
    }

    /// Read NR32 register (0xff1c)
    pub fn read_wave_amp(&self) -> (r: u8)
        ensures
            r == self.wave.amp | 0x9f,
    {
        self.wave.read_amp()
    }

    /// Read NR33 register (0xff1d)
    pub fn read_wave_freq_low(&self) -> (r: u8)
        ensures
            r == 0xff,
    {
        self.wave.read_freq_low()
    }

    /// Read NR34 register (0xff1e)
    pub fn read_wave_freq_high(&self) -> (r: u8)
        ensures
            r == self.wave.freq_high | 0xbf,
    {
        self.wave.read_freq_high()
    }

    /// Write NR31 register (0xff1b); ignored while the sound is off.
    pub fn write_wave_len(&mut self, value: u8)
        requires
            sound_wf(*old(self)),
        ensures
            sound_wf(*final(self)),
            *final(self) == (if old(self).enable {
                Sound { wave: wave_write_len(old(self).wave, value), ..*old(self) }
            } else {
                *old(self)
            }),
    {
        if !self.enable {
            return;
        }
        self.wave.write_len(value)
    }

    /// Write NR32 register (0xff1c); ignored while the sound is off.
    pub fn write_wave_amp(&mut self, value: u8)
        requires
            sound_wf(*old(self)),
        ensures
            sound_wf(*final(self)),
            *final(self) == (if old(self).enable {
                Sound { wave: wave_write_amp(old(self).wave, value), ..*old(self) }
            } else {
                *old(self)
            }),
    {
        if !self.enable {
            return;
        }
        self.wave.write_amp(value)
    }

    /// Write NR33 register (0xff1d); ignored while the sound is off.
    pub fn write_wave_freq_low(&mut self, value: u8)
        requires
            sound_wf(*old(self)),
        ensures
            sound_wf(*final(self)),
            *final(self) == (if old(self).enable {
                Sound { wave: wave_write_freq_low(old(self).wave, value), ..*old(self) }
            } else {
                *old(self)
            }),
    {
        if !self.enable {
            return;
        }
        self.wave.write_freq_low(value)
    }

    /// Write NR34 register (0xff1e); ignored while the sound is off. With bit 7 set the wave
    /// channel restarts from its registers.
    pub fn write_wave_freq_high(&mut self, value: u8)
        requires
            sound_wf(*old(self)),
        ensures
            sound_wf(*final(self)),
            !old(self).enable ==> *final(self) == *old(self),
            old(self).enable ==> {
                let w = wave_write_freq_high(old(self).wave, value);
                &&& *final(self) == Sound { wave: w, mixer: final(self).mixer, ..*old(self) }
                &&& final(self).mixer == Mixer { stream: final(self).mixer.stream, ..old(self).mixer }
                &&& final(self).mixer.stream@ == if value & 0x80 == 0 {
                    old(self).mixer.stream@
                } else {
                    MixerStreamView { wave: Some(wave_stream_initial(w)), ..old(self).mixer.stream@ }
                }
            },
    {
        if !self.enable {
            return;
        }
        if self.wave.write_freq_high(value) {
            self.mixer.restart_wave(self.wave);
        }
    }

    /// Read wave pattern buffer
    pub fn read_wave_buf(&self, offset: u16) -> (r: u8)
        requires
            0xff30 <= offset <= 0xff3f,
        ensures
            r == self.wave.wavebuf@[offset - 0xff30],
    {
        self.wave.read_wave_buf(offset)
    }

    /// Write wave pattern buffer; ignored while the sound is off.
    pub fn write_wave_buf(&mut self, offset: u16, value: u8)
        requires
            0xff30 <= offset <= 0xff3f,
            sound_wf(*old(self)),
        ensures
            sound_wf(*final(self)),
            !old(self).enable ==> *final(self) == *old(self),
            old(self).enable ==> *final(self) == (Sound { wave: final(self).wave, ..*old(self) })
                && final(self).wave == (Wave { wavebuf: final(self).wave.wavebuf, ..old(self).wave })
                && final(self).wave.wavebuf@ == old(self).wave.wavebuf@.update(offset - 0xff30, value),
    {
        if !self.enable {
            return;
        }
        self.wave.write_wave_buf(offset, value)
    }

    /// Read NR41 register (0xff20)
    pub fn read_noise_len(&self) -> (r: u8)
        ensures
            r == 0xff,
    {
        self.noise.read_len()
    }

    /// Read NR42 register (0xff21)
    pub fn read_noise_envelop(&self) -> (r: u8)
        ensures
            r == self.noise.envelop,
    {
        self.noise.read_envelop()
    }

    /// Read NR43 register (0xff22)
    pub fn read_noise_poly_counter(&self) -> (r: u8)
        ensures
            r == self.noise.poly_counter,
    {
        self.noise.read_poly_counter()
    }

    /// Read NR44 register (0xff23)
    pub fn read_noise_select(&self) -> (r: u8)
        ensures
            r == self.noise.select | 0xbf,
    {
        self.noise.read_select()
    }

    /// Write NR41 register (0xff20); ignored while the sound is off.
    pub fn write_noise_len(&mut self, value: u8)
        requires
            sound_wf(*old(self)),
        ensures
            sound_wf(*final(self)),
            *final(self) == (if old(self).enable {
                Sound { noise: noise_write_len(old(self).noise, value), ..*old(self) }
            } else {
                *old(self)
            }),
    {
        if !self.enable {
            return;
        }
        self.noise.write_len(value)
    }

    /// Write NR42 register (0xff21); ignored while the sound is off.
    pub fn write_noise_envelop(&mut self, value: u8)
        requires
            sound_wf(*old(self)),
        ensures
            sound_wf(*final(self)),
            *final(self) == (if old(self).enable {
                Sound { noise: noise_write_envelop(old(self).noise, value), ..*old(self) }
            } else {
                *old(self)
            }),
    {
        if !self.enable {
            return;
        }
        self.noise.write_envelop(value)
    }

    /// Write NR43 register (0xff22); ignored while the sound is off.
    pub fn write_noise_poly_counter(&mut self, value: u8)
        requires
            sound_wf(*old(self)),
        ensures
            sound_wf(*final(self)),
            *final(self) == (if old(self).enable {
                Sound { noise: noise_write_poly_counter(old(self).noise, value), ..*old(self) }
            } else {
                *old(self)
            }),
    {
        if !self.enable {
            return;
        }
        self.noise.write_poly_counter(value)
    }

    /// Write NR44 register (0xff23); ignored while the sound is off. With bit 7 set the noise
    /// channel restarts from its registers.
    pub fn write_noise_select(&mut self, value: u8)
        requires
            sound_wf(*old(self)),
        ensures
            sound_wf(*final(self)),
            !old(self).enable ==> *final(self) == *old(self),
            old(self).enable ==> {
                let n = noise_write_select(old(self).noise, value);
                &&& *final(self) == Sound { noise: n, mixer: final(self).mixer, ..*old(self) }
                &&& final(self).mixer == Mixer { stream: final(self).mixer.stream, ..old(self).mixer }
                &&& final(self).mixer.stream@ == if value & 0x80 == 0 {
                    old(self).mixer.stream@
                } else {
                    MixerStreamView { noise: Some(noise_stream_initial(n)), ..old(self).mixer.stream@ }
                }
            },
    {
        if !self.enable {
            return;
        }
        if self.noise.write_select(value) {
            self.mixer.restart_noise(self.noise);
        }
    }

    /// Read NR50 register (0xff24)
    pub fn read_ctrl(&self) -> (r: u8)
        ensures
            r == self.mixer.ctrl,
    {
        self.mixer.read_ctrl()
    }

    /// Write NR50 register (0xff24); ignored while the sound is off.
    pub fn write_ctrl(&mut self, value: u8)
        requires
            sound_wf(*old(self)),
        ensures
            sound_wf(*final(self)),
            !old(self).enable ==> *final(self) == *old(self),
            old(self).enable ==> sound_ctrl_written(*old(self), *final(self), value),
    {
        if !self.enable {
            return;
        }
        self.mixer.write_ctrl(value)
    }

    /// Read NR51 register (0xff25)
    pub fn read_so_mask(&self) -> (r: u8)
        requires
            sound_wf(*self),
        ensures
            r == self.mixer.so_mask,
    {
        self.mixer.read_so_mask()
    }

    /// Write NR51 register (0xff25); ignored while the sound is off.
    pub fn write_so_mask(&mut self, value: u8)
        requires
            sound_wf(*old(self)),
        ensures
            sound_wf(*final(self)),
            !old(self).enable ==> *final(self) == *old(self),
            old(self).enable ==> *final(self) == (Sound { mixer: final(self).mixer, ..*old(self) })
                && final(self).mixer == (Mixer {
                so_mask: value as usize,
                stream: final(self).mixer.stream,
                ..old(self).mixer
            }) && final(self).mixer.stream@ == mixer_updated_stream(final(self).mixer),
    {
        if !self.enable {
            return;
        }
        self.mixer.write_so_mask(value)
    }

    /// Read NR52 register (0xff26)
    pub fn read_enable(&self) -> (r: u8)
        ensures
            r == mixer_status_spec(self.mixer),
    {
        self.mixer.read_enable()
    }

    /// Write NR52 register (0xff26). Switching the sound off clears every register but the
    /// wave pattern, and silences every channel.
    pub fn write_enable(&mut self, value: u8)
        requires
            sound_wf(*old(self)),
        ensures
            sound_wf(*final(self)),
            final(self).enable == (value & 0x80 != 0),
            final(self).mixer.enable == final(self).enable,
            final(self).enable ==> final(self).tone1 == old(self).tone1 && final(self).tone2
                == old(self).tone2 && final(self).wave == old(self).wave && final(self).noise
                == old(self).noise && final(self).mixer.stream@ == mixer_updated_stream(
                Mixer { stream: old(self).mixer.stream, ..final(self).mixer },
            ) && final(self).mixer.ctrl == old(self).mixer.ctrl && final(self).mixer.so_mask
                == old(self).mixer.so_mask,
            !final(self).enable ==> final(self).tone1 == tone_initial() && final(self).tone2
                == tone_initial() && final(self).noise == noise_initial() && final(self).wave
                == (Wave {
                enable: false,
                sound_len: 0,
                amp: 0,
                amp_shift: 0,
                counter: false,
                freq: 0,
                freq_high: 0,
                wavebuf: old(self).wave.wavebuf,
            }) && final(self).mixer.ctrl == 0 && final(self).mixer.so1_volume == 0
                && final(self).mixer.so2_volume == 0 && final(self).mixer.so_mask == 0
                && final(self).mixer.stream@ == (MixerStreamView {
                tones: (None, None),
                wave: None,
                noise: None,
                enable: false,
                volumes: old(self).mixer.stream@.volumes,
            }),
    {
        self.enable = self.mixer.write_enable(value);
        if !self.enable {
            // If disabled, clear all registers
            self.tone1.clear();
            self.tone2.clear();
            self.wave.clear();
            self.noise.clear();
            self.mixer.clear();
        }
    }
}

} // verus!
