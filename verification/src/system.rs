//! Emulator configuration and the emulation loop.
use crate::cpu::{cpu_can_execute, cpu_executed, Cpu, CpuView, Sys};
use crate::fc::{can_fill, fill_spec, FreqControl};
use vstd::prelude::*;

verus! {

/// Configuration of the emulator.
pub struct Config {
    /// CPU frequency.
    pub freq: u64,
    /// Cycle sampling count in the CPU frequency controller.
    pub sample: u64,
    /// Delay unit in CPU frequency controller.
    pub delay_unit: u64,
    /// Don't adjust CPU frequency.
    pub native_speed: bool,
    /// Emulate Gameboy Color
    pub color: bool,
}

impl Config {
    /// Create the default configuration: 4.1943 MHz, sampling every millisecond.
    pub fn new() -> (r: Self)
        ensures
            r == (Config {
                freq: 4194300,
                sample: 4194,
                delay_unit: 10,
                native_speed: false,
                color: false,
            }),
    {
        let freq: u64 = 4194300;
        Self { freq, sample: freq / 1000, delay_unit: 10, native_speed: false, color: false }
    }

    /// Set the CPU frequency.
    pub fn freq(self, freq: u64) -> (r: Self)
        ensures
            r == (Config { freq, ..self }),
    {
        let mut s = self;
        s.freq = freq;
        s
    }

    /// Set the sampling count of the CPU frequency controller.
    pub fn sample(self, sample: u64) -> (r: Self)
        ensures
            r == (Config { sample, ..self }),
    {
        let mut s = self;
        s.sample = sample;
        s
    }

    /// Set the delay unit.
    pub fn delay_unit(self, delay: u64) -> (r: Self)
        ensures
            r == (Config { delay_unit: delay, ..self }),
    {
        let mut s = self;
        s.delay_unit = delay;
        s
    }

    /// Set the flag to run at native speed.
    pub fn native_speed(self, native: bool) -> (r: Self)
        ensures
            r == (Config { native_speed: native, ..self }),
    {
        let mut s = self;
        s.native_speed = native;
        s
    }

    /// Set the flag to enable Gameboy Color.
    pub fn color(self, color: bool) -> (r: Self)
        ensures
            r == (Config { color, ..self }),
    {
        let mut s = self;
        s.color = color;
        s
    }
}

impl Default for Config {
    fn default() -> (r: Self)
        ensures
            r == (Config {
                freq: 4194300,
                sample: 4194,
                delay_unit: 10,
                native_speed: false,
                color: false,
            }),
    {
        Self::new()
    }
}

/// The emulated machine: the CPU with its system, the configuration, and the speed governor
/// with the cycles it has yet to account for.
pub struct System<T> {
    pub cfg: Config,
    pub fc: FreqControl,
    pub cpu: Cpu<T>,
    /// Cycles run but not yet taken from the speed governor's grant.
    pub pending: usize,
}

impl<T: Sys> System<T> {
    /// A machine running `cpu` with the configuration `cfg`, its governor counting from the
    /// clock reading `now`.
    pub fn new(cfg: Config, cpu: Cpu<T>, now: u64) -> (r: Self)
        ensures
            r.cfg == cfg,
            r.cpu@ == cpu@,
            r.pending == 0,
            r.fc == (FreqControl {
                last: now,
                refill_interval: cfg.delay_unit,
                target_freq: cfg.freq,
                remaining_cycles: 0,
            }),
    {
        let mut fc = FreqControl::new(&cfg);
        fc.reset(now);
        Self { cfg, fc, cpu, pending: 0 }
    }

    /// Runs a single step of emulation when the host schedules one (`sched`): one instruction
    /// with its interrupt handling. Returns whether it ran; `false` ends the emulation. Unless
    /// the machine runs at native speed, the cycles spent are added to those the governor
    /// must grant before the next step (see `throttle`).
    pub fn poll(&mut self, sched: bool) -> (r: bool)
        requires
            sched ==> cpu_can_execute::<T>(old(self).cpu@),
            sched ==> old(self).pending + cpu_executed::<T>(old(self).cpu@).cycles <= usize::MAX,
        ensures
            r == sched,
            final(self).cfg == old(self).cfg,
            final(self).fc == old(self).fc,
            !sched ==> final(self).cpu@ == old(self).cpu@ && final(self).pending == old(self).pending,
            sched ==> final(self).cpu@ == (CpuView {
                cycles: 0,
                ..cpu_executed::<T>(old(self).cpu@)
            }),
            sched ==> final(self).pending == (if old(self).cfg.native_speed {
                old(self).pending
            } else {
                (old(self).pending + cpu_executed::<T>(old(self).cpu@).cycles) as usize
            }),
    {
        if !sched {
            return false;
        }
        let time = self.cpu.execute();
        if !self.cfg.native_speed {
            self.pending = self.pending + time;
        }
        true
    }

    /// One round of speed governing at the clock reading `now`: the cycles due since the last
    /// grant are granted, and the pending cycles are taken from the grant if it covers them.
    /// Returns whether they were; the host waits and calls again otherwise.
    pub fn throttle(&mut self, now: u64) -> (r: bool)
        requires
            can_fill(old(self).fc, now),
        ensures
            final(self).cfg == old(self).cfg,
            final(self).cpu@ == old(self).cpu@,
            r == (fill_spec(old(self).fc, now).remaining_cycles >= old(self).pending),
            r ==> final(self).pending == 0 && final(self).fc == (FreqControl {
                remaining_cycles: (fill_spec(old(self).fc, now).remaining_cycles - old(
                    self,
                ).pending) as u64,
                ..fill_spec(old(self).fc, now)
            }),
            !r ==> final(self).pending == old(self).pending && final(self).fc == fill_spec(
                old(self).fc,
                now,
            ),
    {
        self.fc.try_fill(now);
        if self.fc.consume(self.pending) {
            self.pending = 0;
            true
        } else {
            false
        }
    }
}

} // verus!
