use vstd::prelude::*;

use super::clock_divider::{
    divider_after, divider_can_step, divider_wf, divider_times, ClockDivider, ClockDividerView,
};
use super::timer::{tick_spec, Timer, TimerView};

verus! {

/// The abstract state of a [`PrescaledTimer`]: its timer and the divider that clocks it.
pub struct PrescaledTimerView {
    pub timer: TimerView,
    pub divider: ClockDividerView,
}

/// Whether `step(cycles)` may be called: the divider must produce at most one tick.
pub open spec fn prescaled_can_step(v: PrescaledTimerView, cycles: nat) -> bool {
    &&& divider_wf(v.divider)
    &&& divider_can_step(v.divider, cycles)
    &&& divider_times(v.divider, cycles) <= 1
}

/// The state after `step(cycles)` and what it returns.
pub open spec fn prescaled_step_spec(v: PrescaledTimerView, cycles: nat) -> (PrescaledTimerView, bool) {
    let d = divider_after(v.divider, cycles);
    if divider_times(v.divider, cycles) == 1 {
        let (t, r) = tick_spec(v.timer);
        (PrescaledTimerView { timer: t, divider: d }, r)
    } else {
        (PrescaledTimerView { timer: v.timer, divider: d }, false)
    }
}

/// A timer ticked at a frequency derived from the CPU clock.
#[derive(Debug, Clone)]
pub struct PrescaledTimer {
    timer: Timer,
    divider: ClockDivider,
}

impl View for PrescaledTimer {
    type V = PrescaledTimerView;

    closed spec fn view(&self) -> PrescaledTimerView {
        PrescaledTimerView { timer: self.timer@, divider: self.divider@ }
    }
}

impl PrescaledTimer {
    pub fn builder() -> (r: PrescaledTimerBuilder)
        ensures
            r@ == Self::initial_view(),
    {
        PrescaledTimerBuilder { timer: Self::new() }
    }

    /// An enabled timer with no interval, ticked once per CPU cycle.
    pub open spec fn initial_view() -> PrescaledTimerView {
        PrescaledTimerView {
            timer: TimerView { enable: true, counter: 0, interval: 0 },
            divider: ClockDividerView {
                counter: 0,
                source_clock_rate: crate::cpu::CPU_FREQ_HZ as nat,
                target_clock_rate: 1,
            },
        }
    }

    pub fn new() -> (r: Self)
        ensures
            r@ == Self::initial_view(),
    {
        Self { timer: Timer::enabled(), divider: ClockDivider::new(1) }
    }

    /// Timer starts counting.
    pub fn enable(&mut self)
        ensures
            final(self)@ == (PrescaledTimerView {
                timer: TimerView { enable: true, ..old(self)@.timer },
                ..old(self)@
            }),
    {
        self.timer.enable();
    }

    /// Timer stops counting.
    pub fn disable(&mut self)
        ensures
            final(self)@ == (PrescaledTimerView {
                timer: TimerView { enable: false, ..old(self)@.timer },
                ..old(self)@
            }),
    {
        self.timer.disable();
    }

    /// Update the interval (the number of ticks) until the timer expires resetting the current counter.
    pub fn set_interval(&mut self, interval: usize)
        ensures
            final(self)@ == (PrescaledTimerView {
                timer: TimerView { interval: interval as nat, counter: 0, ..old(self)@.timer },
                ..old(self)@
            }),
    {
        self.timer.set_interval(interval);
    }

    /// Update the frequency of ticks.
    pub fn set_frequency(&mut self, frequency: usize)
        ensures
            final(self)@ == (PrescaledTimerView {
                divider: ClockDividerView {
                    target_clock_rate: frequency as nat,
                    ..old(self)@.divider
                },
                ..old(self)@
            }),
    {
        self.divider.set_target_clock_rate(frequency);
    }

    /// Get the current counter.
    pub fn counter(&self) -> (r: usize)
        ensures
            r == self@.timer.counter,
    {
        self.timer.counter()
    }

    /// Update the counter.
    pub fn set_counter(&mut self, counter: usize)
        ensures
            final(self)@ == (PrescaledTimerView {
                timer: TimerView { counter: counter as nat, ..old(self)@.timer },
                ..old(self)@
            }),
    {
        self.timer.set_counter(counter);
    }

    /// Reset the counter and the interval of the timer.
    pub fn reset(&mut self)
        ensures
            final(self)@ == (PrescaledTimerView {
                timer: TimerView { counter: 0, interval: 0, ..old(self)@.timer },
                ..old(self)@
            }),
    {
        self.timer.reset();
    }

    /// Updates the timer state given `cycles` that counts at source clock rate.
    /// Returns `true` every `interval` ticks ticked at `frequency`.
    pub fn step(&mut self, cycles: usize) -> (r: bool)
        requires
            prescaled_can_step(old(self)@, cycles as nat),
        ensures
            (final(self)@, r) == prescaled_step_spec(old(self)@, cycles as nat),
    {
        if !self.divider.step_one(cycles) {
            return false;
        }
        self.timer.tick()
    }
}

/// Builds a [`PrescaledTimer`] step by step.
pub struct PrescaledTimerBuilder {
    timer: PrescaledTimer,
}

impl View for PrescaledTimerBuilder {
    type V = PrescaledTimerView;

    closed spec fn view(&self) -> PrescaledTimerView {
        self.timer@
    }
}

impl PrescaledTimerBuilder {
    pub fn enable(self) -> (r: Self)
        ensures
            r@ == (PrescaledTimerView { timer: TimerView { enable: true, ..self@.timer }, ..self@ }),
    {
        let mut s = self;
        s.timer.enable();
        s
    }

    pub fn disable(self) -> (r: Self)
        ensures
            r@ == (PrescaledTimerView { timer: TimerView { enable: false, ..self@.timer }, ..self@ }),
    {
        let mut s = self;
        s.timer.disable();
        s
    }

    pub fn frequency(self, frequency: usize) -> (r: Self)
        ensures
            r@ == (PrescaledTimerView {
                divider: ClockDividerView { target_clock_rate: frequency as nat, ..self@.divider },
                ..self@
            }),
    {
        let mut s = self;
        s.timer.set_frequency(frequency);
        s
    }

    pub fn interval(self, interval: usize) -> (r: Self)
        ensures
            r@ == (PrescaledTimerView {
                timer: TimerView { interval: interval as nat, counter: 0, ..self@.timer },
                ..self@
            }),
    {
        let mut s = self;
        s.timer.set_interval(interval);
        s
    }

    pub fn build(self) -> (r: PrescaledTimer)
        ensures
            r@ == self@,
    {
        self.timer
    }
}

/// A prescaled timer enabled with interval `n` and frequency `f` that has been fed `total`
/// CPU cycles since it was built and has returned `true` `fired` times: it has counted
/// `total * f / CPU_FREQ_HZ` ticks, keeps the rest of the division in its divider, and has
/// fired once per `n` of those ticks.
pub open spec fn prescaled_on_track(v: PrescaledTimerView, f: nat, n: nat, total: nat, fired: nat) -> bool {
    let cpu = crate::cpu::CPU_FREQ_HZ as nat;
    let k = total * f / cpu;
    &&& v.divider == ClockDividerView {
        counter: (total * f) % cpu,
        source_clock_rate: cpu,
        target_clock_rate: f,
    }
    &&& v.timer == TimerView { enable: true, counter: k % n, interval: n }
    &&& fired == k / n
}

/// `PrescaledTimer::builder().enable().frequency(f).interval(n).build()` starts on track with
/// nothing fed and nothing fired.
pub proof fn lemma_prescaled_start(f: nat, n: nat)
    requires
        n > 0,
    ensures
        prescaled_on_track(
            PrescaledTimerView {
                timer: TimerView { enable: true, counter: 0, interval: n },
                divider: ClockDividerView {
                    counter: 0,
                    source_clock_rate: crate::cpu::CPU_FREQ_HZ as nat,
                    target_clock_rate: f,
                },
            },
            f,
            n,
            0,
            0,
        ),
{
    assert(0 * f == 0) by (nonlinear_arith);
    vstd::arithmetic::div_mod::lemma_fundamental_div_mod_converse(
        0,
        crate::cpu::CPU_FREQ_HZ as int,
        0,
        0,
    );
    vstd::arithmetic::div_mod::lemma_fundamental_div_mod_converse(0, n as int, 0, 0);
}

/// A step of at most one tick (`cycles * f` below the CPU frequency) keeps the timer on track:
/// after any sequence of such steps totalling `T` cycles the timer has returned `true`
/// exactly `(T * f / CPU_FREQ_HZ) / n` times, once every `n` ticks at frequency `f`.
pub proof fn lemma_prescaled_step_on_track(
    v: PrescaledTimerView,
    f: nat,
    n: nat,
    total: nat,
    fired: nat,
    cycles: nat,
)
    requires
        prescaled_on_track(v, f, n, total, fired),
        n > 0,
        cycles * f < crate::cpu::CPU_FREQ_HZ,
    ensures
        prescaled_can_step(v, cycles),
        ({
            let (v2, r) = prescaled_step_spec(v, cycles);
            prescaled_on_track(v2, f, n, total + cycles, fired + if r { 1nat } else { 0nat })
        }),
{
    let cpu = crate::cpu::CPU_FREQ_HZ as int;
    let x = (total * f) as int;
    let q = x / cpu;
    let rem = x % cpu;
    vstd::arithmetic::div_mod::lemma_fundamental_div_mod(x, cpu);
    let cf = (cycles * f) as int;
    assert((total + cycles) * f == x + cf) by (nonlinear_arith)
        requires
            x == total * f,
            cf == cycles * f,
    ;
    let t = rem + cf;
    let times: int = if t >= cpu { 1 } else { 0 };
    vstd::arithmetic::div_mod::lemma_fundamental_div_mod_converse(t, cpu, times, t - times * cpu);
    vstd::arithmetic::div_mod::lemma_fundamental_div_mod_converse(
        x + cf,
        cpu,
        q + times,
        t - times * cpu,
    );
    assert(x + cf == (q + times) * cpu + (t - times * cpu)) by (nonlinear_arith)
        requires
            x == q * cpu + rem,
            t == rem + cf,
    ;
    let k = q;
    let nn = n as int;
    vstd::arithmetic::div_mod::lemma_fundamental_div_mod(k, nn);
    if times == 1 {
        let kr = k % nn;
        if kr + 1 >= nn {
            assert(k + 1 == (k / nn + 1) * nn + 0) by (nonlinear_arith)
                requires
                    k == (k / nn) * nn + kr,
                    kr + 1 == nn,
            ;
            vstd::arithmetic::div_mod::lemma_fundamental_div_mod_converse(k + 1, nn, k / nn + 1, 0);
        } else {
            vstd::arithmetic::div_mod::lemma_fundamental_div_mod_converse(k + 1, nn, k / nn, kr + 1);
        }
    }
}

} // verus!
