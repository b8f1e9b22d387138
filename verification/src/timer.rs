//! The DIV, TIMA, TMA and TAC timer registers.
use vstd::prelude::*;

use crate::clock::clock_divider::{divider_wf, ClockDividerView};
use crate::clock::prescaled_timer::{
    prescaled_can_step, prescaled_step_spec, PrescaledTimer, PrescaledTimerView,
};
use crate::clock::timer::TimerView;
use crate::cpu::CPU_FREQ_HZ;
use crate::ic::{Irq, Ints};

verus! {

/// The abstract state of the timer block.
pub struct TimerBlockView {
    pub div: PrescaledTimerView,
    pub tim: PrescaledTimerView,
    pub load: u8,
    pub ctrl: u8,
}

/// The TIMA frequency selected by the two low bits of TAC.
pub open spec fn tim_frequency(select: u8) -> nat {
    if select == 0 {
        4096
    } else if select == 1 {
        262144
    } else if select == 2 {
        65536
    } else {
        16384
    }
}

/// Whether `step(time)` may be called: each divider produces at most one tick.
pub open spec fn timer_can_step(v: TimerBlockView, time: nat) -> bool {
    prescaled_can_step(v.div, time) && prescaled_can_step(v.tim, time)
}

/// The state after one TIMA step: on overflow TIMA is reloaded from TMA.
pub open spec fn tim_step_spec(tim: PrescaledTimerView, load: u8, time: nat) -> (PrescaledTimerView, bool) {
    let (t, fired) = prescaled_step_spec(tim, time);
    if fired {
        (PrescaledTimerView { timer: TimerView { counter: load as nat, ..t.timer }, ..t }, true)
    } else {
        (t, false)
    }
}

struct Div {
    timer: PrescaledTimer,
}

impl Div {
    fn new() -> (r: Self)
        ensures
            r.timer@ == (PrescaledTimerView {
                timer: TimerView { enable: true, counter: 0, interval: 256 },
                divider: ClockDividerView {
                    counter: 0,
                    source_clock_rate: CPU_FREQ_HZ as nat,
                    target_clock_rate: 16384,
                },
            }),
    {
        Self { timer: PrescaledTimer::builder().enable().frequency(16384).interval(256).build() }
    }

    fn counter(&self) -> (r: u8)
        ensures
            r == self.timer@.timer.counter as u8,
    {
        self.timer.counter() as u8
    }
}

struct Tim {
    timer: PrescaledTimer,
    load: u8,
}

impl Tim {
    fn new() -> (r: Self)
        ensures
            r.load == 0,
            r.timer@ == (PrescaledTimerView {
                timer: TimerView { enable: false, counter: 0, interval: 256 },
                divider: ClockDividerView {
                    counter: 0,
                    source_clock_rate: CPU_FREQ_HZ as nat,
                    target_clock_rate: 4096,
                },
            }),
    {
        Self {
            timer: PrescaledTimer::builder().disable().frequency(4096).interval(256).build(),
            load: 0,
        }
    }

    fn reset(&mut self, select: u8)
        requires
            select < 4,
        ensures
            final(self).load == old(self).load,
            final(self).timer@ == (PrescaledTimerView {
                divider: ClockDividerView {
                    target_clock_rate: tim_frequency(select),
                    ..old(self).timer@.divider
                },
                ..old(self).timer@
            }),
    {
        let freq: usize = if select == 0 {
            4096
        } else if select == 1 {
            262144
        } else if select == 2 {
            65536
        } else {
            16384
        };
        self.timer.set_frequency(freq);
    }

    fn step(&mut self, cycles: usize, irq: &mut Irq)
        requires
            prescaled_can_step(old(self).timer@, cycles as nat),
        ensures
            final(self).load == old(self).load,
            (final(self).timer@, final(irq).request.timer) == (if tim_step_spec(
                old(self).timer@,
                old(self).load,
                cycles as nat,
            ).1 {
                (tim_step_spec(old(self).timer@, old(self).load, cycles as nat).0, true)
            } else {
                (tim_step_spec(old(self).timer@, old(self).load, cycles as nat).0, old(irq).request.timer)
            }),
            final(irq).enable == old(irq).enable,
            final(irq).request == (Ints { timer: final(irq).request.timer, ..old(irq).request }),
    {
        if self.timer.step(cycles) {
            self.timer.set_counter(self.load as usize);
            irq.timer(true);
        }
    }
}

/// What a read of DIV, TIMA, TMA or TAC (0xff04-0xff07) returns.
pub open spec fn timer_read_spec(v: TimerBlockView, addr: u16) -> u8 {
    if addr == 0xff04 {
        v.div.timer.counter as u8
    } else if addr == 0xff05 {
        v.tim.timer.counter as u8
    } else if addr == 0xff06 {
        v.load
    } else {
        v.ctrl
    }
}

/// The timer block after a write of `value` to DIV (cleared), TIMA, TMA or TAC (TIMA started
/// or stopped; starting it selects its rate).
pub open spec fn timer_write_spec(v: TimerBlockView, addr: u16, value: u8) -> TimerBlockView {
    if addr == 0xff04 {
        TimerBlockView {
            div: PrescaledTimerView {
                timer: TimerView { counter: 0, interval: 0, ..v.div.timer },
                ..v.div
            },
            ..v
        }
    } else if addr == 0xff05 {
        TimerBlockView {
            tim: PrescaledTimerView { timer: TimerView { counter: value as nat, ..v.tim.timer }, ..v.tim },
            ..v
        }
    } else if addr == 0xff06 {
        TimerBlockView { load: value, ..v }
    } else {
        TimerBlockView {
            ctrl: value,
            tim: PrescaledTimerView {
                timer: TimerView { enable: value & 0x04 != 0, ..v.tim.timer },
                divider: if value & 0x04 != 0 && v.ctrl & 0x04 == 0 {
                    ClockDividerView { target_clock_rate: tim_frequency(value & 0x03), ..v.tim.divider }
                } else {
                    v.tim.divider
                },
            },
            ..v
        }
    }
}

/// Starting TIMA by a TAC write selects its rate from the two low bits: 4096, 262144, 65536
/// or 16384 Hz, that is one increment every 1024, 16, 64 or 256 CPU cycles.
pub proof fn lemma_tac_selects_rate(v: TimerBlockView, value: u8)
    requires
        value & 0x04 != 0,
        v.ctrl & 0x04 == 0,
    ensures
        timer_write_spec(v, 0xff07, value).tim.timer.enable,
        timer_write_spec(v, 0xff07, value).ctrl == value,
        ({
            let rate = timer_write_spec(v, 0xff07, value).tim.divider.target_clock_rate;
            &&& value & 0x03 == 0 ==> rate == 4096 && CPU_FREQ_HZ as nat / rate == 1024
            &&& value & 0x03 == 1 ==> rate == 262144 && CPU_FREQ_HZ as nat / rate == 16
            &&& value & 0x03 == 2 ==> rate == 65536 && CPU_FREQ_HZ as nat / rate == 64
            &&& value & 0x03 == 3 ==> rate == 16384 && CPU_FREQ_HZ as nat / rate == 256
        }),
{
}

/// The timer block (0xff04-0xff07).
pub struct Timer {
    div: Div,
    tim: Tim,
    ctrl: u8,
    div_apu_bit: bool,
}

impl View for Timer {
    type V = TimerBlockView;

    closed spec fn view(&self) -> TimerBlockView {
        TimerBlockView { div: self.div.timer@, tim: self.tim.timer@, load: self.tim.load, ctrl: self.ctrl }
    }
}

pub open spec fn timer_wf(v: TimerBlockView) -> bool {
    &&& divider_wf(v.div.divider)
    &&& divider_wf(v.tim.divider)
    &&& v.div.divider.target_clock_rate == 16384
    &&& v.tim.divider.target_clock_rate <= 262144
}

impl Timer {
    pub fn new() -> (r: Self)
        ensures
            timer_wf(r@),
            r@.load == 0 && r@.ctrl == 0,
            r@.div.timer == (TimerView { enable: true, counter: 0, interval: 256 }),
            r@.tim.timer == (TimerView { enable: false, counter: 0, interval: 256 }),
            r@.tim.divider.target_clock_rate == 4096,
    {
        Self { div: Div::new(), tim: Tim::new(), ctrl: 0, div_apu_bit: false }
    }

    /// Advances DIV and TIMA by `time` CPU cycles; a TIMA overflow requests the timer interrupt.
    pub fn step(&mut self, time: usize, irq: &mut Irq) -> (r: bool)
        requires
            timer_wf(old(self)@),
            timer_can_step(old(self)@, time as nat),
        ensures
            !r,
            timer_wf(final(self)@),
            final(self)@.div == prescaled_step_spec(old(self)@.div, time as nat).0,
            final(self)@.tim == tim_step_spec(old(self)@.tim, old(self)@.load, time as nat).0,
            final(self)@.load == old(self)@.load,
            final(self)@.ctrl == old(self)@.ctrl,
            final(irq).enable == old(irq).enable,
            final(irq).request == (Ints {
                timer: old(irq).request.timer || tim_step_spec(
                    old(self)@.tim,
                    old(self)@.load,
                    time as nat,
                ).1,
                ..old(irq).request
            }),
    {
        self.div.timer.step(time);
        self.tim.step(time, irq);
        false
    }

    /// Reads DIV, TIMA, TMA or TAC.
    pub fn on_read(&self, addr: u16) -> (r: u8)
        requires
            0xff04 <= addr <= 0xff07,
        ensures
            addr == 0xff04 ==> r == self@.div.timer.counter as u8,
            addr == 0xff05 ==> r == self@.tim.timer.counter as u8,
            addr == 0xff06 ==> r == self@.load,
            addr == 0xff07 ==> r == self@.ctrl,
    {
        if addr == 0xff04 {
            self.div.counter()
        } else if addr == 0xff05 {
            self.tim.timer.counter() as u8
        } else if addr == 0xff06 {
            self.tim.load
        } else {
            self.ctrl
        }
    }

    /// Writes DIV (clears it), TIMA, TMA or TAC (starts or stops TIMA and selects its rate).
    pub fn on_write(&mut self, addr: u16, value: u8)
        requires
            timer_wf(old(self)@),
            0xff04 <= addr <= 0xff07,
        ensures
            timer_wf(final(self)@),
            addr == 0xff04 ==> final(self)@ == (TimerBlockView {
                div: PrescaledTimerView {
                    timer: TimerView { counter: 0, interval: 0, ..old(self)@.div.timer },
                    ..old(self)@.div
                },
                ..old(self)@
            }),
            addr == 0xff05 ==> final(self)@ == (TimerBlockView {
                tim: PrescaledTimerView {
                    timer: TimerView { counter: value as nat, ..old(self)@.tim.timer },
                    ..old(self)@.tim
                },
                ..old(self)@
            }),
            addr == 0xff06 ==> final(self)@ == (TimerBlockView { load: value, ..old(self)@ }),
            addr == 0xff07 ==> final(self)@ == (TimerBlockView {
                ctrl: value,
                tim: PrescaledTimerView {
                    timer: TimerView { enable: value & 0x04 != 0, ..old(self)@.tim.timer },
                    divider: if value & 0x04 != 0 && old(self)@.ctrl & 0x04 == 0 {
                        ClockDividerView {
                            target_clock_rate: tim_frequency(value & 0x03),
                            ..old(self)@.tim.divider
                        }
                    } else {
                        old(self)@.tim.divider
                    },
                },
                ..old(self)@
            }),
    {
        if addr == 0xff04 {
            self.div.timer.reset();
        } else if addr == 0xff05 {
            self.tim.timer.set_counter(value as usize);
        } else if addr == 0xff06 {
            self.tim.load = value;
        } else {
            let prev_enable = self.ctrl & 0x04 != 0;
            self.ctrl = value;
            if value & 0x04 != 0 {
                self.tim.timer.enable();
                if !prev_enable {
                    assert(value & 0x03 < 4) by (bit_vector);
                    self.tim.reset(value & 0x03);
                }
            } else {
                self.tim.timer.disable();
            }
        }
    }
}

/// Steps of at most 15 CPU cycles never produce more than one tick of DIV or TIMA, whatever
/// rate TAC selects.
pub proof fn lemma_timer_short_steps(v: TimerBlockView, time: nat)
    requires
        timer_wf(v),
        time <= 15,
    ensures
        timer_can_step(v, time),
{
    let t = v.tim.divider.target_clock_rate;
    assert(time * t <= 15 * 262144) by (nonlinear_arith)
        requires
            time <= 15,
            t <= 262144,
    ;
    assert(time * 16384 <= 15 * 16384) by (nonlinear_arith)
        requires
            time <= 15,
    ;
    let x = v.tim.divider.counter + time * t;
    let y = v.div.divider.counter + time * 16384;
    assert(x / (CPU_FREQ_HZ as nat) <= 1) by (nonlinear_arith)
        requires
            x < 2 * CPU_FREQ_HZ,
    ;
    assert(y / (CPU_FREQ_HZ as nat) <= 1) by (nonlinear_arith)
        requires
            y < 2 * CPU_FREQ_HZ,
    ;
}

} // verus!
