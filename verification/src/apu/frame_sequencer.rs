//! The frame sequencer generates low frequency clocks for the modulation units. It is
//! clocked by the falling edge of bit 4 of the DIV register (512 Hz).
//!
//! ```text
//! Step   Length Ctr  Vol Env     Sweep
//! ---------------------------------------
//! 0      Clock       -           -
//! 1      -           -           -
//! 2      Clock       -           Clock
//! 3      -           -           -
//! 4      Clock       -           -
//! 5      -           -           -
//! 6      Clock       -           Clock
//! 7      -           Clock       -
//! ---------------------------------------
//! Rate   256 Hz      64 Hz       128 Hz
//! ```
use vstd::prelude::*;

use super::clock_divider::{divider_step_spec, ClockDivider, ClockDividerView};

verus! {

/// The position of the sequencer as seen by the channels.
#[derive(Debug, Clone, Copy)]
pub struct Frame {
    /// The step that was entered last, if any.
    pub last: Option<usize>,
    /// The step that will be entered next, if known.
    pub next: Option<usize>,
    /// The cycles elapsed since the last step.
    pub cycles: usize,
}

/// The step just entered, if this frame starts at a step boundary.
pub open spec fn switched_spec(f: Frame) -> Option<usize> {
    if f.cycles == 0 {
        f.last
    } else {
        None
    }
}

pub open spec fn initial_frame() -> Frame {
    Frame { last: None, next: Some(0), cycles: 0 }
}

pub open spec fn partial_frame() -> Frame {
    Frame { last: None, next: None, cycles: 0 }
}

/// The frame after the sequencer moves to its next step.
pub open spec fn advance_spec(f: Frame) -> Frame {
    Frame {
        last: f.next,
        next: match f.next {
            Some(i) => Some(((i + 1) % 8) as usize),
            None => Some(0),
        },
        cycles: 0,
    }
}

pub open spec fn bit4_spec(value: usize) -> bool {
    value & 0x10 != 0
}

/// The abstract state of a [`FrameSequencer`].
pub struct FrameSequencerView {
    pub frame: Frame,
    pub resetting: nat,
    pub last_div: usize,
}

/// The state after `step(cycles, div)` and the frame it returns.
pub open spec fn sequencer_step_spec(s: FrameSequencerView, cycles: usize, div: usize) -> (
    FrameSequencerView,
    Frame,
) {
    let f1 = if s.resetting > 0 && div & 0x10 > 0 {
        partial_frame()
    } else {
        s.frame
    };
    let f2 = Frame { cycles: vstd::wrapping::usize_specs::wrapping_add(f1.cycles, cycles), ..f1 };
    let falling = bit4_spec(s.last_div) && !bit4_spec(div);
    let f3 = if falling && s.resetting == 0 {
        advance_spec(f2)
    } else {
        f2
    };
    let resetting = if s.resetting > cycles {
        (s.resetting - cycles) as nat
    } else {
        0
    };
    (FrameSequencerView { frame: f3, resetting, last_div: div }, f3)
}

impl Frame {
    fn new() -> (r: Self)
        ensures
            r == initial_frame(),
    {
        Self { last: None, next: Some(0), cycles: 0 }
    }

    fn partial() -> (r: Self)
        ensures
            r == partial_frame(),
    {
        Self { last: None, next: None, cycles: 0 }
    }

    /// The step just entered, if this frame starts at a step boundary.
    pub fn switched(&self) -> (r: Option<usize>)
        ensures
            r == switched_spec(*self),
    {
        if self.cycles == 0 {
            self.last
        } else {
            None
        }
    }
}

/// Drives the modulation units from the DIV register.
#[derive(Debug, Clone)]
pub struct FrameSequencer {
    frame: Frame,
    resetting: usize,
    last_div: usize,
}

impl View for FrameSequencer {
    type V = FrameSequencerView;

    closed spec fn view(&self) -> FrameSequencerView {
        FrameSequencerView {
            frame: self.frame,
            resetting: self.resetting as nat,
            last_div: self.last_div,
        }
    }
}

impl FrameSequencer {
    pub fn new() -> (r: Self)
        ensures
            r@ == (FrameSequencerView { frame: initial_frame(), resetting: 0, last_div: 0 }),
    {
        Self { frame: Frame::new(), resetting: 0, last_div: 0 }
    }

    /// Restarts from step 0; the falling edge seen within the next machine cycle is ignored.
    pub fn reset_step(&mut self)
        ensures
            final(self)@ == (FrameSequencerView {
                frame: initial_frame(),
                resetting: 4,
                last_div: old(self)@.last_div,
            }),
    {
        self.frame = Frame::new();
        // This is to prevent updating step immediately to 1 after reset
        // when reset and div-apu happens in the same machine cycle,
        self.resetting = 4;
    }

    fn bit_down(&mut self, div: usize) -> (r: bool)
        ensures
            r == (bit4_spec(old(self).last_div) && !bit4_spec(div)),
            final(self).last_div == div,
            final(self).frame == old(self).frame,
            final(self).resetting == old(self).resetting,
    {
        let bit4_old = bit4(self.last_div);
        let bit4_new = bit4(div);
        self.last_div = div;
        bit4_old && !bit4_new
    }

    /// Advances by `cycles` given the current DIV value and returns the frame.
    pub fn step(&mut self, cycles: usize, div: usize) -> (r: Frame)
        ensures
            (final(self)@, r) == sequencer_step_spec(old(self)@, cycles, div),
    {
        if self.resetting > 0 && div & 0x10 > 0 {
            self.frame = Frame::partial();
        }
        self.frame.cycles = self.frame.cycles.wrapping_add(cycles);
        if self.bit_down(div) && self.resetting == 0 {
            self.update();
        }
        self.resetting = self.resetting.saturating_sub(cycles);
        self.frame
    }

    fn update(&mut self)
        ensures
            final(self).frame == advance_spec(old(self).frame),
            final(self).resetting == old(self).resetting,
            final(self).last_div == old(self).last_div,
    {
        self.frame.last = self.frame.next;
        self.frame.next = match self.frame.next {
            Some(index) => Some((index % 8 + 1) % 8),
            None => Some(0),
        };
        self.frame.cycles = 0;
    }
}

fn bit4(value: usize) -> (r: bool)
    ensures
        r == bit4_spec(value),
{
    value & 0x10 != 0
}

/// Every falling edge of DIV bit 4 outside the reset window moves the sequencer to the step
/// after the one it announced as next, wrapping after step 7, and the returned frame starts
/// at that step.
pub proof fn lemma_sequencer_advances_on_falling_edge(
    s: FrameSequencerView,
    cycles: usize,
    div: usize,
    i: usize,
)
    requires
        s.resetting == 0,
        bit4_spec(s.last_div),
        !bit4_spec(div),
        s.frame.next == Some(i),
    ensures
        sequencer_step_spec(s, cycles, div).1 == (Frame {
            last: Some(i),
            next: Some(((i + 1) % 8) as usize),
            cycles: 0,
        }),
        switched_spec(sequencer_step_spec(s, cycles, div).1) == Some(i),
{
}

/// Without a falling edge the step stays and no step is announced as just entered unless the
/// frame started at one and no cycles passed.
pub proof fn lemma_sequencer_holds_without_edge(s: FrameSequencerView, cycles: usize, div: usize)
    requires
        !(bit4_spec(s.last_div) && !bit4_spec(div)),
        !(s.resetting > 0 && div & 0x10 > 0),
    ensures
        sequencer_step_spec(s, cycles, div).1.next == s.frame.next,
        sequencer_step_spec(s, cycles, div).1.last == s.frame.last,
{
}

/// The abstract state of a [`RateSequencer`].
pub struct RateSequencerView {
    pub divider: ClockDividerView,
    pub step: nat,
}

/// The state after `step(cycles)` and the step it entered, if any.
pub open spec fn rate_step_spec(v: RateSequencerView, cycles: nat) -> (RateSequencerView, Option<usize>) {
    let (d, fired) = divider_step_spec(v.divider, cycles);
    if fired {
        (RateSequencerView { divider: d, step: (v.step + 1) % 8 }, Some(v.step as usize))
    } else {
        (RateSequencerView { divider: d, ..v }, None)
    }
}

/// A frame sequencer clocked by dividing an arbitrary source clock down to 512 Hz; used by the
/// channel models that are driven at the host's sample rate.
#[derive(Debug, Clone)]
pub struct RateSequencer {
    divider: ClockDivider,
    step: usize,
}

impl View for RateSequencer {
    type V = RateSequencerView;

    closed spec fn view(&self) -> RateSequencerView {
        RateSequencerView { divider: self.divider@, step: self.step as nat }
    }
}

impl RateSequencer {
    pub fn new(source_clock_rate: usize) -> (r: Self)
        ensures
            r@ == (RateSequencerView {
                divider: ClockDividerView {
                    counter: 0,
                    source_clock_rate: source_clock_rate as nat,
                    target_clock_rate: 512,
                },
                step: 0,
            }),
    {
        Self { divider: ClockDivider::new(source_clock_rate, 512), step: 0 }
    }

    pub fn set_source_clock_rate(&mut self, source_clock_rate: usize)
        ensures
            final(self)@ == (RateSequencerView {
                divider: ClockDividerView {
                    source_clock_rate: source_clock_rate as nat,
                    ..old(self)@.divider
                },
                ..old(self)@
            }),
    {
        self.divider.set_source_clock_rate(source_clock_rate);
    }

    /// Feeds `cycles` source cycles; returns the step entered when the 512 Hz clock ticked.
    pub fn step(&mut self, cycles: usize) -> (r: Option<usize>)
        requires
            old(self)@.step < 8,
            old(self)@.divider.target_clock_rate == 512,
            old(self)@.divider.counter + cycles <= usize::MAX,
        ensures
            (final(self)@, r) == rate_step_spec(old(self)@, cycles as nat),
            final(self)@.step < 8,
            final(self)@.divider.target_clock_rate == 512,
    {
        if self.divider.step(cycles) {
            let s = self.step;
            self.step = (s + 1) % 8;
            Some(s)
        } else {
            None
        }
    }
}

} // verus!
