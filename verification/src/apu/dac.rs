use vstd::prelude::*;

verus! {

/// The abstract state of a [`Dac`].
pub struct DacView {
    pub power: bool,
    pub digital_amp: nat,
    pub analog_amp: int,
}

/// The analog level of a digital amplitude: [0, 15] is mapped to [-8, 8] skipping zero.
pub open spec fn analog_of(amp: nat) -> int {
    if amp <= 7 {
        amp - 8
    } else {
        amp - 7
    }
}

/// Digital-to-analog converter of a sound channel.
#[derive(Debug, Clone)]
pub struct Dac {
    power: bool,
    digital_amp: usize,
    analog_amp: isize,
}

impl View for Dac {
    type V = DacView;

    closed spec fn view(&self) -> DacView {
        DacView {
            power: self.power,
            digital_amp: self.digital_amp as nat,
            analog_amp: self.analog_amp as int,
        }
    }
}

impl Dac {
    pub fn new() -> (r: Self)
        ensures
            r@ == (DacView { power: false, digital_amp: 0, analog_amp: 0 }),
    {
        Self { power: false, digital_amp: 0, analog_amp: 0 }
    }

    /// Converts a digital amplitude (below 16); ignored while the DAC is off.
    pub fn write(&mut self, amp: usize)
        requires
            old(self)@.power ==> amp < 16,
        ensures
            final(self)@ == (if old(self)@.power {
                DacView { power: true, digital_amp: amp as nat, analog_amp: analog_of(amp as nat) }
            } else {
                old(self)@
            }),
    {
        if !self.power {
            return;
        }
        self.digital_amp = amp;
        self.analog_amp = if amp <= 7 {
            amp as isize - 8
        } else {
            amp as isize - 7
        };
    }

    pub fn amp(&self) -> (r: isize)
        ensures
            r == self@.analog_amp,
    {
        self.analog_amp
    }

    pub fn pcm(&self) -> (r: usize)
        ensures
            r == self@.digital_amp,
    {
        self.digital_amp
    }

    pub fn on(&self) -> (r: bool)
        ensures
            r == self@.power,
    {
        self.power
    }

    pub fn power_on(&mut self)
        ensures
            final(self)@ == (DacView { power: true, ..old(self)@ }),
    {
        self.power = true;
    }

    pub fn power_off(&mut self)
        ensures
            final(self)@ == (DacView { power: false, analog_amp: 0, ..old(self)@ }),
    {
        self.power = false;
        self.analog_amp = 0;
    }
}

/// What holds of every DAC reached from `new`: the level is within [-8, 8], the digital
/// amplitude below 16, and a non-zero level is the one of the digital amplitude.
pub open spec fn dac_inv(v: DacView) -> bool {
    &&& v.digital_amp < 16
    &&& -8 <= v.analog_amp <= 8
    &&& v.analog_amp != 0 ==> v.analog_amp == analog_of(v.digital_amp)
}

/// A new DAC meets `dac_inv`, and power-ons, power-offs and writes (below 16 while powered)
/// keep it: so every DAC reached from `new` by any sequence of these calls has a level within
/// [-8, 8] that, when non-zero, is the level of the last amplitude written while powered.
/// Writes change neither `on` nor anything while the DAC is off, and power changes keep the
/// digital amplitude.
pub proof fn lemma_dac_invariant(v: DacView, amp: nat)
    ensures
        dac_inv(DacView { power: false, digital_amp: 0, analog_amp: 0 }),
        dac_inv(v) ==> dac_inv(DacView { power: true, ..v }),
        dac_inv(v) ==> dac_inv(DacView { power: false, analog_amp: 0, ..v }),
        dac_inv(v) && v.power && amp < 16 ==> dac_inv(
            DacView { power: true, digital_amp: amp, analog_amp: analog_of(amp) },
        ),
{
}

/// A call that changes a DAC.
pub enum DacOp {
    PowerOn,
    PowerOff,
    Write(nat),
}

/// The state after one call, as the contracts of `power_on`, `power_off` and `write` give it.
pub open spec fn dac_apply(v: DacView, op: DacOp) -> DacView {
    match op {
        DacOp::PowerOn => DacView { power: true, ..v },
        DacOp::PowerOff => DacView { power: false, analog_amp: 0, ..v },
        DacOp::Write(amp) => if v.power {
            DacView { power: true, digital_amp: amp, analog_amp: analog_of(amp) }
        } else {
            v
        },
    }
}

/// The state after the calls `ops`, in order, from `v`.
pub open spec fn dac_run(v: DacView, ops: Seq<DacOp>) -> DacView
    decreases ops.len(),
{
    if ops.len() == 0 {
        v
    } else {
        dac_apply(dac_run(v, ops.drop_last()), ops.last())
    }
}

/// Whether every write among `ops` that reaches a powered DAC, starting from `v`, is below 16.
pub open spec fn dac_writes_ok(v: DacView, ops: Seq<DacOp>) -> bool {
    forall|i: int|
        0 <= i < ops.len() && (#[trigger] ops[i]) is Write && dac_run(v, ops.take(i)).power
            ==> ops[i]->Write_0 < 16
}

/// The power state after `ops` from a state with power `power`: on exactly when a power-on
/// came after the last power-off.
pub open spec fn power_after(power: bool, ops: Seq<DacOp>) -> bool
    decreases ops.len(),
{
    if ops.len() == 0 {
        power
    } else {
        match ops.last() {
            DacOp::PowerOn => true,
            DacOp::PowerOff => false,
            DacOp::Write(_) => power_after(power, ops.drop_last()),
        }
    }
}

/// The digital amplitude after `ops` from `v`: the last amplitude written while powered, or
/// `v`'s if there was none.
pub open spec fn pcm_after(v: DacView, ops: Seq<DacOp>) -> nat
    decreases ops.len(),
{
    if ops.len() == 0 {
        v.digital_amp
    } else {
        match ops.last() {
            DacOp::Write(amp) => if dac_run(v, ops.drop_last()).power {
                amp
            } else {
                pcm_after(v, ops.drop_last())
            },
            _ => pcm_after(v, ops.drop_last()),
        }
    }
}

/// Over any sequence of power-ons, power-offs and writes (below 16 while powered) from a new
/// DAC: it is on exactly when a power-on came after the last power-off (writes never change
/// that), its digital amplitude is the last one written while powered (0 if none), and its
/// level is within [-8, 8] and, when non-zero, the level of that amplitude.
pub proof fn lemma_dac_history(ops: Seq<DacOp>)
    requires
        dac_writes_ok(DacView { power: false, digital_amp: 0, analog_amp: 0 }, ops),
    ensures
        ({
            let v0 = DacView { power: false, digital_amp: 0, analog_amp: 0 };
            let v = dac_run(v0, ops);
            &&& v.power == power_after(false, ops)
            &&& v.digital_amp == pcm_after(v0, ops)
            &&& dac_inv(v)
        }),
    decreases ops.len(),
{
    let v0 = DacView { power: false, digital_amp: 0, analog_amp: 0 };
    if ops.len() > 0 {
        let pre = ops.drop_last();
        assert forall|i: int|
            0 <= i < pre.len() && (#[trigger] pre[i]) is Write && dac_run(v0, pre.take(i)).power
                implies pre[i]->Write_0 < 16 by {
            assert(pre.take(i) == ops.take(i));
            assert(pre[i] == ops[i]);
        }
        lemma_dac_history(pre);
        let n = ops.len() - 1;
        assert(ops.take(n) == pre);
        assert(ops[n] == ops.last());
        lemma_dac_invariant(dac_run(v0, pre), match ops.last() {
            DacOp::Write(a) => a,
            _ => 0,
        });
    } else {
        lemma_dac_invariant(v0, 0);
    }
}

} // verus!
