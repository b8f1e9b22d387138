use vstd::prelude::*;

verus! {

/// The abstract state of the [`Mixer`].
pub struct MixerView {
    pub power: bool,
    pub nr50: u8,
    pub nr51: u8,
}

/// A one-bit signed field of NR51: -1 when the bit is set, 0 otherwise.
pub open spec fn nr51_bit(nr51: u8, bit: u8) -> int {
    if (nr51 >> bit) & 1 == 1 {
        -1
    } else {
        0
    }
}

pub open spec fn nr50_right_volume(nr50: u8) -> int {
    (nr50 & 0x07) as int
}

pub open spec fn nr50_left_volume(nr50: u8) -> int {
    ((nr50 >> 4u8) & 0x07) as int
}

/// Mixes the four channels into the left and right outputs (NR50/NR51).
pub struct Mixer {
    power: bool,
    nr50: u8,
    nr51: u8,
}

impl View for Mixer {
    type V = MixerView;

    closed spec fn view(&self) -> MixerView {
        MixerView { power: self.power, nr50: self.nr50, nr51: self.nr51 }
    }
}

impl Mixer {
    pub fn new() -> (r: Self)
        ensures
            r@ == (MixerView { power: false, nr50: 0, nr51: 0 }),
    {
        Self { power: false, nr50: 0, nr51: 0 }
    }

    /// Read NR50 register (0xff24)
    pub fn read_ctrl(&self) -> (r: u8)
        ensures
            r == self@.nr50,
    {
        self.nr50
    }

    /// Write NR50 register (0xff24)
    pub fn write_ctrl(&mut self, value: u8)
        ensures
            final(self)@ == (if old(self)@.power {
                MixerView { nr50: value, ..old(self)@ }
            } else {
                old(self)@
            }),
    {
        if !self.power {
            return;
        }
        self.nr50 = value;
    }

    /// Read NR51 register (0xff25)
    pub fn read_so_mask(&self) -> (r: u8)
        ensures
            r == self@.nr51,
    {
        self.nr51
    }

    /// Write NR51 register (0xff25)
    pub fn write_so_mask(&mut self, value: u8)
        ensures
            final(self)@ == (if old(self)@.power {
                MixerView { nr51: value, ..old(self)@ }
            } else {
                old(self)@
            }),
    {
        if !self.power {
            return;
        }
        self.nr51 = value;
    }

    /// Starts mixing one sample with the current settings.
    pub fn builder(&self) -> (r: AmpBuilder)
        ensures
            r@ == (AmpBuilderView { left: 0, right: 0, nr50: self@.nr50, nr51: self@.nr51 }),
    {
        AmpBuilder { left: 0, right: 0, nr50: self.nr50, nr51: self.nr51 }
    }

    pub fn power_on(&mut self)
        ensures
            final(self)@ == (MixerView { power: true, ..old(self)@ }),
    {
        self.power = true;
    }

    pub fn power_off(&mut self)
        ensures
            final(self)@ == (MixerView { power: false, nr50: 0, nr51: 0 }),
    {
        self.power = false;
        self.nr50 = 0;
        self.nr51 = 0;
    }
}

/// The abstract state of an [`AmpBuilder`].
pub struct AmpBuilderView {
    pub left: int,
    pub right: int,
    pub nr50: u8,
    pub nr51: u8,
}

/// Adds one channel's amplitude to both outputs, weighted by its NR51 bits
/// (`right_bit` for the right output, `right_bit + 4` for the left).
pub open spec fn add_channel(v: AmpBuilderView, amp: int, right_bit: u8) -> AmpBuilderView {
    AmpBuilderView {
        left: v.left + amp * nr51_bit(v.nr51, (right_bit + 4) as u8),
        right: v.right + amp * nr51_bit(v.nr51, right_bit),
        ..v
    }
}

/// Whether adding `amp` for the channel whose right-output bit in NR51 is `right_bit` stays
/// in machine range: only an output that the channel is routed to changes (by `-amp`).
pub open spec fn can_add(v: AmpBuilderView, amp: int, right_bit: u8) -> bool {
    &&& isize::MIN <= amp <= isize::MAX
    &&& nr51_bit(v.nr51, (right_bit + 4) as u8) != 0 ==> isize::MIN < amp && isize::MIN <= v.left
        - amp <= isize::MAX
    &&& nr51_bit(v.nr51, right_bit) != 0 ==> isize::MIN < amp && isize::MIN <= v.right - amp
        <= isize::MAX
}

/// Accumulates the channel amplitudes of one sample.
pub struct AmpBuilder {
    left: isize,
    right: isize,
    nr50: u8,
    nr51: u8,
}

impl View for AmpBuilder {
    type V = AmpBuilderView;

    closed spec fn view(&self) -> AmpBuilderView {
        AmpBuilderView { left: self.left as int, right: self.right as int, nr50: self.nr50, nr51: self.nr51 }
    }
}

impl AmpBuilder {
    fn field(&self, bit: u8) -> (r: isize)
        requires
            bit < 8,
        ensures
            r == nr51_bit(self@.nr51, bit),
    {
        if (self.nr51 >> bit) & 1 == 1 {
            -1
        } else {
            0
        }
    }

    fn add(self, amp: isize, right_bit: u8) -> (r: Self)
        requires
            right_bit < 4,
            can_add(self@, amp as int, right_bit),
        ensures
            r@ == add_channel(self@, amp as int, right_bit),
    {
        let mut s = self;
        let l = s.field(right_bit + 4);
        let r = s.field(right_bit);
        assert(l == 0 || l == -1);
        assert(r == 0 || r == -1);
        assert(amp * l == -amp || amp * l == 0) by (nonlinear_arith)
            requires
                l == 0 || l == -1,
        ;
        assert(amp * r == -amp || amp * r == 0) by (nonlinear_arith)
            requires
                r == 0 || r == -1,
        ;
        s.left = s.left + amp * l;
        s.right = s.right + amp * r;
        s
    }

    /// Adds channel 1 (square with sweep).
    pub fn tone1(self, amp: isize) -> (r: Self)
        requires
            can_add(self@, amp as int, 0),
        ensures
            r@ == add_channel(self@, amp as int, 0),
    {
        self.add(amp, 0)
    }

    /// Adds channel 2 (square).
    pub fn tone2(self, amp: isize) -> (r: Self)
        requires
            can_add(self@, amp as int, 1),
        ensures
            r@ == add_channel(self@, amp as int, 1),
    {
        self.add(amp, 1)
    }

    /// Adds channel 3 (wave).
    pub fn wave(self, amp: isize) -> (r: Self)
        requires
            can_add(self@, amp as int, 2),
        ensures
            r@ == add_channel(self@, amp as int, 2),
    {
        self.add(amp, 2)
    }

    /// Adds channel 4 (noise).
    pub fn noise(self, amp: isize) -> (r: Self)
        requires
            can_add(self@, amp as int, 3),
        ensures
            r@ == add_channel(self@, amp as int, 3),
    {
        self.add(amp, 3)
    }

    /// The left and right outputs scaled by the master volumes (1 to 8).
    pub fn build(self) -> (r: (isize, isize))
        requires
            isize::MIN <= self@.left * 8 <= isize::MAX,
            isize::MIN <= self@.right * 8 <= isize::MAX,
        ensures
            r.0 == self@.left * (nr50_left_volume(self@.nr50) + 1),
            r.1 == self@.right * (nr50_right_volume(self@.nr50) + 1),
    {
        let lv = ((self.nr50 >> 4u8) & 0x07) as isize + 1;
        let rv = (self.nr50 & 0x07) as isize + 1;
        let nr50 = self.nr50;
        assert((nr50 >> 4u8) & 0x07 <= 7 && nr50 & 0x07 <= 7) by (bit_vector);
        let left = self.left;
        let right = self.right;
        assert(isize::MIN <= left * lv <= isize::MAX) by (nonlinear_arith)
            requires
                1 <= lv <= 8,
                isize::MIN <= left * 8 <= isize::MAX,
        ;
        assert(isize::MIN <= right * rv <= isize::MAX) by (nonlinear_arith)
            requires
                1 <= rv <= 8,
                isize::MIN <= right * 8 <= isize::MAX,
        ;
        (left * lv, right * rv)
    }
}

/// A channel contributes to an output exactly when its bit in NR51 is set, and then with the
/// opposite sign of its amplitude (the one-bit fields are signed).
pub proof fn lemma_channel_routing(v: AmpBuilderView, amp: int, right_bit: u8)
    requires
        right_bit < 4,
    ensures
        add_channel(v, amp, right_bit).right == v.right + (if (v.nr51 >> right_bit) & 1 == 1 {
            -amp
        } else {
            0
        }),
        add_channel(v, amp, right_bit).left == v.left + (if (v.nr51 >> ((right_bit + 4) as u8)) & 1
            == 1 {
            -amp
        } else {
            0
        }),
{
}

} // verus!
