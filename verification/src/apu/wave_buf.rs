use vstd::prelude::*;

verus! {

/// The abstract state of a [`WaveIndex`].
pub struct WaveIndexView {
    pub source_clock_rate: nat,
    pub clock: nat,
    pub index: nat,
    pub length: nat,
}

/// The state after `update_index(freq)`.
pub open spec fn update_index_spec(v: WaveIndexView, freq: nat) -> WaveIndexView {
    let c = v.clock + freq;
    if c >= v.source_clock_rate {
        WaveIndexView {
            clock: (c - v.source_clock_rate) as nat,
            index: (v.index + 1) % v.length,
            ..v
        }
    } else {
        WaveIndexView { clock: c, ..v }
    }
}

/// Position in a waveform buffer of `length` samples, advanced at a frequency relative to a
/// source clock.
#[derive(Debug, Clone)]
pub struct WaveIndex {
    source_clock_rate: usize,
    clock: usize,
    index: usize,
    length: usize,
}

impl View for WaveIndex {
    type V = WaveIndexView;

    closed spec fn view(&self) -> WaveIndexView {
        WaveIndexView {
            source_clock_rate: self.source_clock_rate as nat,
            clock: self.clock as nat,
            index: self.index as nat,
            length: self.length as nat,
        }
    }
}

impl WaveIndex {
    pub fn new(source_clock_rate: usize, length: usize) -> (r: Self)
        ensures
            r@ == (WaveIndexView {
                source_clock_rate: source_clock_rate as nat,
                clock: 0,
                index: 0,
                length: length as nat,
            }),
    {
        Self { source_clock_rate, clock: 0, index: 0, length }
    }

    pub fn index(&self) -> (r: usize)
        ensures
            r == self@.index,
    {
        self.index
    }

    pub fn set_source_clock_rate(&mut self, source_clock_rate: usize)
        ensures
            final(self)@ == (WaveIndexView {
                source_clock_rate: source_clock_rate as nat,
                ..old(self)@
            }),
    {
        self.source_clock_rate = source_clock_rate;
    }

    /// Advances by `freq` source cycles; moves to the next sample every source period.
    pub fn update_index(&mut self, freq: usize)
        requires
            old(self)@.length > 0,
            old(self)@.clock + freq <= usize::MAX,
            old(self)@.index < usize::MAX,
        ensures
            final(self)@ == update_index_spec(old(self)@, freq as nat),
    {
        self.clock = self.clock + freq;
        if self.clock >= self.source_clock_rate {
            self.clock = self.clock - self.source_clock_rate;
            self.index = (self.index + 1) % self.length;
        }
    }
}

/// The index stays inside the buffer.
pub proof fn lemma_wave_index_in_range(v: WaveIndexView, freq: nat)
    requires
        v.length > 0,
        v.index < v.length,
    ensures
        update_index_spec(v, freq).index < v.length,
        update_index_spec(v, freq).length == v.length,
{
}

} // verus!
