//! OAM DMA transfers.
use vstd::prelude::*;

verus! {

/// A chunk of a DMA transfer: copy `len` bytes from `src` to `dst`.
pub struct DmaRequest {
    src: u16,
    dst: u16,
    len: u16,
}

impl View for DmaRequest {
    type V = (u16, u16, u16);

    closed spec fn view(&self) -> (u16, u16, u16) {
        (self.src, self.dst, self.len)
    }
}

impl DmaRequest {
    pub fn new(src: u16, dst: u16, len: u16) -> (r: Self)
        ensures
            r@ == (src, dst, len),
    {
        Self { src, dst, len }
    }

    pub fn src(&self) -> (r: u16)
        ensures
            r == self@.0,
    {
        self.src
    }

    pub fn dst(&self) -> (r: u16)
        ensures
            r == self@.1,
    {
        self.dst
    }

    pub fn len(&self) -> (r: u16)
        ensures
            r == self@.2,
    {
        self.len
    }
}

/// The abstract state of the [`Dma`] unit.
pub struct DmaView {
    pub src: u16,
    pub dst: u16,
    pub cycles: nat,
}

/// The remaining transfer stays inside the address space and is counted in machine cycles.
pub open spec fn dma_wf(v: DmaView) -> bool {
    &&& v.cycles % 4 == 0
    &&& v.src + v.cycles / 4 <= 0xffff
    &&& v.dst + v.cycles / 4 <= 0xffff
}

pub open spec fn min_nat(a: nat, b: nat) -> nat {
    if a < b {
        a
    } else {
        b
    }
}

/// The state after `step(cycles)` and the request it returns.
pub open spec fn dma_step_spec(v: DmaView, cycles: nat) -> (DmaView, Option<(u16, u16, u16)>) {
    if v.cycles == 0 {
        (v, None)
    } else {
        let len = min_nat(cycles / 4, v.cycles / 4);
        (
            DmaView {
                src: (v.src + len) as u16,
                dst: (v.dst + len) as u16,
                cycles: if v.cycles > cycles {
                    (v.cycles - cycles) as nat
                } else {
                    0
                },
            },
            Some((v.src, v.dst, len as u16)),
        )
    }
}

/// Copies 160 bytes to OAM (0xfe00), one byte per machine cycle.
pub struct Dma {
    src: u16,
    dst: u16,
    cycles: usize,
}

impl View for Dma {
    type V = DmaView;

    closed spec fn view(&self) -> DmaView {
        DmaView { src: self.src, dst: self.dst, cycles: self.cycles as nat }
    }
}

impl Dma {
    pub fn new() -> (r: Self)
        ensures
            r@ == (DmaView { src: 0, dst: 0, cycles: 0 }),
            dma_wf(r@),
    {
        Self { src: 0, dst: 0, cycles: 0 }
    }

    /// Whether a transfer is running.
    pub fn active(&self) -> (r: bool)
        ensures
            r == (self@.cycles != 0),
    {
        self.cycles != 0
    }

    /// The address the next byte is copied from.
    pub fn source(&self) -> (r: u16)
        ensures
            r == self@.src,
    {
        self.src
    }

    /// Transfers for `cycles` CPU cycles (a multiple of 4); returns what to copy.
    pub fn step(&mut self, cycles: usize) -> (r: Option<DmaRequest>)
        requires
            dma_wf(old(self)@),
            old(self)@.cycles != 0 ==> cycles % 4 == 0,
        ensures
            dma_wf(final(self)@),
            final(self)@ == dma_step_spec(old(self)@, cycles as nat).0,
            match (r, dma_step_spec(old(self)@, cycles as nat).1) {
                (Some(q), Some(e)) => q@ == e,
                (None, None) => true,
                _ => false,
            },
    {
        if self.cycles == 0 {
            return None;
        }
        // Copy 1 byte per a machine cycle
        let a = cycles / 4;
        let b = self.cycles / 4;
        let len = if a < b {
            a
        } else {
            b
        } as u16;
        let req = DmaRequest::new(self.src, self.dst, len);
        self.src = self.src + len;
        self.dst = self.dst + len;
        self.cycles = self.cycles.saturating_sub(cycles);
        Some(req)
    }

    /// Write DMA register (0xff46): starts copying from `value << 8`.
    pub fn start(&mut self, value: u8)
        requires
            value <= 0xdf,
        ensures
            dma_wf(final(self)@),
            final(self)@ == (DmaView { src: (value as u16 * 256) as u16, dst: 0xfe00, cycles: 640 }),
    {
        self.cycles = 160 * 4;
        // 160 machine cycles (* 4 for cpu cycles)
        self.src = (value as u16) << 8u16;
        assert((value as u16) << 8u16 == value as u16 * 256) by (bit_vector)
            requires
                value <= 0xdf,
        ;
        self.dst = 0xfe00;
    }

    /// Read DMA register (0xff46): write only.
    pub fn read(&self) -> (r: u8)
        ensures
            r == 0xff,
    {
        0xff
    }
}

/// A started transfer copies exactly 160 bytes in total when stepped by whole machine cycles.
pub proof fn lemma_dma_transfer_length(value: u8)
    requires
        value <= 0xdf,
    ensures
        ({
            let v = DmaView { src: (value as u16 * 256) as u16, dst: 0xfe00, cycles: 640 };
            let (v1, r) = dma_step_spec(v, 640);
            r == Some(((value as u16 * 256) as u16, 0xfe00u16, 160u16)) && v1.cycles == 0
        }),
{
}

/// A transfer from `base` that has run for `640 - v.cycles` CPU cycles: it has sent one byte
/// per machine cycle, so the next chunk starts right after the bytes sent so far.
pub open spec fn dma_progress(v: DmaView, base: u16) -> bool {
    &&& v.cycles % 4 == 0
    &&& v.cycles <= 640
    &&& base + 160 <= 0xffff
    &&& v.src == base + (640 - v.cycles) / 4
    &&& v.dst == 0xfe00 + (640 - v.cycles) / 4
}

/// Stepping a started transfer by whole machine cycles sends contiguous chunks: each
/// request starts where the bytes sent so far end, in both source and OAM, its length is
/// the machine cycles given or what is left, and the transfer stays on track; once no
/// cycles are left the unit answers `None`. So the chunks of any sequence of steps cover
/// the 160 bytes from `base` once each, with no gap and no overlap.
pub proof fn lemma_dma_steps_contiguous(v: DmaView, base: u16, cycles: nat)
    requires
        dma_progress(v, base),
        cycles % 4 == 0,
    ensures
        dma_progress(dma_step_spec(v, cycles).0, base),
        v.cycles == 0 ==> dma_step_spec(v, cycles).1 is None,
        v.cycles != 0 ==> dma_step_spec(v, cycles).1 == Some(
            (
                (base + (640 - v.cycles) / 4) as u16,
                (0xfe00 + (640 - v.cycles) / 4) as u16,
                min_nat(cycles / 4, v.cycles / 4) as u16,
            ),
        ),
        (640 - dma_step_spec(v, cycles).0.cycles) / 4 == (640 - v.cycles) / 4 + (if v.cycles == 0 {
            0
        } else {
            min_nat(cycles / 4, v.cycles / 4)
        }),
{
}

/// `start` begins a transfer on track with nothing sent.
pub proof fn lemma_dma_start_progress(value: u8)
    requires
        value <= 0xdf,
    ensures
        dma_progress(DmaView { src: (value as u16 * 256) as u16, dst: 0xfe00, cycles: 640 }, (value as u16 * 256) as u16),
{
}

/// The state after steps of the given cycle counts, in order.
pub open spec fn dma_run(v: DmaView, cs: Seq<nat>) -> DmaView
    decreases cs.len(),
{
    if cs.len() == 0 {
        v
    } else {
        dma_step_spec(dma_run(v, cs.drop_last()), cs.last()).0
    }
}

/// The bytes the requests of those steps ask to copy, in total.
pub open spec fn dma_sent(v: DmaView, cs: Seq<nat>) -> nat
    decreases cs.len(),
{
    if cs.len() == 0 {
        0
    } else {
        dma_sent(v, cs.drop_last()) + match dma_step_spec(dma_run(v, cs.drop_last()), cs.last()).1 {
            Some(r) => r.2 as nat,
            None => 0,
        }
    }
}

/// The sum of the cycle counts.
pub open spec fn cycles_sum(cs: Seq<nat>) -> nat
    decreases cs.len(),
{
    if cs.len() == 0 {
        0
    } else {
        cycles_sum(cs.drop_last()) + cs.last()
    }
}

/// A transfer started from `value << 8` and stepped by whole machine cycles: after any
/// sequence of steps it has sent one byte per machine cycle so far, the requests were
/// contiguous (each starts where the bytes sent before it end, by `lemma_dma_steps_contiguous`),
/// and once 640 cycles have passed it has sent exactly 160 bytes and answers `None`.
pub proof fn lemma_dma_sequence(value: u8, cs: Seq<nat>)
    requires
        value <= 0xdf,
        forall|i: int| 0 <= i < cs.len() ==> #[trigger] cs[i] % 4 == 0,
    ensures
        ({
            let base = (value as u16 * 256) as u16;
            let v0 = DmaView { src: base, dst: 0xfe00, cycles: 640 };
            let v = dma_run(v0, cs);
            &&& dma_progress(v, base)
            &&& v.cycles == (if cycles_sum(cs) >= 640 {
                0
            } else {
                640 - cycles_sum(cs)
            })
            &&& dma_sent(v0, cs) == (640 - v.cycles) / 4
            &&& cycles_sum(cs) >= 640 ==> dma_sent(v0, cs) == 160 && dma_step_spec(v, 4).1 is None
        }),
    decreases cs.len(),
{
    let base = (value as u16 * 256) as u16;
    let v0 = DmaView { src: base, dst: 0xfe00, cycles: 640 };
    lemma_dma_start_progress(value);
    if cs.len() > 0 {
        let pre = cs.drop_last();
        assert forall|i: int| 0 <= i < pre.len() implies #[trigger] pre[i] % 4 == 0 by {
            assert(pre[i] == cs[i]);
        }
        lemma_dma_sequence(value, pre);
        assert(cs.last() == cs[cs.len() - 1]);
        lemma_dma_steps_contiguous(dma_run(v0, pre), base, cs.last());
    }
}

} // verus!
