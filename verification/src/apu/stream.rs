//! A stereo sound stream: one amplitude queue per side, written in CPU cycles and read at
//! the host's sample rate.
use crate::apu::buffer::{
    added_sample, open_buffer, sampled, can_get_sample, Consumer, Frame, Producer, RingBuffer,
    UpScaler,
};
use crate::cpu::CPU_FREQ_HZ;
use vstd::prelude::*;

verus! {

/// The number of slots of each queue.
pub const BUF_SIZE: usize = 16384;

/// The longest frame, in CPU cycles, that a queue holds.
pub const MAX_FRAME_SIZE: usize = 1024;

/// The writing end: the amplitudes of the two sides.
pub struct SoundSink {
    pub left: Producer,
    pub right: Producer,
}

/// The reading end: it turns the host's samples into CPU cycles and replays both sides.
pub struct SoundStream {
    pub left: Consumer,
    pub right: Consumer,
    pub upscaler: UpScaler,
}

/// The two queues between a sink and a stream.
pub struct StreamQueues {
    pub left: RingBuffer<Frame>,
    pub right: RingBuffer<Frame>,
}

/// Both queues are well formed.
pub open spec fn queues_wf(q: StreamQueues) -> bool {
    q.left.wf() && q.right.wf()
}

/// The largest value of a side: eight master volume steps, twice, of four channels of
/// amplitude up to fifteen, twice.
pub open spec fn stream_max() -> int {
    8int * 2 * 15 * 4 * 2
}

/// The output value of a side at amplitude `a`: the amplitude centred on half the maximum,
/// doubled.
pub open spec fn side_output(a: int) -> int {
    ((a + stream_max() / 2) as u16) * 2
}

/// Whether the output value of amplitude `a` stays within the machine range.
pub open spec fn side_output_fits(a: int) -> bool {
    isize::MIN <= a + stream_max() / 2 <= isize::MAX && side_output(a) <= u16::MAX
}

/// The CPU cycles of the next sample at sample rate `rate`.
pub open spec fn sample_cycles(u: UpScaler, rate: nat) -> int {
    if u.count >= u.target_rate {
        0
    } else {
        (u.target_rate - u.count + rate - 1) / (rate as int)
    }
}

/// Whether the next pair of samples at `rate` can be read: the upscaler has a sample to
/// give, both sides can spend its cycles, and both outputs fit.
pub open spec fn can_next_dual(s: SoundStream, q: StreamQueues, rate: nat) -> bool {
    let k = sample_cycles(s.upscaler, rate);
    &&& rate > 0
    &&& s.upscaler.target_rate + rate <= usize::MAX
    &&& s.upscaler.count < s.upscaler.target_rate
    &&& can_get_sample(s.left, q.left.contents(), k as nat)
    &&& can_get_sample(s.right, q.right.contents(), k as nat)
    &&& side_output_fits(sampled(s.left, q.left.contents(), k as nat).0)
    &&& side_output_fits(sampled(s.right, q.right.contents(), k as nat).0)
}

/// A sink and a stream over two new queues.
pub fn open_stream() -> (r: (SoundSink, SoundStream, StreamQueues))
    ensures
        r.0 == (SoundSink {
            left: Producer { cycles: 0, amp: 0, max_frame_size: MAX_FRAME_SIZE },
            right: Producer { cycles: 0, amp: 0, max_frame_size: MAX_FRAME_SIZE },
        }),
        r.1 == (SoundStream {
            left: Consumer { amp: 0, cycles: 0, next: None },
            right: Consumer { amp: 0, cycles: 0, next: None },
            upscaler: UpScaler { target_rate: CPU_FREQ_HZ, count: 0 },
        }),
        queues_wf(r.2),
        r.2.left.size() == BUF_SIZE && r.2.right.size() == BUF_SIZE,
        r.2.left.contents() == Seq::<Frame>::empty(),
        r.2.right.contents() == Seq::<Frame>::empty(),
{
    let (lp, lc, lb) = open_buffer(BUF_SIZE, MAX_FRAME_SIZE);
    let (rp, rc, rb) = open_buffer(BUF_SIZE, MAX_FRAME_SIZE);
    (
        SoundSink { left: lp, right: rp },
        SoundStream { left: lc, right: rc, upscaler: UpScaler::new(CPU_FREQ_HZ) },
        StreamQueues { left: lb, right: rb },
    )
}

impl SoundSink {
    /// Adds `cycles` cycles of the amplitudes `amp` (left, right).
    pub fn send(&mut self, q: &mut StreamQueues, cycles: usize, amp: (isize, isize))
        requires
            queues_wf(*old(q)),
            cycles > 0,
            isize::MIN <= amp.0 - old(self).left.amp <= isize::MAX,
            isize::MIN <= amp.1 - old(self).right.amp <= isize::MAX,
        ensures
            queues_wf(*final(q)),
            final(q).left.size() == old(q).left.size(),
            final(q).right.size() == old(q).right.size(),
            (final(self).left, final(q).left.contents()) == added_sample(
                old(self).left,
                old(q).left.contents(),
                old(q).left.size(),
                cycles,
                amp.0,
            ),
            (final(self).right, final(q).right.contents()) == added_sample(
                old(self).right,
                old(q).right.contents(),
                old(q).right.size(),
                cycles,
                amp.1,
            ),
    {
        self.left.add_sample(&mut q.left, cycles, amp.0);
        self.right.add_sample(&mut q.right, cycles, amp.1);
    }
}

impl SoundStream {
    /// The largest output value of a side.
    pub fn max(&self) -> (r: u16)
        ensures
            r == stream_max(),
    {
        8 * 2 * 15 * 4 * 2
    }

    /// The stream always plays.
    pub fn on(&self) -> (r: bool)
        ensures
            r,
    {
        true
    }

    /// The next pair of output values (left, right) at sample rate `rate`.
    pub fn next_dual(&mut self, q: &mut StreamQueues, rate: u32) -> (r: (u16, u16))
        requires
            queues_wf(*old(q)),
            can_next_dual(*old(self), *old(q), rate as nat),
        ensures
            queues_wf(*final(q)),
            final(q).left.size() == old(q).left.size(),
            final(q).right.size() == old(q).right.size(),
            ({
                let k = sample_cycles(old(self).upscaler, rate as nat);
                let (a, lc, lq) = sampled(old(self).left, old(q).left.contents(), k as nat);
                let (b, rc, rq) = sampled(old(self).right, old(q).right.contents(), k as nat);
                &&& r.0 == side_output(a)
                &&& r.1 == side_output(b)
                &&& final(self).left == lc && final(q).left.contents() == lq
                &&& final(self).right == rc && final(q).right.contents() == rq
                &&& final(self).upscaler == (UpScaler {
                    count: (old(self).upscaler.count + k * rate - old(self).upscaler.target_rate)
                        as usize,
                    ..old(self).upscaler
                })
            }),
    {
        let cycles = self.upscaler.compute_cycles(rate as usize);
        proof {
            let t = old(self).upscaler.target_rate as int;
            let c = old(self).upscaler.count as int;
            let rr = rate as int;
            assert((t - c + rr - 1) / rr >= 1) by (nonlinear_arith)
                requires
                    t - c >= 1,
                    rr > 0,
            ;
        }
        let left = self.left.get_sample(&mut q.left, cycles);
        let right = self.right.get_sample(&mut q.right, cycles);
        let center = (self.max() / 2) as isize;
        ((left + center) as u16 * 2, (right + center) as u16 * 2)
    }

    /// The next output value at sample rate `rate`: the mean of the two sides.
    pub fn next(&mut self, q: &mut StreamQueues, rate: u32) -> (r: u16)
        requires
            queues_wf(*old(q)),
            can_next_dual(*old(self), *old(q), rate as nat),
            ({
                let k = sample_cycles(old(self).upscaler, rate as nat);
                let a = sampled(old(self).left, old(q).left.contents(), k as nat).0;
                let b = sampled(old(self).right, old(q).right.contents(), k as nat).0;
                side_output(a) + side_output(b) <= u16::MAX
            }),
        ensures
            queues_wf(*final(q)),
            final(q).left.size() == old(q).left.size(),
            final(q).right.size() == old(q).right.size(),
            ({
                let k = sample_cycles(old(self).upscaler, rate as nat);
                let (a, lc, lq) = sampled(old(self).left, old(q).left.contents(), k as nat);
                let (b, rc, rq) = sampled(old(self).right, old(q).right.contents(), k as nat);
                &&& r == (side_output(a) + side_output(b)) / 2
                &&& final(self).left == lc && final(q).left.contents() == lq
                &&& final(self).right == rc && final(q).right.contents() == rq
                &&& final(self).upscaler == (UpScaler {
                    count: (old(self).upscaler.count + k * rate - old(self).upscaler.target_rate)
                        as usize,
                    ..old(self).upscaler
                })
            }),
    {
        let (left, right) = self.next_dual(q, rate);
        (left + right) / 2
    }
}

} // verus!
