use vstd::prelude::*;

verus! {

/// A change of amplitude after some cycles.
#[derive(Debug, Clone, Copy, Default)]
pub struct Frame {
    pub cycles: usize,
    pub diff: isize,
}

impl Frame {
    pub fn new(cycles: usize, diff: isize) -> (r: Self)
        ensures
            r == (Frame { cycles, diff }),
    {
        Self { cycles, diff }
    }
}

/// The number of queued items given the positions of the reader and the writer.
pub open spec fn ring_count(reader: int, writer: int, size: int) -> int {
    if writer >= reader {
        writer - reader
    } else {
        writer + size - reader
    }
}

/// A bounded FIFO queue over a fixed array of slots; one slot always stays free.
pub struct RingBuffer<T> {
    events: Vec<T>,
    reader: usize,
    writer: usize,
}

impl<T: Copy + Default> RingBuffer<T> {
    /// The slots, and the positions of the reader and the writer stay consistent.
    pub closed spec fn wf(&self) -> bool {
        &&& self.events@.len() > 0
        &&& self.reader < self.events@.len()
        &&& self.writer < self.events@.len()
    }

    /// The number of slots; the queue holds at most one less.
    pub closed spec fn size(&self) -> nat {
        self.events@.len()
    }

    /// The queued items, oldest first.
    pub closed spec fn contents(&self) -> Seq<T> {
        Seq::new(
            ring_count(self.reader as int, self.writer as int, self.events@.len() as int) as nat,
            |i: int| self.events@[(self.reader + i) % (self.events@.len() as int)],
        )
    }

    pub proof fn lemma_capacity(&self)
        requires
            self.wf(),
        ensures
            self.contents().len() < self.size(),
    {
    }

    /// A queue with `size` slots, holding at most `size - 1` items.
    pub fn new(size: usize) -> (r: Self)
        requires
            size > 0,
        ensures
            r.wf(),
            r.size() == size,
            r.contents() == Seq::<T>::empty(),
    {
        let r = Self { events: vec![T::default(); size], reader: 0, writer: 0 };
        assert(r.contents() =~= Seq::<T>::empty());
        r
    }

    /// Appends an item; returns `false` and leaves the queue unchanged when it is full.
    pub fn push(&mut self, event: T) -> (r: bool)
        requires
            old(self).wf(),
        ensures
            final(self).wf(),
            final(self).size() == old(self).size(),
            r == (old(self).contents().len() + 1 < old(self).size()),
            r ==> final(self).contents() == old(self).contents().push(event),
            !r ==> final(self).contents() == old(self).contents(),
    {
        let ghost old_contents = self.contents();
        let ghost len = self.events@.len() as int;
        let ghost rd = self.reader as int;
        let ghost count = ring_count(self.reader as int, self.writer as int, len);
        proof {
            lemma_ring_writer(rd, self.writer as int, len);
        }
        self.events.set(self.writer, event);
        proof {
            // The writer's slot is not part of the queue, so the queue is unchanged.
            assert forall|i: int| 0 <= i < count implies #[trigger] self.contents()[i]
                == old_contents[i] by {
                lemma_ring_slot_distinct(rd, i, count, len);
            }
            assert(self.contents() =~= old_contents);
        }
        let n = self.events.len();
        let next_writer = (self.writer + 1) % n;
        if next_writer == self.reader {
            proof {
                lemma_ring_full(rd, self.writer as int, len);
            }
            return false;
        }
        proof {
            lemma_ring_advance(rd, self.writer as int, len);
        }
        self.writer = next_writer;
        proof {
            assert forall|i: int| 0 <= i < count implies #[trigger] self.contents()[i]
                == old_contents[i] by {
                lemma_ring_slot_distinct(rd, i, count, len);
            }
            assert(self.contents() =~= old_contents.push(event));
        }
        true
    }

    /// Removes and returns the oldest item, if any.
    pub fn pop(&mut self) -> (r: Option<T>)
        requires
            old(self).wf(),
        ensures
            final(self).wf(),
            final(self).size() == old(self).size(),
            old(self).contents().len() == 0 ==> r is None && final(self).contents() == old(
                self,
            ).contents(),
            old(self).contents().len() > 0 ==> r == Some(old(self).contents()[0])
                && final(self).contents() == old(self).contents().drop_first(),
    {
        if self.reader == self.writer {
            None
        } else {
            let ghost len = self.events@.len() as int;
            let ghost old_contents = self.contents();
            let event = self.events[self.reader];
            proof {
                assert(old_contents[0] == self.events@[(self.reader as int) % len]);
                vstd::arithmetic::div_mod::lemma_small_mod(self.reader as nat, len as nat);
            }
            let n = self.events.len();
            self.reader = (self.reader + 1) % n;
            proof {
                lemma_ring_pop(old(self).reader as int, self.writer as int, len);
                assert forall|i: int| 0 <= i < old_contents.len() - 1 implies #[trigger] self.contents()[i]
                    == old_contents[i + 1] by {
                    lemma_mod_shift(old(self).reader as int, i, len);
                }
                assert(self.contents() =~= old_contents.drop_first());
            }
            Some(event)
        }
    }
}

proof fn lemma_ring_writer(r: int, w: int, len: int)
    requires
        0 <= r < len,
        0 <= w < len,
    ensures
        (r + ring_count(r, w, len)) % len == w,
        0 <= ring_count(r, w, len) < len,
{
    if w >= r {
        vstd::arithmetic::div_mod::lemma_small_mod(w as nat, len as nat);
    } else {
        vstd::arithmetic::div_mod::lemma_mod_add_multiples_vanish(w, len);
        vstd::arithmetic::div_mod::lemma_small_mod(w as nat, len as nat);
        assert(r + ring_count(r, w, len) == len + w);
    }
}

proof fn lemma_ring_slot_distinct(r: int, i: int, count: int, len: int)
    requires
        0 <= r < len,
        0 <= i < count,
        count < len,
    ensures
        (r + i) % len != (r + count) % len,
{
    let a = r + i;
    let b = r + count;
    assert(0 <= a < b < a + len);
    if a < len {
        vstd::arithmetic::div_mod::lemma_small_mod(a as nat, len as nat);
        if b < len {
            vstd::arithmetic::div_mod::lemma_small_mod(b as nat, len as nat);
        } else {
            vstd::arithmetic::div_mod::lemma_mod_sub_multiples_vanish(b, len);
            vstd::arithmetic::div_mod::lemma_small_mod((b - len) as nat, len as nat);
        }
    } else {
        vstd::arithmetic::div_mod::lemma_mod_sub_multiples_vanish(a, len);
        vstd::arithmetic::div_mod::lemma_small_mod((a - len) as nat, len as nat);
        vstd::arithmetic::div_mod::lemma_mod_sub_multiples_vanish(b, len);
        vstd::arithmetic::div_mod::lemma_small_mod((b - len) as nat, len as nat);
    }
}

proof fn lemma_ring_full(r: int, w: int, len: int)
    requires
        0 <= r < len,
        0 <= w < len,
        (w + 1) % len == r,
    ensures
        ring_count(r, w, len) + 1 == len,
{
    if w + 1 < len {
        vstd::arithmetic::div_mod::lemma_small_mod((w + 1) as nat, len as nat);
    } else {
        vstd::arithmetic::div_mod::lemma_mod_self_0(len);
    }
}

proof fn lemma_ring_advance(r: int, w: int, len: int)
    requires
        0 <= r < len,
        0 <= w < len,
        (w + 1) % len != r,
    ensures
        ring_count(r, (w + 1) % len, len) == ring_count(r, w, len) + 1,
        ring_count(r, w, len) + 1 < len,
{
    if w + 1 < len {
        vstd::arithmetic::div_mod::lemma_small_mod((w + 1) as nat, len as nat);
    } else {
        vstd::arithmetic::div_mod::lemma_mod_self_0(len);
    }
}

proof fn lemma_ring_pop(r: int, w: int, len: int)
    requires
        0 <= r < len,
        0 <= w < len,
        r != w,
    ensures
        ring_count((r + 1) % len, w, len) == ring_count(r, w, len) - 1,
{
    if r + 1 < len {
        vstd::arithmetic::div_mod::lemma_small_mod((r + 1) as nat, len as nat);
    } else {
        vstd::arithmetic::div_mod::lemma_mod_self_0(len);
    }
}

proof fn lemma_mod_shift(r: int, i: int, len: int)
    requires
        0 <= r < len,
        0 <= i,
    ensures
        ((r + 1) % len + i) % len == (r + (i + 1)) % len,
{
    // ((r + 1) % len + i) % len == ((r + 1) + i) % len
    vstd::arithmetic::div_mod::lemma_add_mod_noop(r + 1, i, len);
    vstd::arithmetic::div_mod::lemma_add_mod_noop((r + 1) % len, i, len);
    vstd::arithmetic::div_mod::lemma_mod_twice(r + 1, len);
}

/// Items come out in the order they went in: pushing to an empty queue and popping gives the
/// item back and leaves the queue empty again.
pub proof fn lemma_ring_fifo<T>(before: Seq<T>, pushed: T)
    ensures
        before.push(pushed).drop_first() == (if before.len() == 0 {
            Seq::<T>::empty()
        } else {
            before.drop_first().push(pushed)
        }),
        before.len() == 0 ==> before.push(pushed)[0] == pushed,
{
    if before.len() == 0 {
        assert(before.push(pushed).drop_first() =~= Seq::<T>::empty());
    } else {
        assert(before.push(pushed).drop_first() =~= before.drop_first().push(pushed));
    }
}

// ---------------------------------------------------------------------------------------------
// Amplitude stream
// ---------------------------------------------------------------------------------------------

/// The writing end of an amplitude stream: it queues a frame whenever the amplitude changes
/// or a frame grows to the maximum length.
pub struct Producer {
    pub cycles: usize,
    pub amp: isize,
    pub max_frame_size: usize,
}

/// The reading end of an amplitude stream: it replays the queued frames at its own pace.
pub struct Consumer {
    pub amp: isize,
    pub cycles: usize,
    pub next: Option<Frame>,
}

/// A producer and a consumer over a new queue of `buf_size` slots.
pub fn open_buffer(buf_size: usize, max_frame_size: usize) -> (r: (Producer, Consumer, RingBuffer<Frame>))
    requires
        buf_size > 0,
    ensures
        r.0 == (Producer { cycles: 0, amp: 0, max_frame_size }),
        r.1 == (Consumer { amp: 0, cycles: 0, next: None }),
        r.2.wf(),
        r.2.size() == buf_size,
        r.2.contents() == Seq::<Frame>::empty(),
{
    (
        Producer { cycles: 0, amp: 0, max_frame_size },
        Consumer { amp: 0, cycles: 0, next: None },
        RingBuffer::new(buf_size),
    )
}

/// The producer and the queue after `add_sample(cycles, amp)` on a queue of `size` slots.
pub open spec fn added_sample(p: Producer, q: Seq<Frame>, size: nat, cycles: usize, amp: isize) -> (Producer, Seq<Frame>) {
    let c = p.cycles.saturating_add(cycles);
    let f = Frame { cycles: c, diff: (amp - p.amp) as isize };
    if (p.amp != amp || c >= p.max_frame_size) && q.len() + 1 < size {
        (Producer { cycles: 0, amp, ..p }, q.push(f))
    } else {
        (Producer { cycles: c, ..p }, q)
    }
}

impl Producer {
    /// Adds `cycles` cycles of amplitude `amp`. The frame so far is queued, with the change
    /// of amplitude it ends in, when the amplitude changes or the frame reaches the maximum
    /// length; when the queue is full the frame keeps growing instead.
    pub fn add_sample(&mut self, buf: &mut RingBuffer<Frame>, cycles: usize, amp: isize)
        requires
            old(buf).wf(),
            cycles > 0,
            isize::MIN <= amp - old(self).amp <= isize::MAX,
        ensures
            final(buf).wf(),
            final(buf).size() == old(buf).size(),
            (*final(self), final(buf).contents()) == added_sample(
                *old(self),
                old(buf).contents(),
                old(buf).size(),
                cycles,
                amp,
            ),
            ({
                let c = old(self).cycles.saturating_add(cycles);
                let f = Frame { cycles: c, diff: (amp - old(self).amp) as isize };
                if (old(self).amp != amp || c >= old(self).max_frame_size) && old(buf).contents().len()
                    + 1 < old(buf).size() {
                    &&& final(buf).contents() == old(buf).contents().push(f)
                    &&& *final(self) == Producer { cycles: 0, amp, ..*old(self) }
                } else {
                    &&& final(buf).contents() == old(buf).contents()
                    &&& *final(self) == Producer { cycles: c, ..*old(self) }
                }
            }),
    {
        self.cycles = self.cycles.saturating_add(cycles);
        if self.amp != amp || self.cycles >= self.max_frame_size {
            if buf.push(Frame::new(self.cycles, amp - self.amp)) {
                self.cycles = 0;
                self.amp = amp;
            }
        }
    }
}

/// The next queued frame, if any, and the queue after taking it.
pub open spec fn take_frame(q: Seq<Frame>) -> (Option<Frame>, Seq<Frame>) {
    if q.len() > 0 {
        (Some(q[0]), q.drop_first())
    } else {
        (None, q)
    }
}

/// The consumer after spending `cycles` pending cycles on the frame `next` and the queued
/// frames `q`: each whole frame applies its change of amplitude; the frame left partly spent
/// keeps its remaining length. Returns the amplitude, the cycles left over, the pending frame
/// and the queue.
pub open spec fn drain(amp: int, cycles: nat, next: Option<Frame>, q: Seq<Frame>) -> (int, nat, Option<Frame>, Seq<Frame>)
    decreases q.len(), if next is Some { 1nat } else { 0nat },
{
    match next {
        None => (amp, cycles, None, q),
        Some(e) => if cycles >= e.cycles {
            let (n2, q2) = take_frame(q);
            drain(amp + e.diff, (cycles - e.cycles) as nat, n2, q2)
        } else {
            (amp, 0, Some(Frame { cycles: (e.cycles - cycles) as usize, ..e }), q)
        },
    }
}

/// Whether every amplitude `drain` passes through fits in an `isize`.
pub open spec fn drain_fits(amp: int, cycles: nat, next: Option<Frame>, q: Seq<Frame>) -> bool
    decreases q.len(), if next is Some { 1nat } else { 0nat },
{
    match next {
        None => true,
        Some(e) => if cycles >= e.cycles {
            let (n2, q2) = take_frame(q);
            isize::MIN <= amp + e.diff <= isize::MAX && drain_fits(
                amp + e.diff,
                (cycles - e.cycles) as nat,
                n2,
                q2,
            )
        } else {
            true
        },
    }
}

/// Whether `get_sample(cycles)` stays within the machine range on the queue `q`.
pub open spec fn can_get_sample(c: Consumer, q: Seq<Frame>, cycles: nat) -> bool {
    let (n0, q0) = if c.next is None {
        take_frame(q)
    } else {
        (c.next, q)
    };
    &&& c.cycles + cycles <= usize::MAX
    &&& drain_fits(c.amp as int, (c.cycles + cycles) as nat, n0, q0)
}

/// The amplitude read, the consumer and the queue after `get_sample(cycles)`.
pub open spec fn sampled(c: Consumer, q: Seq<Frame>, cycles: nat) -> (int, Consumer, Seq<Frame>) {
    let (n0, q0) = if c.next is None {
        take_frame(q)
    } else {
        (c.next, q)
    };
    if n0 is None {
        (c.amp as int, c, q)
    } else {
        let (a, k, n, q1) = drain(c.amp as int, (c.cycles + cycles) as nat, n0, q0);
        (a, Consumer { amp: a as isize, cycles: k as usize, next: n }, q1)
    }
}

impl Consumer {
    /// The amplitude after `cycles` more cycles. With nothing pending and nothing queued, the
    /// last amplitude holds and the cycles are not counted.
    pub fn get_sample(&mut self, buf: &mut RingBuffer<Frame>, cycles: usize) -> (r: isize)
        requires
            old(buf).wf(),
            cycles > 0,
            can_get_sample(*old(self), old(buf).contents(), cycles as nat),
        ensures
            final(buf).wf(),
            final(buf).size() == old(buf).size(),
            (r as int, *final(self), final(buf).contents()) == sampled(
                *old(self),
                old(buf).contents(),
                cycles as nat,
            ),
            ({
                let (n0, q0) = if old(self).next is None {
                    take_frame(old(buf).contents())
                } else {
                    (old(self).next, old(buf).contents())
                };
                if n0 is None {
                    &&& r == old(self).amp
                    &&& *final(self) == *old(self)
                    &&& final(buf).contents() == old(buf).contents()
                } else {
                    let (a, c, n, q) = drain(old(self).amp as int, (old(self).cycles + cycles) as nat, n0, q0);
                    &&& r == a
                    &&& final(self).amp == a
                    &&& final(self).cycles == c
                    &&& final(self).next == n
                    &&& final(buf).contents() == q
                }
            }),
    {
        if self.next.is_none() {
            self.next = buf.pop();
            if self.next.is_none() {
                // No new frame. Wait for a new frame arrival.
                // Keep the last amp until the new frame arrives.
                return self.amp;
            }
        }
        self.cycles = self.cycles + cycles;
        let ghost target = drain(self.amp as int, self.cycles as nat, self.next, buf.contents());
        loop
            invariant_except_break
                buf.wf(),
                buf.size() == old(buf).size(),
                drain(self.amp as int, self.cycles as nat, self.next, buf.contents()) == target,
                drain_fits(self.amp as int, self.cycles as nat, self.next, buf.contents()),
            ensures
                buf.wf(),
                buf.size() == old(buf).size(),
                target == (self.amp as int, self.cycles as nat, self.next, buf.contents()),
            decreases buf.contents().len(), if self.next is Some { 1nat } else { 0nat },
        {
            match self.next {
                Some(e) => {
                    if self.cycles >= e.cycles {
                        self.cycles = self.cycles - e.cycles;
                        self.amp = self.amp + e.diff;
                        self.next = buf.pop();
                    } else {
                        self.next = Some(Frame { cycles: e.cycles - self.cycles, diff: e.diff });
                        self.cycles = 0;
                        break;
                    }
                },
                None => break,
            }
        }
        self.amp
    }
}

/// Turns the host's sample rate into CPU cycles per sample, carrying the remainder.
#[derive(Clone)]
pub struct UpScaler {
    pub target_rate: usize,
    pub count: usize,
}

impl UpScaler {
    pub fn new(target_rate: usize) -> (r: Self)
        ensures
            r == (UpScaler { target_rate, count: 0 }),
    {
        Self { target_rate, count: 0 }
    }

    /// The cycles of the next sample at sample rate `rate`: the least number of steps of
    /// `rate` that bring the count to the target rate, which is then taken off the count.
    pub fn compute_cycles(&mut self, rate: usize) -> (r: usize)
        requires
            rate > 0,
            old(self).target_rate + rate <= usize::MAX,
            old(self).count <= old(self).target_rate + rate,
        ensures
            r == (if old(self).count >= old(self).target_rate {
                0
            } else {
                (old(self).target_rate - old(self).count + rate - 1) / (rate as int)
            }),
            final(self).count == old(self).count + r * rate - old(self).target_rate,
            final(self).target_rate == old(self).target_rate,
            final(self).count < rate || r == 0,
    {
        let mut cycles: usize = 0;
        while self.count < self.target_rate
            invariant
                rate > 0,
                self.target_rate == old(self).target_rate,
                self.target_rate + rate <= usize::MAX,
                self.count == old(self).count + cycles * rate,
                old(self).count < self.target_rate ==> self.count < self.target_rate + rate,
                old(self).count >= self.target_rate ==> cycles == 0,
                old(self).count < self.target_rate ==> (cycles == 0 || self.count - rate < self.target_rate),
                cycles <= self.count,
            decreases self.target_rate + rate - self.count,
        {
            proof {
                let k = cycles as int;
                assert((k + 1) * rate == k * rate + rate) by (nonlinear_arith);
            }
            self.count = self.count + rate;
            cycles = cycles + 1;
        }
        proof {
            let t = old(self).target_rate as int;
            let c0 = old(self).count as int;
            let k = cycles as int;
            let rr = rate as int;
            if c0 < t {
                assert(c0 + k * rr >= t);
                assert(k >= 1) by (nonlinear_arith)
                    requires
                        c0 + k * rr >= t,
                        c0 < t,
                        k >= 0,
                ;
                assert(c0 + (k - 1) * rr < t) by (nonlinear_arith)
                    requires
                        c0 + k * rr - rr < t,
                ;
                assert(k == (t - c0 + rr - 1) / rr) by (nonlinear_arith)
                    requires
                        c0 + (k - 1) * rr < t,
                        c0 + k * rr >= t,
                        rr > 0,
                ;
            }
        }
        self.count = self.count - self.target_rate;
        cycles
    }
}

/// A consumer in step with the producer (same amplitude, nothing pending, nothing queued)
/// reads back the amplitude the producer changed to, once it has spent the cycles of the
/// frame that carries the change, and keeps the cycles beyond it.
pub proof fn lemma_stream_replays(amp: isize, frame_cycles: usize, new_amp: isize, cycles: nat)
    requires
        cycles >= frame_cycles,
        isize::MIN <= new_amp - amp <= isize::MAX,
    ensures
        drain(
            amp as int,
            cycles,
            Some(Frame { cycles: frame_cycles, diff: (new_amp - amp) as isize }),
            Seq::<Frame>::empty(),
        ) == (new_amp as int, (cycles - frame_cycles) as nat, None::<Frame>, Seq::<Frame>::empty()),
{
    let q = Seq::<Frame>::empty();
    let f = Frame { cycles: frame_cycles, diff: (new_amp - amp) as isize };
    assert(take_frame(q) == (None::<Frame>, q));
    assert(drain(amp + f.diff, (cycles - frame_cycles) as nat, None, q) == (
        amp + f.diff,
        (cycles - frame_cycles) as nat,
        None::<Frame>,
        q,
    ));
}

} // verus!
