//! The speed governor: hands out CPU cycles at the target frequency of wall-clock time.
use vstd::prelude::*;

use crate::system::Config;

verus! {

/// Cycles granted against the machine clock (in microseconds).
pub struct FreqControl {
    pub last: u64,
    pub refill_interval: u64,
    pub target_freq: u64,
    pub remaining_cycles: u64,
}

/// The state after the clock reads `now`: once at least the refill interval has passed since
/// the last grant, the cycles of the time passed at the target frequency are granted.
pub open spec fn fill_spec(f: FreqControl, now: u64) -> FreqControl {
    let diff = if now >= f.last {
        now - f.last
    } else {
        0
    };
    if diff >= f.refill_interval {
        FreqControl {
            last: now,
            remaining_cycles: (f.remaining_cycles + f.target_freq * diff / 1_000_000) as u64,
            ..f
        }
    } else {
        f
    }
}

/// Whether a grant at `now` stays within the machine range.
pub open spec fn can_fill(f: FreqControl, now: u64) -> bool {
    let diff = if now >= f.last {
        now - f.last
    } else {
        0
    };
    f.target_freq * diff <= u64::MAX && f.remaining_cycles + f.target_freq * diff / 1_000_000
        <= u64::MAX
}

impl FreqControl {
    /// A governor for the configured frequency, granting at most every `delay_unit`
    /// microseconds.
    pub fn new(cfg: &Config) -> (r: Self)
        ensures
            r == (FreqControl {
                last: 0,
                refill_interval: cfg.delay_unit,
                target_freq: cfg.freq,
                remaining_cycles: 0,
            }),
    {
        Self { last: 0, refill_interval: cfg.delay_unit, target_freq: cfg.freq, remaining_cycles: 0 }
    }

    /// Starts counting from the clock reading `now`.
    pub fn reset(&mut self, now: u64)
        ensures
            *final(self) == (FreqControl { last: now, ..*old(self) }),
    {
        self.last = now;
    }

    /// Grants the cycles due at the clock reading `now`.
    pub fn try_fill(&mut self, now: u64)
        requires
            can_fill(*old(self), now),
        ensures
            *final(self) == fill_spec(*old(self), now),
    {
        let diff = now.saturating_sub(self.last);
        if diff >= self.refill_interval {
            self.last = now;
            self.remaining_cycles = self.remaining_cycles + self.target_freq * diff / 1_000_000;
        }
    }

    /// Spends `time` cycles if that many are granted; the caller refills and retries
    /// otherwise.
    pub fn consume(&mut self, time: usize) -> (r: bool)
        ensures
            r == (old(self).remaining_cycles >= time),
            r ==> *final(self) == (FreqControl {
                remaining_cycles: (old(self).remaining_cycles - time) as u64,
                ..*old(self)
            }),
            !r ==> *final(self) == *old(self),
    {
        let consumed = time as u64;
        if self.remaining_cycles >= consumed {
            self.remaining_cycles = self.remaining_cycles - consumed;
            true
        } else {
            false
        }
    }
}

} // verus!
