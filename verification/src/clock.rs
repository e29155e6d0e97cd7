//! The fixed-rate tick clock: it turns elapsed wall time into a whole
//! number of simulation ticks, honouring the target rate and capping the
//! catch-up work done in any one frame.

use vstd::prelude::*;

use crate::state::valid_rate;
use crate::{MAX_TICKS_PER_FRAME, MIN_RATE};

verus! {

/// Highest time value, in microseconds since the clock's epoch, that the
/// clock is specified for: about thirty years of run time.
pub const TIME_LIMIT_US: u64 = 1_000_000_000_000_000;

/// Longest tick interval: one tick at the slowest rate.
pub const MAX_INTERVAL_US: u64 = 100_000;

/// The deadline never passes the time limit by more than one frame's worth
/// of capped ticks.
pub const DEADLINE_BOUND_US: u64 = TIME_LIMIT_US + MAX_TICKS_PER_FRAME as u64 * MAX_INTERVAL_US;

/// Length of one tick interval at `rate` ticks per second, in microseconds.
pub open spec fn interval_us(rate: u32) -> int {
    1_000_000 as int / rate as int
}

/// Number of ticks owed after `elapsed` microseconds past the deadline at
/// tick interval `ivl`: one for reaching the deadline plus one per further
/// whole interval, capped at `MAX_TICKS_PER_FRAME`.
pub open spec fn capped_ticks(elapsed: int, ivl: int) -> int {
    if elapsed / ivl + 1 >= MAX_TICKS_PER_FRAME as int {
        MAX_TICKS_PER_FRAME as int
    } else {
        elapsed / ivl + 1
    }
}

/// At any valid rate the tick interval lies between one tick of the fastest
/// rate and one tick of the slowest.
pub proof fn lemma_interval_bounds(rate: u32)
    requires
        valid_rate(rate),
    ensures
        12_500 <= interval_us(rate) <= MAX_INTERVAL_US,
{
    vstd::arithmetic::div_mod::lemma_div_is_ordered_by_denominator(1_000_000, MIN_RATE as int, rate as int);
    vstd::arithmetic::div_mod::lemma_div_is_ordered_by_denominator(1_000_000, rate as int, 80);
}

/// The fixed-rate driver. It remembers only the next tick deadline; the
/// rate is handed in by the caller, so that a rate change needs no more
/// than a reset.
pub struct Clock {
    pub deadline_us: u64,
}

impl Clock {
    /// The deadline stays within the specified time range.
    pub open spec fn wf(&self) -> bool {
        self.deadline_us <= DEADLINE_BOUND_US
    }

    /// A clock whose first tick falls one interval after `now_us`.
    pub fn new(now_us: u64, rate: u32) -> (c: Clock)
        requires
            valid_rate(rate),
            now_us <= TIME_LIMIT_US,
        ensures
            c.wf(),
            c.deadline_us == now_us + interval_us(rate),
    {
        proof {
            lemma_interval_bounds(rate);
        }
        let ivl = (1_000_000 / rate) as u64;
        Clock { deadline_us: now_us + ivl }
    }

    /// Forget any accumulated lateness: the next tick falls one whole
    /// interval after `now_us`. Called when the rate changes and when the
    /// simulation resumes after editing, so that no burst of catch-up ticks
    /// follows a pause.
    pub fn reset(&mut self, now_us: u64, rate: u32)
        requires
            valid_rate(rate),
            now_us <= TIME_LIMIT_US,
        ensures
            final(self).wf(),
            final(self).deadline_us == now_us + interval_us(rate),
    {
        proof {
            lemma_interval_bounds(rate);
        }
        let ivl = (1_000_000 / rate) as u64;
        self.deadline_us = now_us + ivl;
    }

    /// The number of whole tick intervals elapsed since the deadline,
    /// capped at `MAX_TICKS_PER_FRAME`; the deadline advances by exactly
    /// the ticks returned. Before the deadline no tick is due.
    pub fn ticks_due(&mut self, now_us: u64, rate: u32) -> (k: u32)
        requires
            old(self).wf(),
            valid_rate(rate),
            now_us <= TIME_LIMIT_US,
        ensures
            final(self).wf(),
            k <= MAX_TICKS_PER_FRAME,
            now_us < old(self).deadline_us ==> k == 0 && final(self).deadline_us == old(
                self,
            ).deadline_us,
            now_us >= old(self).deadline_us ==> k as int == capped_ticks(
                now_us - old(self).deadline_us,
                interval_us(rate),
            ),
            now_us >= old(self).deadline_us ==> final(self).deadline_us == old(self).deadline_us
                + k as int * interval_us(rate),
    {
        proof {
            lemma_interval_bounds(rate);
        }
        let ivl = (1_000_000 / rate) as u64;
        if now_us < self.deadline_us {
            return 0;
        }
        let elapsed = now_us - self.deadline_us;
        let due = elapsed / ivl;
        let k: u32 = if due + 1 >= MAX_TICKS_PER_FRAME as u64 {
            MAX_TICKS_PER_FRAME
        } else {
            (due + 1) as u32
        };
        proof {
            vstd::arithmetic::mul::lemma_mul_upper_bound(
                k as int,
                MAX_TICKS_PER_FRAME as int,
                ivl as int,
                MAX_INTERVAL_US as int,
            );
        }
        self.deadline_us = self.deadline_us + (k as u64) * ivl;
        k
    }
}

} // verus!
