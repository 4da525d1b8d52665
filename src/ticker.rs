//! A wake source with a fixed period. Deadlines follow one another by exactly
//! one period from the origin, however late each wake is serviced.
use vstd::prelude::*;

verus! {

#[derive(Clone, Copy, Debug, PartialEq, Eq, Structural)]
pub struct PeriodicTicker {
    pub origin: u64,
    pub period: u64,
    /// How many times the ticker has fired.
    pub fires: u64,
    pub next_deadline: u64,
}

impl PeriodicTicker {
    /// The `k`-th deadline after the origin, counting from one.
    pub open spec fn deadline(self, k: int) -> int {
        self.origin + k * self.period
    }

    /// The period is positive and the next deadline is the one after the
    /// fires so far.
    pub open spec fn wf(self) -> bool {
        &&& self.period > 0
        &&& self.next_deadline == self.deadline(self.fires + 1)
    }

    /// A ticker started at tick `now`; it first fires one period later.
    pub fn every(now: u64, period: u64) -> (r: PeriodicTicker)
        requires
            period > 0,
            now + period <= u64::MAX,
        ensures
            r.wf(),
            r.origin == now,
            r.period == period,
            r.fires == 0,
            r.next_deadline == now + period,
    {
        let r = PeriodicTicker { origin: now, period, fires: 0, next_deadline: now + period };
        assert(r.deadline(1) == now + period) by (nonlinear_arith)
            requires r.origin == now, r.period == period;
        r
    }

    /// Polls the ticker at tick `now`. It fires when its deadline has passed;
    /// the next deadline is then one period after the one just met, not
    /// after `now`, so lateness does not accumulate.
    pub fn poll(&mut self, now: u64) -> (fired: bool)
        requires
            old(self).wf(),
            old(self).next_deadline + old(self).period <= u64::MAX,
            old(self).fires < u64::MAX,
        ensures
            final(self).wf(),
            final(self).origin == old(self).origin,
            final(self).period == old(self).period,
            fired == (now >= old(self).next_deadline),
            fired ==> final(self).fires == old(self).fires + 1,
            fired ==> final(self).next_deadline == old(self).next_deadline + old(self).period,
            !fired ==> *final(self) == *old(self),
    {
        if now >= self.next_deadline {
            proof {
                assert(self.deadline(self.fires + 2) == self.next_deadline + self.period)
                    by (nonlinear_arith)
                    requires
                        self.next_deadline == self.origin + (self.fires + 1) * self.period;
            }
            self.next_deadline = self.next_deadline + self.period;
            self.fires = self.fires + 1;
            true
        } else {
            false
        }
    }
}

/// Two consecutive firings, each serviced no more than `jitter` ticks after
/// its deadline, lie one period apart give or take `jitter`, whatever else
/// delayed the service.
pub proof fn lemma_fire_spacing(t: PeriodicTicker, k: int, jitter: int, first: int, second: int)
    requires
        t.wf(),
        jitter >= 0,
        t.deadline(k) <= first <= t.deadline(k) + jitter,
        t.deadline(k + 1) <= second <= t.deadline(k + 1) + jitter,
    ensures
        t.period - jitter <= second - first <= t.period + jitter,
{
    assert(t.deadline(k + 1) == t.deadline(k) + t.period) by (nonlinear_arith);
}

} // verus!
