use vstd::prelude::*;

verus! {

/// The answer to a request for a permit under an admission deadline.
#[derive(PartialEq, Eq, Structural, Clone, Copy, Debug)]
pub enum Admission {
    Granted,
    Wait,
    Expired,
}

/// Fixed-capacity admission: a counting semaphore's state.
pub struct BoundedPool {
    pub capacity: usize,
    pub in_use: usize,
}

impl BoundedPool {
    /// Outstanding permits never exceed the capacity.
    pub open spec fn wf(&self) -> bool {
        self.in_use <= self.capacity
    }

    pub fn new(capacity: usize) -> (r: BoundedPool)
        ensures
            r.wf(),
            r.capacity == capacity,
            r.in_use == 0,
    {
        BoundedPool { capacity, in_use: 0 }
    }

    /// Takes a permit if one is free; the caller waits and tries again
    /// otherwise.
    pub fn try_acquire(&mut self) -> (r: bool)
        requires
            old(self).wf(),
        ensures
            final(self).wf(),
            r == (old(self).in_use < old(self).capacity),
            final(self).capacity == old(self).capacity,
            final(self).in_use == if r { old(self).in_use + 1 } else { old(self).in_use as int },
    {
        if self.in_use < self.capacity {
            self.in_use = self.in_use + 1;
            true
        } else {
            false
        }
    }

    /// Acquisition with an admission deadline: a free permit is granted; with
    /// none free the caller waits, until it has waited `limit`, after which
    /// the attempt is abandoned as a timeout. Only a grant takes a permit.
    pub fn acquire_within(&mut self, waited: u64, limit: u64) -> (r: Admission)
        requires
            old(self).wf(),
        ensures
            final(self).wf(),
            final(self).capacity == old(self).capacity,
            old(self).in_use < old(self).capacity ==> r is Granted && final(self).in_use
                == old(self).in_use + 1,
            old(self).in_use >= old(self).capacity ==> final(self).in_use == old(self).in_use,
            old(self).in_use >= old(self).capacity && waited >= limit ==> r is Expired,
            old(self).in_use >= old(self).capacity && waited < limit ==> r is Wait,
    {
        if self.try_acquire() {
            Admission::Granted
        } else if waited >= limit {
            Admission::Expired
        } else {
            Admission::Wait
        }
    }

    /// Returns the permit of a task that has completed.
    pub fn release(&mut self)
        requires
            old(self).wf(),
            old(self).in_use > 0,
        ensures
            final(self).wf(),
            final(self).capacity == old(self).capacity,
            final(self).in_use == old(self).in_use - 1,
    {
        self.in_use = self.in_use - 1;
    }
}

/// Every recorded launch lies at least `interval` after the one before it.
pub open spec fn spaced(launches: Seq<u64>, interval: u64) -> bool {
    forall|i: int| 0 < i < launches.len() ==> #[trigger] launches[i] >= launches[i - 1] + interval
}

/// Fixed-cadence admission: each launch waits until `interval` has passed
/// since the previous one.
pub struct RateLimiter {
    pub interval: u64,
    pub last_launch: Option<u64>,
    pub launches: Ghost<Seq<u64>>,
}

impl RateLimiter {
    pub open spec fn wf(&self) -> bool {
        &&& spaced(self.launches@, self.interval)
        &&& self.launches@.len() == 0 <==> self.last_launch is None
        &&& self.launches@.len() > 0 ==> self.last_launch == Some(self.launches@.last())
    }

    /// The instant at which a launch requested at `now` may go.
    pub open spec fn slot(&self, now: u64) -> int {
        match self.last_launch {
            None => now as int,
            Some(last) => if now >= last + self.interval { now as int } else { last + self.interval },
        }
    }

    pub fn new(interval: u64) -> (r: RateLimiter)
        ensures
            r.wf(),
            r.interval == interval,
            r.last_launch is None,
            r.launches@ == Seq::<u64>::empty(),
    {
        RateLimiter { interval, last_launch: None, launches: Ghost(Seq::empty()) }
    }

    /// Books the next launch for a request made at `now` and returns the
    /// instant it may go. `None`, with nothing booked, when that instant lies
    /// beyond the clock's range.
    pub fn throttle(&mut self, now: u64) -> (r: Option<u64>)
        requires
            old(self).wf(),
        ensures
            final(self).wf(),
            final(self).interval == old(self).interval,
            old(self).slot(now) <= u64::MAX ==> r == Some(old(self).slot(now) as u64)
                && final(self).last_launch == r
                && final(self).launches@ == old(self).launches@.push(old(self).slot(now) as u64),
            old(self).slot(now) > u64::MAX ==> r is None && *final(self) == *old(self),
    {
        let at: u64 = match self.last_launch {
            None => now,
            Some(last) => {
                if last > u64::MAX - self.interval {
                    return None;
                }
                let earliest: u64 = last + self.interval;
                if now >= earliest { now } else { earliest }
            },
        };
        self.last_launch = Some(at);
        self.launches = Ghost(self.launches@.push(at));
        Some(at)
    }
}

/// Launches recorded by a well-formed limiter lie at least `interval` times
/// their distance in the sequence apart; in particular no two of them are
/// closer than `interval`.
pub proof fn lemma_launches_spaced(rl: RateLimiter, i: int, j: int)
    requires
        rl.wf(),
        0 <= i < j < rl.launches@.len(),
    ensures
        rl.launches@[j] >= rl.launches@[i] + (j - i) * rl.interval,
        rl.launches@[j] >= rl.launches@[i] + rl.interval,
    decreases j - i,
{
    if j - i > 1 {
        lemma_launches_spaced(rl, i, j - 1);
    } else {
        assert((j - i) * rl.interval == rl.interval) by (nonlinear_arith)
            requires
                j - i == 1,
        ;
    }
    assert(rl.launches@[j] >= rl.launches@[j - 1] + rl.interval);
    assert((j - i) * rl.interval == (j - 1 - i) * rl.interval + rl.interval) by (nonlinear_arith);
    assert((j - i) * rl.interval >= rl.interval) by (nonlinear_arith)
        requires
            j - i >= 1,
    ;
}

/// The launch interval, in nanoseconds, for a rate given in launches per
/// second.
pub fn interval_for_rate(per_second: u64) -> (r: u64)
    requires
        per_second > 0,
    ensures
        r == 1_000_000_000u64 / per_second,
{
    1_000_000_000u64 / per_second
}

/// Counts spawned tasks and says when the outstanding batch is to be
/// drained.
pub struct BatchCounter {
    pub ceiling: usize,
    pub pending: usize,
}

impl BatchCounter {
    pub open spec fn wf(&self) -> bool {
        self.pending < self.ceiling
    }

    pub fn new(ceiling: usize) -> (r: BatchCounter)
        requires
            ceiling > 0,
        ensures
            r.wf(),
            r.ceiling == ceiling,
            r.pending == 0,
    {
        BatchCounter { ceiling, pending: 0 }
    }

    /// Counts one spawn. Returns true, and starts a new batch, when the
    /// ceiling is reached: the caller then awaits every outstanding handle.
    pub fn record_spawn(&mut self) -> (r: bool)
        requires
            old(self).wf(),
        ensures
            final(self).wf(),
            final(self).ceiling == old(self).ceiling,
            r == (old(self).pending + 1 == old(self).ceiling),
            final(self).pending == if r { 0 } else { old(self).pending + 1 },
    {
        self.pending = self.pending + 1;
        if self.pending == self.ceiling {
            self.pending = 0;
            true
        } else {
            false
        }
    }
}

} // verus!
