use vstd::prelude::*;

verus! {

/// Completed-versus-total count of a scan.
pub struct ProgressState {
    pub completed: u64,
    pub total: u64,
}

impl ProgressState {
    /// The counter never runs past the number of hosts.
    pub open spec fn wf(&self) -> bool {
        self.completed <= self.total
    }

    pub fn new(total: u64) -> (r: ProgressState)
        ensures
            r.wf(),
            r.completed == 0,
            r.total == total,
    {
        ProgressState { completed: 0, total }
    }

    /// Counts one finished task. A completion beyond `total` is refused and
    /// leaves the state unchanged.
    pub fn record_completion(&mut self) -> (r: bool)
        requires
            old(self).wf(),
        ensures
            final(self).wf(),
            r == (old(self).completed < old(self).total),
            final(self).total == old(self).total,
            final(self).completed == if r { old(self).completed + 1 } else { old(self).completed as int },
    {
        if self.completed < self.total {
            self.completed = self.completed + 1;
            true
        } else {
            false
        }
    }

    /// Every task has completed; an empty scan is complete from the start.
    pub fn is_complete(&self) -> (r: bool)
        ensures
            r == (self.completed >= self.total),
    {
        self.completed >= self.total
    }

    /// Estimated time still needed, in the unit of `elapsed`: the elapsed
    /// time scaled by remaining over completed. Zero once complete; `None`
    /// while nothing has completed yet and work remains.
    pub fn eta(&self, elapsed: u64) -> (r: Option<u128>)
        requires
            self.wf(),
        ensures
            self.completed == self.total ==> r == Some(0u128),
            (self.completed == 0 && self.total > 0) ==> r.is_none(),
            (0 < self.completed < self.total) ==> r == Some(
                ((elapsed as int * (self.total - self.completed)) / self.completed as int) as u128,
            ),
    {
        if self.completed == self.total {
            Some(0)
        } else if self.completed == 0 {
            None
        } else {
            let remaining: u128 = (self.total - self.completed) as u128;
            assert(elapsed as int * remaining as int <= u64::MAX as int * u64::MAX as int)
                by (nonlinear_arith)
                requires
                    remaining <= u64::MAX,
                    elapsed <= u64::MAX,
            ;
            let scaled: u128 = elapsed as u128 * remaining;
            Some(scaled / self.completed as u128)
        }
    }
}

} // verus!
