use vstd::prelude::*;
use crate::executor::{HostRecord, ProbeOutcome};
use crate::flow::BatchCounter;
use crate::progress::ProgressState;
use crate::sink::{rows_for, ResultSink};

verus! {

/// How many entries of `s` are set.
pub open spec fn count_set(s: Seq<bool>) -> nat
    decreases s.len(),
{
    if s.len() == 0 {
        0
    } else {
        count_set(s.drop_last()) + if s.last() { 1nat } else { 0nat }
    }
}

proof fn lemma_count_bounded(s: Seq<bool>)
    ensures
        count_set(s) <= s.len(),
        count_set(s) == s.len() ==> forall|i: int| 0 <= i < s.len() ==> #[trigger] s[i],
    decreases s.len(),
{
    if s.len() > 0 {
        lemma_count_bounded(s.drop_last());
        if count_set(s) == s.len() {
            assert forall|i: int| 0 <= i < s.len() implies #[trigger] s[i] by {
                if i < s.len() - 1 {
                    assert(s.drop_last()[i] == s[i]);
                }
            }
        }
    }
}

proof fn lemma_count_all_unset(s: Seq<bool>)
    requires
        forall|i: int| 0 <= i < s.len() ==> !#[trigger] s[i],
    ensures
        count_set(s) == 0,
    decreases s.len(),
{
    if s.len() > 0 {
        lemma_count_all_unset(s.drop_last());
    }
}

proof fn lemma_count_set_one(s: Seq<bool>, k: int)
    requires
        0 <= k < s.len(),
        !s[k],
    ensures
        count_set(s.update(k, true)) == count_set(s) + 1,
    decreases s.len(),
{
    let t = s.update(k, true);
    if k == s.len() - 1 {
        assert(t.drop_last() =~= s.drop_last());
    } else {
        assert(t.drop_last() =~= s.drop_last().update(k, true));
        lemma_count_set_one(s.drop_last(), k);
    }
}

/// What the host loop is to do after handing out a host.
pub struct Launch {
    pub index: usize,
    pub flush: bool,
}

/// The decisions of one scan: which host goes next, when the outstanding
/// batch is drained, and what each completion does to the results and the
/// progress. Each host is handed out once and completes once.
pub struct Scan {
    pub hosts: Vec<HostRecord>,
    pub next: usize,
    pub done: Vec<bool>,
    pub progress: ProgressState,
    pub batch: BatchCounter,
    pub sink: ResultSink,
}

impl Scan {
    pub open spec fn wf(&self) -> bool {
        &&& self.done@.len() == self.hosts@.len()
        &&& self.next <= self.hosts@.len()
        &&& forall|i: int| self.next <= i < self.done@.len() ==> !#[trigger] self.done@[i]
        &&& self.progress.wf()
        &&& self.progress.total == self.hosts@.len()
        &&& self.progress.completed == count_set(self.done@)
        &&& self.batch.wf()
    }

    pub fn new(hosts: Vec<HostRecord>, batch_ceiling: usize) -> (r: Scan)
        requires
            batch_ceiling > 0,
            hosts@.len() <= u64::MAX,
        ensures
            r.wf(),
            r.hosts@ == hosts@,
            r.next == 0,
            r.progress.completed == 0,
            r.batch.ceiling == batch_ceiling,
            r.sink.rows@.len() == 0,
            r.sink.failures == 0,
    {
        let n: usize = hosts.len();
        let mut done: Vec<bool> = Vec::with_capacity(n);
        let mut i: usize = 0;
        while i < n
            invariant
                i <= n,
                done@.len() == i,
                forall|j: int| 0 <= j < i ==> !#[trigger] done@[j],
            decreases n - i,
        {
            done.push(false);
            i = i + 1;
        }
        proof {
            lemma_count_all_unset(done@);
        }
        Scan {
            hosts,
            next: 0,
            done,
            progress: ProgressState::new(n as u64),
            batch: BatchCounter::new(batch_ceiling),
            sink: ResultSink::new(),
        }
    }

    /// Hands out the next host, in order, once admission has been granted.
    /// `flush` says that the batch ceiling was reached and every outstanding
    /// handle is to be awaited before the next launch.
    pub fn launch(&mut self) -> (r: Option<Launch>)
        requires
            old(self).wf(),
        ensures
            final(self).wf(),
            final(self).hosts@ == old(self).hosts@,
            final(self).done@ == old(self).done@,
            final(self).progress == old(self).progress,
            final(self).sink == old(self).sink,
            old(self).next == old(self).hosts@.len() ==> r is None && final(self).next == old(self).next
                && final(self).batch == old(self).batch,
            old(self).next < old(self).hosts@.len() ==> r is Some
                && r->0.index == old(self).next
                && final(self).next == old(self).next + 1
                && r->0.flush == (old(self).batch.pending + 1 == old(self).batch.ceiling),
    {
        if self.next == self.hosts.len() {
            return None;
        }
        let index: usize = self.next;
        self.next = self.next + 1;
        let flush: bool = self.batch.record_spawn();
        Some(Launch { index, flush })
    }

    /// Records the outcome of host `index`. Refused, with nothing changed,
    /// unless that host was handed out and has not completed yet; otherwise
    /// the host is marked complete, the progress counts it once and the
    /// outcome goes to the sink.
    pub fn complete(&mut self, index: usize, outcome: ProbeOutcome) -> (r: bool)
        requires
            old(self).wf(),
        ensures
            final(self).wf(),
            r == (index < old(self).next && !old(self).done@[index as int]),
            final(self).hosts@ == old(self).hosts@,
            final(self).next == old(self).next,
            final(self).batch == old(self).batch,
            !r ==> final(self).done@ == old(self).done@ && final(self).progress == old(self).progress
                && final(self).sink == old(self).sink,
            r ==> final(self).done@ == old(self).done@.update(index as int, true)
                && final(self).progress.completed == old(self).progress.completed + 1
                && final(self).sink.rows@ == old(self).sink.rows@ + rows_for(
                old(self).hosts@[index as int],
                outcome,
            ),
    {
        if index >= self.next || self.done[index] {
            return false;
        }
        proof {
            lemma_count_set_one(self.done@, index as int);
            lemma_count_bounded(self.done@.update(index as int, true));
        }
        self.done.set(index, true);
        let counted: bool = self.progress.record_completion();
        assert(counted);
        self.sink.record(&self.hosts[index], &outcome);
        true
    }

    /// Every host has completed.
    pub fn finished(&self) -> (r: bool)
        requires
            self.wf(),
        ensures
            r == (self.progress.completed == self.hosts@.len()),
    {
        self.progress.is_complete()
    }
}

/// In every state of a scan the progress never exceeds the number of hosts,
/// and it reaches that number exactly when every host has one recorded
/// outcome.
pub proof fn lemma_progress_accounts_every_host(s: Scan)
    requires
        s.wf(),
    ensures
        s.progress.completed <= s.progress.total,
        s.progress.completed == s.progress.total <==> forall|i: int|
            0 <= i < s.hosts@.len() ==> #[trigger] s.done@[i],
{
    lemma_count_bounded(s.done@);
    if forall|i: int| 0 <= i < s.hosts@.len() ==> #[trigger] s.done@[i] {
        lemma_count_all_set(s.done@);
    }
}

proof fn lemma_count_all_set(s: Seq<bool>)
    requires
        forall|i: int| 0 <= i < s.len() ==> #[trigger] s[i],
    ensures
        count_set(s) == s.len(),
    decreases s.len(),
{
    if s.len() > 0 {
        lemma_count_all_set(s.drop_last());
    }
}

} // verus!
