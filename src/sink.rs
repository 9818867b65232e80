use vstd::prelude::*;
use crate::executor::{HostRecord, ProbeOutcome, ServiceInfo};

verus! {

/// One row of the store: the host's key and every field of its status.
pub struct Row {
    pub ip_address: String,
    pub port: u16,
    pub description: String,
    pub secure_chat: Option<bool>,
    pub online_players: usize,
    pub max_players: usize,
    pub version: String,
    pub protocol: i32,
}

/// The row that records `info` for `host`.
pub open spec fn row_of(host: HostRecord, info: ServiceInfo) -> Row {
    Row {
        ip_address: host.address,
        port: host.port,
        description: info.description,
        secure_chat: info.secure_chat,
        online_players: info.online_players,
        max_players: info.max_players,
        version: info.version,
        protocol: info.protocol,
    }
}

/// The rows that an outcome persists: one for a success, none otherwise.
pub open spec fn rows_for(host: HostRecord, outcome: ProbeOutcome) -> Seq<Row> {
    match outcome {
        ProbeOutcome::Success(info) => seq![row_of(host, info)],
        _ => Seq::empty(),
    }
}

pub fn build_row(host: &HostRecord, info: &ServiceInfo) -> (r: Row)
    ensures
        r == row_of(*host, *info),
{
    Row {
        ip_address: host.address.clone(),
        port: host.port,
        description: info.description.clone(),
        secure_chat: info.secure_chat,
        online_players: info.online_players,
        max_players: info.max_players,
        version: info.version.clone(),
        protocol: info.protocol,
    }
}

/// The successes of a scan as rows to persist, in the order they were
/// recorded, and a count of the outcomes that persist nothing.
pub struct ResultSink {
    pub rows: Vec<Row>,
    pub failures: u64,
}

impl ResultSink {
    pub fn new() -> (r: ResultSink)
        ensures
            r.rows@ == Seq::<Row>::empty(),
            r.failures == 0,
    {
        ResultSink { rows: Vec::new(), failures: 0 }
    }

    /// Routes one outcome: a success appends exactly its row, any failure
    /// appends nothing and is counted (the count stops at its largest value).
    /// Nothing is deduplicated.
    pub fn record(&mut self, host: &HostRecord, outcome: &ProbeOutcome)
        ensures
            final(self).rows@ == old(self).rows@ + rows_for(*host, *outcome),
            outcome.is_success() ==> final(self).failures == old(self).failures,
            !outcome.is_success() ==> final(self).failures == (if old(self).failures < u64::MAX {
                old(self).failures + 1
            } else {
                old(self).failures as int
            }),
    {
        match outcome {
            ProbeOutcome::Success(info) => {
                let row = build_row(host, info);
                self.rows.push(row);
                assert(self.rows@ =~= old(self).rows@ + rows_for(*host, *outcome));
            },
            _ => {
                if self.failures < u64::MAX {
                    self.failures = self.failures + 1;
                }
                assert(self.rows@ =~= old(self).rows@ + rows_for(*host, *outcome));
            },
        }
    }
}

/// Recording two successes of the same host adds two rows, both for that
/// host: the sink does not deduplicate.
pub proof fn lemma_rescan_adds_two_rows(
    s0: ResultSink,
    s1: ResultSink,
    s2: ResultSink,
    host: HostRecord,
    first: ProbeOutcome,
    second: ProbeOutcome,
)
    requires
        first.is_success(),
        second.is_success(),
        s1.rows@ == s0.rows@ + rows_for(host, first),
        s2.rows@ == s1.rows@ + rows_for(host, second),
    ensures
        s2.rows@.len() == s0.rows@.len() + 2,
        s2.rows@[s0.rows@.len() as int].ip_address == host.address,
        s2.rows@[s0.rows@.len() as int + 1].ip_address == host.address,
        s2.rows@[s0.rows@.len() as int].port == host.port,
        s2.rows@[s0.rows@.len() as int + 1].port == host.port,
{
    assert(s2.rows@[s0.rows@.len() as int] == s1.rows@[s0.rows@.len() as int]);
}

} // verus!
