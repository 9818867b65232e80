//! Scheduling core of a bulk service prober: admission control, outcome
//! classification, result accounting and progress tracking, each as a state
//! machine whose every step is stated and proved.

mod executor;
mod flow;
mod progress;
mod scan;
mod sink;

pub use flow::{
    interval_for_rate, lemma_launches_spaced, spaced, Admission, BatchCounter, BoundedPool, RateLimiter,
};
pub use executor::{
    classify, event_for, outcome_of, ExchangeReply, HostRecord, ProbeOutcome, ServiceInfo, TaskEvent,
    TaskPhase,
};
pub use progress::ProgressState;
pub use scan::{count_set, lemma_progress_accounts_every_host, Launch, Scan};
pub use sink::{build_row, lemma_rescan_adds_two_rows, row_of, rows_for, ResultSink, Row};
