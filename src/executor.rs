use vstd::prelude::*;

verus! {

/// One target: an address and the port to probe on it.
pub struct HostRecord {
    pub address: String,
    pub port: u16,
}

/// Status metadata that a successful exchange reports.
pub struct ServiceInfo {
    pub description: String,
    pub secure_chat: Option<bool>,
    pub online_players: usize,
    pub max_players: usize,
    pub version: String,
    pub protocol: i32,
}

/// What the prober handed back, if it handed back anything before the task
/// stopped waiting.
pub enum ExchangeReply {
    Status(ServiceInfo),
    ConnectFailed,
    Malformed,
}

/// The classified result of one host's single attempt.
pub enum ProbeOutcome {
    Success(ServiceInfo),
    ConnectFailure,
    ProtocolFailure,
    Timeout,
}

impl ProbeOutcome {
    pub open spec fn is_success(&self) -> bool {
        self is Success
    }

    pub fn succeeded(&self) -> (r: bool)
        ensures
            r == self.is_success(),
    {
        match self {
            ProbeOutcome::Success(_) => true,
            _ => false,
        }
    }
}

/// The outcome owed to an attempt that returned `reply` (or nothing) after
/// `elapsed` time units under a `deadline`.
pub open spec fn outcome_of(reply: Option<ExchangeReply>, elapsed: u64, deadline: u64) -> ProbeOutcome {
    if elapsed > deadline {
        ProbeOutcome::Timeout
    } else {
        match reply {
            None => ProbeOutcome::Timeout,
            Some(ExchangeReply::Status(info)) => ProbeOutcome::Success(info),
            Some(ExchangeReply::ConnectFailed) => ProbeOutcome::ConnectFailure,
            Some(ExchangeReply::Malformed) => ProbeOutcome::ProtocolFailure,
        }
    }
}

/// Classifies one attempt. A reply that arrives after the deadline counts as
/// a timeout whatever it says; no reply at all is a timeout too.
pub fn classify(reply: Option<ExchangeReply>, elapsed: u64, deadline: u64) -> (r: ProbeOutcome)
    ensures
        r == outcome_of(reply, elapsed, deadline),
        elapsed > deadline ==> r is Timeout,
        r is Success ==> elapsed <= deadline,
{
    if elapsed > deadline {
        return ProbeOutcome::Timeout;
    }
    match reply {
        None => ProbeOutcome::Timeout,
        Some(ExchangeReply::Status(info)) => ProbeOutcome::Success(info),
        Some(ExchangeReply::ConnectFailed) => ProbeOutcome::ConnectFailure,
        Some(ExchangeReply::Malformed) => ProbeOutcome::ProtocolFailure,
    }
}

/// Where one host's attempt stands.
#[derive(PartialEq, Eq, Structural, Clone, Copy, Debug)]
pub enum TaskPhase {
    Pending,
    Admitted,
    Executing,
    Succeeded,
    ConnectFailed,
    ProtocolFailed,
    TimedOut,
    Completed,
}

/// What moves an attempt on.
#[derive(PartialEq, Eq, Structural, Clone, Copy, Debug)]
pub enum TaskEvent {
    /// A flow token was granted.
    Admit,
    /// The exchange was issued to the prober.
    Issue,
    Succeed,
    FailConnect,
    FailProtocol,
    Expire,
    /// The outcome reached the sink and the progress counter.
    Account,
}

impl TaskPhase {
    /// Position along the attempt's life; every step moves strictly forward.
    pub open spec fn rank(self) -> int {
        match self {
            TaskPhase::Pending => 0,
            TaskPhase::Admitted => 1,
            TaskPhase::Executing => 2,
            TaskPhase::Completed => 4,
            _ => 3,
        }
    }

    pub open spec fn is_terminal(self) -> bool {
        self.rank() == 3
    }

    /// Takes one step. `None` where the event does not apply to the phase.
    pub fn step(self, event: TaskEvent) -> (r: Option<TaskPhase>)
        ensures
            r matches Some(q) ==> q.rank() == self.rank() + 1,
            r matches Some(q) ==> (q is Executing <==> self is Admitted),
            r matches Some(q) ==> (q is Completed <==> self.is_terminal()),
            self is Completed ==> r is None,
            (self is Pending) ==> (r is Some <==> event is Admit),
            (self is Admitted) ==> (r is Some <==> event is Issue),
            (self is Executing) ==> (r is Some <==> !(event is Admit || event is Issue
                || event is Account)),
            self.is_terminal() ==> (r is Some <==> event is Account),
            (self is Executing && event is Succeed) ==> r == Some(TaskPhase::Succeeded),
            (self is Executing && event is FailConnect) ==> r == Some(TaskPhase::ConnectFailed),
            (self is Executing && event is FailProtocol) ==> r == Some(TaskPhase::ProtocolFailed),
            (self is Executing && event is Expire) ==> r == Some(TaskPhase::TimedOut),
    {
        match (self, event) {
            (TaskPhase::Pending, TaskEvent::Admit) => Some(TaskPhase::Admitted),
            (TaskPhase::Admitted, TaskEvent::Issue) => Some(TaskPhase::Executing),
            (TaskPhase::Executing, TaskEvent::Succeed) => Some(TaskPhase::Succeeded),
            (TaskPhase::Executing, TaskEvent::FailConnect) => Some(TaskPhase::ConnectFailed),
            (TaskPhase::Executing, TaskEvent::FailProtocol) => Some(TaskPhase::ProtocolFailed),
            (TaskPhase::Executing, TaskEvent::Expire) => Some(TaskPhase::TimedOut),
            (TaskPhase::Succeeded, TaskEvent::Account) => Some(TaskPhase::Completed),
            (TaskPhase::ConnectFailed, TaskEvent::Account) => Some(TaskPhase::Completed),
            (TaskPhase::ProtocolFailed, TaskEvent::Account) => Some(TaskPhase::Completed),
            (TaskPhase::TimedOut, TaskEvent::Account) => Some(TaskPhase::Completed),
            _ => None,
        }
    }
}

/// The event by which an outcome ends an executing attempt.
pub fn event_for(outcome: &ProbeOutcome) -> (r: TaskEvent)
    ensures
        outcome is Success <==> r is Succeed,
        outcome is ConnectFailure <==> r is FailConnect,
        outcome is ProtocolFailure <==> r is FailProtocol,
        outcome is Timeout <==> r is Expire,
{
    match outcome {
        ProbeOutcome::Success(_) => TaskEvent::Succeed,
        ProbeOutcome::ConnectFailure => TaskEvent::FailConnect,
        ProbeOutcome::ProtocolFailure => TaskEvent::FailProtocol,
        ProbeOutcome::Timeout => TaskEvent::Expire,
    }
}

} // verus!
