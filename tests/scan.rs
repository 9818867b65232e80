use hostscan::{
    classify, event_for, interval_for_rate, Admission, BatchCounter, BoundedPool, ExchangeReply, HostRecord,
    ProbeOutcome, ProgressState, RateLimiter, ResultSink, Scan, ServiceInfo, TaskEvent, TaskPhase,
};

fn info(players: usize) -> ServiceInfo {
    ServiceInfo {
        description: String::from("A server"),
        secure_chat: Some(true),
        online_players: players,
        max_players: 20,
        version: String::from("1.20.4"),
        protocol: 765,
    }
}

fn host(address: &str) -> HostRecord {
    HostRecord { address: String::from(address), port: 25565 }
}

#[test]
fn reply_one_ms_after_deadline_is_timeout() {
    let r = classify(Some(ExchangeReply::Status(info(3))), 251, 250);
    assert!(matches!(r, ProbeOutcome::Timeout));
}

#[test]
fn reply_at_deadline_is_success() {
    let r = classify(Some(ExchangeReply::Status(info(3))), 250, 250);
    match r {
        ProbeOutcome::Success(i) => assert_eq!(i.online_players, 3),
        _ => panic!("expected a success"),
    }
}

#[test]
fn failures_are_classified() {
    assert!(matches!(classify(Some(ExchangeReply::ConnectFailed), 10, 250), ProbeOutcome::ConnectFailure));
    assert!(matches!(classify(Some(ExchangeReply::Malformed), 10, 250), ProbeOutcome::ProtocolFailure));
    assert!(matches!(classify(None, 10, 250), ProbeOutcome::Timeout));
    assert!(matches!(classify(Some(ExchangeReply::ConnectFailed), 300, 250), ProbeOutcome::Timeout));
}

#[test]
fn bounded_pool_caps_permits() {
    let mut p = BoundedPool::new(2);
    assert!(p.try_acquire());
    assert!(p.try_acquire());
    assert!(!p.try_acquire());
    assert_eq!(p.in_use, 2);
    p.release();
    assert!(p.try_acquire());
    assert_eq!(p.in_use, 2);
}

#[test]
fn bounded_pool_of_zero_admits_nothing() {
    let mut p = BoundedPool::new(0);
    assert!(!p.try_acquire());
    assert_eq!(p.in_use, 0);
}

#[test]
fn default_rate_gives_fifty_microseconds() {
    assert_eq!(interval_for_rate(20000), 50_000);
    assert_eq!(interval_for_rate(1), 1_000_000_000);
}

#[test]
fn rate_limiter_spaces_launches() {
    let mut rl = RateLimiter::new(50_000);
    assert_eq!(rl.throttle(0), Some(0));
    assert_eq!(rl.throttle(10), Some(50_000));
    assert_eq!(rl.throttle(60_000), Some(100_000));
    assert_eq!(rl.throttle(400_000), Some(400_000));
    assert_eq!(rl.last_launch, Some(400_000));
}

#[test]
fn rate_limiter_refuses_slot_beyond_clock() {
    let mut rl = RateLimiter::new(10);
    assert_eq!(rl.throttle(u64::MAX - 5), Some(u64::MAX - 5));
    assert_eq!(rl.throttle(u64::MAX - 5), None);
    assert_eq!(rl.last_launch, Some(u64::MAX - 5));
}

#[test]
fn batch_counter_flushes_at_ceiling() {
    let mut b = BatchCounter::new(3);
    assert!(!b.record_spawn());
    assert!(!b.record_spawn());
    assert!(b.record_spawn());
    assert_eq!(b.pending, 0);
    assert!(!b.record_spawn());
}

#[test]
fn empty_progress_is_complete() {
    let mut p = ProgressState::new(0);
    assert!(p.is_complete());
    assert_eq!(p.eta(1234), Some(0));
    assert!(!p.record_completion());
    assert_eq!(p.completed, 0);
}

#[test]
fn progress_eta_and_cap() {
    let mut p = ProgressState::new(4);
    assert_eq!(p.eta(100), None);
    assert!(p.record_completion());
    assert_eq!(p.eta(100), Some(300));
    assert!(p.record_completion());
    assert!(p.record_completion());
    assert!(p.record_completion());
    assert!(p.is_complete());
    assert!(!p.record_completion());
    assert_eq!(p.completed, 4);
}

#[test]
fn success_persists_one_matching_row() {
    let mut s = ResultSink::new();
    s.record(&host("10.0.0.1"), &ProbeOutcome::Success(info(7)));
    assert_eq!(s.rows.len(), 1);
    let r = &s.rows[0];
    assert_eq!(r.ip_address, "10.0.0.1");
    assert_eq!(r.port, 25565);
    assert_eq!(r.description, "A server");
    assert_eq!(r.secure_chat, Some(true));
    assert_eq!(r.online_players, 7);
    assert_eq!(r.max_players, 20);
    assert_eq!(r.version, "1.20.4");
    assert_eq!(r.protocol, 765);
    assert_eq!(s.failures, 0);
}

#[test]
fn failures_persist_nothing() {
    let mut s = ResultSink::new();
    s.record(&host("10.0.0.2"), &ProbeOutcome::ConnectFailure);
    s.record(&host("10.0.0.3"), &ProbeOutcome::ProtocolFailure);
    s.record(&host("10.0.0.4"), &ProbeOutcome::Timeout);
    assert_eq!(s.rows.len(), 0);
    assert_eq!(s.failures, 3);
}

#[test]
fn rescanning_a_host_adds_a_second_row() {
    let mut s = ResultSink::new();
    s.record(&host("10.0.0.1"), &ProbeOutcome::Success(info(1)));
    s.record(&host("10.0.0.1"), &ProbeOutcome::Success(info(1)));
    assert_eq!(s.rows.len(), 2);
    assert_eq!(s.rows[0].ip_address, s.rows[1].ip_address);
}

#[test]
fn every_host_completes_exactly_once() {
    let hosts = vec![host("a"), host("b"), host("c"), host("d"), host("e")];
    let mut scan = Scan::new(hosts, 2);
    let mut flushes = 0;
    let mut launched = Vec::new();
    while let Some(l) = scan.launch() {
        if l.flush {
            flushes += 1;
        }
        launched.push(l.index);
    }
    assert_eq!(launched, vec![0, 1, 2, 3, 4]);
    assert_eq!(flushes, 2);
    for i in 0..5 {
        assert!(!scan.finished());
        assert!(scan.complete(i, ProbeOutcome::Timeout));
        assert!(!scan.complete(i, ProbeOutcome::Timeout));
    }
    assert!(!scan.complete(5, ProbeOutcome::Timeout));
    assert!(scan.finished());
    assert_eq!(scan.progress.completed, 5);
    assert_eq!(scan.progress.total, 5);
    assert_eq!(scan.sink.failures, 5);
}

#[test]
fn completion_before_launch_is_refused() {
    let mut scan = Scan::new(vec![host("a")], 5000);
    assert!(!scan.complete(0, ProbeOutcome::Success(info(1))));
    assert_eq!(scan.progress.completed, 0);
    assert!(scan.launch().is_some());
    assert!(scan.launch().is_none());
    assert!(scan.complete(0, ProbeOutcome::Success(info(1))));
    assert_eq!(scan.sink.rows.len(), 1);
}

#[test]
fn three_hosts_end_to_end() {
    let mut scan = Scan::new(vec![host("A"), host("B"), host("C")], 5000);
    while scan.launch().is_some() {}
    let a = classify(Some(ExchangeReply::Status(info(5))), 40, 250);
    let b = classify(Some(ExchangeReply::ConnectFailed), 2, 250);
    let c = classify(None, 250, 250);
    assert!(scan.complete(2, c));
    assert!(scan.complete(0, a));
    assert!(scan.complete(1, b));
    assert_eq!(scan.sink.rows.len(), 1);
    assert_eq!(scan.sink.rows[0].ip_address, "A");
    assert_eq!(scan.sink.rows[0].online_players, 5);
    assert_eq!(scan.progress.completed, 3);
    assert_eq!(scan.progress.total, 3);
    assert!(scan.finished());
}

#[test]
fn admission_deadline_expires_waiting_request() {
    let mut p = BoundedPool::new(1);
    assert_eq!(p.acquire_within(0, 50), Admission::Granted);
    assert_eq!(p.acquire_within(49, 50), Admission::Wait);
    assert_eq!(p.acquire_within(50, 50), Admission::Expired);
    assert_eq!(p.in_use, 1);
    p.release();
    assert_eq!(p.acquire_within(80, 50), Admission::Granted);
}

#[test]
fn attempt_walks_its_phases_once() {
    let p = TaskPhase::Pending;
    assert_eq!(p.step(TaskEvent::Issue), None);
    let p = p.step(TaskEvent::Admit).unwrap();
    assert_eq!(p, TaskPhase::Admitted);
    let p = p.step(TaskEvent::Issue).unwrap();
    assert_eq!(p, TaskPhase::Executing);
    let ev = event_for(&ProbeOutcome::Timeout);
    assert_eq!(ev, TaskEvent::Expire);
    let p = p.step(ev).unwrap();
    assert_eq!(p, TaskPhase::TimedOut);
    assert_eq!(p.step(TaskEvent::Succeed), None);
    assert_eq!(p.step(TaskEvent::Issue), None);
    let p = p.step(TaskEvent::Account).unwrap();
    assert_eq!(p, TaskPhase::Completed);
    assert_eq!(p.step(TaskEvent::Account), None);
}

#[test]
fn outcomes_map_to_events() {
    assert_eq!(event_for(&ProbeOutcome::Success(info(2))), TaskEvent::Succeed);
    assert_eq!(event_for(&ProbeOutcome::ConnectFailure), TaskEvent::FailConnect);
    assert_eq!(event_for(&ProbeOutcome::ProtocolFailure), TaskEvent::FailProtocol);
}
