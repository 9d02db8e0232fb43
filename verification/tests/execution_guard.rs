use bleavit::execution_guard::guard::benchmark_stub;
use bleavit::execution_guard::types::{
    ActivePlaybook, AttestorRegistry, CallDomain, DispatchCall, Error, Event, ExecutionGuard,
    ExecutionRecord, Guardian, GuardOrigin, Payload, PendingUpgrade, PlaybookId, QueuedExecution,
    MAX_EXECUTION_RECORDS, MAX_PAYLOAD_BYTES,
};
use bleavit::origins::{CallDomain as ODomain, RuntimeCall};
use bleavit::primitives::{
    DispatchOutcomeCode, ProposalClass, RatificationStatus, RejectReason, RuntimeVersionConstraint,
    H256,
};

fn vc(v: u32) -> RuntimeVersionConstraint {
    RuntimeVersionConstraint { spec_name: b"bleavit".to_vec(), spec_version: v }
}

fn h(x: u8) -> H256 {
    [x; 32]
}

fn call(domain: CallDomain) -> DispatchCall {
    DispatchCall {
        domain,
        encoded_len: 10,
        declared_weight: 1,
        call: RuntimeCall::Leaf(match domain {
            CallDomain::Public => ODomain::Public,
            CallDomain::Param => ODomain::Param,
            CallDomain::Treasury => ODomain::Treasury,
            CallDomain::Code => ODomain::Code,
            CallDomain::Meta => ODomain::Meta,
            _ => ODomain::Code,
        }),
        succeeds: true,
        error: [0; 4],
        upgrade_hash: None,
        target_spec_version: None,
    }
}

fn queued(class: ProposalClass) -> QueuedExecution {
    QueuedExecution {
        pid: 1,
        payload_hash: h(9),
        payload_len: 10,
        class,
        maturity: 10,
        grace_end: 20,
        version_constraint: vc(1),
        meters_declared: vec![*b"resource"],
        ratify_ref: None,
        ratification_passed: false,
        attestation_id: None,
        pre_upgrade_checkpoint: None,
        cancelled: false,
        declared_domains: vec![
            CallDomain::Param,
            CallDomain::Public,
            CallDomain::Code,
            CallDomain::InternalRootAuthorizeUpgrade,
        ],
    }
}

fn guardian() -> Guardian {
    Guardian { rerun_used: Vec::new(), active_playbooks: Vec::new() }
}

fn no_attestations() -> AttestorRegistry {
    AttestorRegistry { attestations: Vec::new(), has_quorum: false }
}

fn payload(calls: Vec<DispatchCall>) -> Payload {
    Payload { hash: h(9), calls }
}

#[test]
fn enqueue_origin_and_execute_success_records_and_marks_epoch() {
    let mut g = ExecutionGuard::new(vc(1));
    let mut q = queued(ProposalClass::Param);
    q.maturity = 1_000_010;
    q.grace_end = 1_000_020;
    assert_eq!(g.enqueue(GuardOrigin::Signed, q.clone()).unwrap_err(), Error::BadOrigin);
    g.held_resources.push((1, *b"resource"));
    g.enqueue(GuardOrigin::EpochDecision, q).unwrap();
    let record = g
        .execute(
            GuardOrigin::Signed,
            &guardian(),
            &no_attestations(),
            1,
            payload(vec![call(CallDomain::Param)]),
            1_000_010,
            h(1),
            h(2),
            &vec![true],
        )
        .unwrap();
    assert_eq!(g.records.len(), 1);
    assert!(g.queue.is_empty());
    g.complete_execution(record, true).unwrap();
    assert!(g.events.iter().any(|ev| matches!(ev, Event::Executed { pid: 1, .. })));
    assert!(g.events.iter().any(|ev| matches!(ev, Event::PreimageUnpinned { pid: 1, .. })));
}

#[test]
fn stale_version_and_meter_contention_block_execution() {
    let mut g = ExecutionGuard::new(vc(2));
    let q = queued(ProposalClass::Param);
    g.held_resources.push((1, *b"resource"));
    g.enqueue(GuardOrigin::EpochDecision, q).unwrap();
    let att = no_attestations();
    assert_eq!(
        g.check_dispatch_time(
            &g.queue[0],
            &guardian(),
            &att,
            &payload(vec![call(CallDomain::Param)]),
            10,
            &vec![true],
        )
        .unwrap_err(),
        Error::StaleQueue
    );
    g.current_spec_name = vc(1);
    g.blocked_meters.push(*b"resource");
    assert_eq!(
        g.check_dispatch_time(
            &g.queue[0],
            &guardian(),
            &att,
            &payload(vec![call(CallDomain::Param)]),
            10,
            &vec![true],
        )
        .unwrap_err(),
        Error::MetersBlocked
    );
}

#[test]
fn capability_and_safety_filter_reject_wrapper_bypass() {
    let mut g = ExecutionGuard::new(vc(1));
    let mut q = queued(ProposalClass::Param);
    q.declared_domains = vec![CallDomain::Treasury];
    g.held_resources.push((1, *b"resource"));
    g.enqueue(GuardOrigin::EpochDecision, q).unwrap();
    let att = no_attestations();
    assert_eq!(
        g.check_dispatch_time(
            &g.queue[0],
            &guardian(),
            &att,
            &payload(vec![call(CallDomain::Treasury)]),
            10,
            &vec![true],
        )
        .unwrap_err(),
        Error::CapabilityDenied
    );
    let mut q2 = queued(ProposalClass::Param);
    q2.declared_domains = vec![CallDomain::Param];
    g.queue[0] = q2;
    let mut c = call(CallDomain::Param);
    c.call = RuntimeCall::Proxy(Box::new(RuntimeCall::Leaf(ODomain::Param)));
    // The safety filter refuses the proxy wrapper for the parameter origin.
    assert_eq!(
        g.check_dispatch_time(&g.queue[0], &guardian(), &att, &payload(vec![c]), 10, &vec![false])
            .unwrap_err(),
        Error::SafetyFilter
    );
}

fn upgrade_call() -> DispatchCall {
    let mut c = call(CallDomain::InternalRootAuthorizeUpgrade);
    c.upgrade_hash = Some(h(7));
    c.target_spec_version = Some(2);
    c
}

#[test]
fn upgrade_authorize_and_descriptor_lead_time() {
    let mut g = ExecutionGuard::new(vc(1));
    let mut q = queued(ProposalClass::Code);
    q.maturity = 43_200;
    q.grace_end = 90_000;
    q.attestation_id = Some(0);
    q.ratify_ref = Some(42);
    q.ratification_passed = true;
    q.declared_domains = vec![CallDomain::InternalRootAuthorizeUpgrade];
    g.held_resources.push((1, *b"resource"));
    g.enqueue(GuardOrigin::EpochDecision, q).unwrap();
    // Two of three attestors attested proposal 1's payload: attestation 0 with quorum.
    let att = AttestorRegistry { attestations: vec![0, 1], has_quorum: true };
    g.check_dispatch_time(&g.queue[0], &guardian(), &att, &payload(vec![upgrade_call()]), 43_201, &vec![true])
        .unwrap();
    let q0 = g.queue[0].clone();
    assert_eq!(
        g.dispatch_batch(&q0, &payload(vec![upgrade_call()]), 43_201, h(1), h(2)).unwrap(),
        DispatchOutcomeCode::Success
    );
    assert_eq!(
        g.pending_upgrade,
        Some(PendingUpgrade {
            hash: h(7),
            authorized_at: 43_201,
            applicable_at: 86_401,
            target_spec_version: 2
        })
    );
    assert_eq!(g.queue[0].pre_upgrade_checkpoint, Some((h(1), h(2))));
    assert_eq!(
        g.apply_authorized_upgrade(GuardOrigin::Signed, h(7), 2, 50_000).unwrap_err(),
        Error::DescriptorLeadTime
    );
    g.apply_authorized_upgrade(GuardOrigin::Signed, h(7), 2, 86_401).unwrap();
    assert!(g.pending_upgrade.is_none());
    assert_eq!(g.current_spec_name.spec_version, 2);
}

#[test]
fn ring_is_bounded_and_try_state_checks_bounds() {
    let mut g = ExecutionGuard::new(vc(1));
    for i in 0..300 {
        g.push_record(ExecutionRecord {
            pid: i,
            payload_hash: h(1),
            class: ProposalClass::Param,
            executed_at: i as u32,
            result: DispatchOutcomeCode::Success,
        });
    }
    assert_eq!(g.records.len(), MAX_EXECUTION_RECORDS);
    assert_eq!(g.records[0].pid, 44);
    let mut bad = queued(ProposalClass::Param);
    bad.payload_len = MAX_PAYLOAD_BYTES + 1;
    g.queue.push(bad);
    assert_eq!(g.try_state().unwrap_err(), Error::PayloadTooLarge);
}

#[test]
fn enqueue_refusals_in_order() {
    let mut g = ExecutionGuard::new(vc(1));
    let mut q = queued(ProposalClass::Param);
    q.meters_declared = vec![*b"resource"; 9];
    assert_eq!(g.enqueue(GuardOrigin::EpochDecision, q).unwrap_err(), Error::TooManyLocks);
    let mut q = queued(ProposalClass::Param);
    q.declared_domains = vec![CallDomain::Public; 17];
    assert_eq!(g.enqueue(GuardOrigin::EpochDecision, q).unwrap_err(), Error::TooManyDomains);
    g.enqueue(GuardOrigin::EpochDecision, queued(ProposalClass::Param)).unwrap();
    // A second execution of the same proposal is refused, and nothing changes.
    let before = g.clone();
    assert_eq!(
        g.enqueue(GuardOrigin::EpochDecision, queued(ProposalClass::Param)).unwrap_err(),
        Error::QueueFull
    );
    assert_eq!(g, before);
    for pid in 2..33 {
        let mut q = queued(ProposalClass::Param);
        q.pid = pid;
        g.enqueue(GuardOrigin::EpochDecision, q).unwrap();
    }
    assert_eq!(g.queue.len(), 32);
    let mut q = queued(ProposalClass::Param);
    q.pid = 99;
    assert_eq!(g.enqueue(GuardOrigin::EpochDecision, q).unwrap_err(), Error::QueueFull);
    assert_eq!(g.try_state(), Ok(()));
}

#[test]
fn ratify_needs_track_origin_and_matching_referendum() {
    let mut g = ExecutionGuard::new(vc(1));
    let mut q = queued(ProposalClass::Code);
    q.ratify_ref = Some(5);
    g.enqueue(GuardOrigin::EpochDecision, q).unwrap();
    assert_eq!(g.ratify(GuardOrigin::Signed, 1, 5), Err(Error::BadOrigin));
    assert_eq!(g.ratify(GuardOrigin::RatifyTrack, 2, 5), Err(Error::NotFound));
    assert_eq!(g.ratify(GuardOrigin::RatifyTrack, 1, 6), Err(Error::NotRatified));
    assert_eq!(g.view()[0].ratification, RatificationStatus::Pending { referendum: 5 });
    g.ratify(GuardOrigin::RatifyTrack, 1, 5).unwrap();
    assert!(g.queue[0].ratification_passed);
    assert_eq!(g.view()[0].ratification, RatificationStatus::Passed { referendum: 5 });
    assert_eq!(g.events.last(), Some(&Event::Ratified { pid: 1, referendum_index: 5 }));
}

#[test]
fn dispatch_checks_each_gate() {
    let mut g = ExecutionGuard::new(vc(1));
    g.held_resources.push((1, *b"resource"));
    let att = no_attestations();
    let ok = |g: &ExecutionGuard, q: &QueuedExecution, guardian: &Guardian, now: u32| {
        g.check_dispatch_time(q, guardian, &att, &payload(vec![call(CallDomain::Param)]), now, &vec![true])
    };
    let q = queued(ProposalClass::Param);
    assert_eq!(ok(&g, &q, &guardian(), 10), Ok(()));
    assert_eq!(ok(&g, &q, &guardian(), 9), Err(Error::NotMature));
    assert_eq!(ok(&g, &q, &guardian(), 21), Err(Error::GraceExpired));
    let mut c = q.clone();
    c.cancelled = true;
    assert_eq!(ok(&g, &c, &guardian(), 10), Err(Error::Cancelled));
    let mut c = q.clone();
    c.payload_hash = h(8);
    assert_eq!(ok(&g, &c, &guardian(), 10), Err(Error::BadPreimage));
    let mut c = q.clone();
    c.meters_declared = vec![*b"other-rs"];
    assert_eq!(ok(&g, &c, &guardian(), 10), Err(Error::ResourceLockMissing));
    let held = Guardian { rerun_used: vec![1], active_playbooks: Vec::new() };
    assert_eq!(ok(&g, &q, &held, 10), Err(Error::GuardianHold));
    let frozen = Guardian {
        rerun_used: Vec::new(),
        active_playbooks: vec![ActivePlaybook { id: PlaybookId::LedgerFreeze, expiry: 10 }],
    };
    assert_eq!(ok(&g, &q, &frozen, 10), Err(Error::FreezeActive));
    assert_eq!(ok(&g, &q, &frozen, 11), Ok(()));
    let other = Guardian {
        rerun_used: Vec::new(),
        active_playbooks: vec![ActivePlaybook { id: PlaybookId::Other, expiry: 100 }],
    };
    assert_eq!(ok(&g, &q, &other, 10), Ok(()));
    g.dead_man_freeze = true;
    assert_eq!(ok(&g, &q, &guardian(), 10), Err(Error::FreezeActive));
    g.dead_man_freeze = false;
    let mut c = q.clone();
    c.payload_len = 11;
    assert_eq!(ok(&g, &c, &guardian(), 10), Err(Error::PayloadTooLarge));
    let mut c = q.clone();
    c.class = ProposalClass::Constitutional;
    c.ratification_passed = true;
    assert_eq!(ok(&g, &c, &guardian(), 10), Err(Error::CapabilityDenied));
    let mut c = q.clone();
    c.declared_domains = vec![CallDomain::Public];
    assert_eq!(ok(&g, &c, &guardian(), 10), Err(Error::BadDomainDeclaration));
    let too_many: Vec<DispatchCall> = (0..17).map(|_| call(CallDomain::Param)).collect();
    assert_eq!(
        g.check_dispatch_time(&q, &guardian(), &att, &payload(too_many), 10, &vec![true; 17]),
        Err(Error::TooManyCalls)
    );
    let mut big = call(CallDomain::Param);
    big.encoded_len = u32::MAX;
    assert_eq!(
        g.check_dispatch_time(
            &q,
            &guardian(),
            &att,
            &payload(vec![big, call(CallDomain::Param)]),
            10,
            &vec![true, true]
        ),
        Err(Error::Overflow)
    );
}

#[test]
fn code_proposals_need_ratification_and_attestation() {
    let mut g = ExecutionGuard::new(vc(1));
    g.held_resources.push((1, *b"resource"));
    let mut q = queued(ProposalClass::Code);
    q.declared_domains = vec![CallDomain::Code];
    let p = || payload(vec![call(CallDomain::Code)]);
    let quorum = AttestorRegistry { attestations: vec![3], has_quorum: true };
    assert_eq!(
        g.check_dispatch_time(&q, &guardian(), &quorum, &p(), 10, &vec![true]),
        Err(Error::NotRatified)
    );
    q.ratification_passed = true;
    assert_eq!(
        g.check_dispatch_time(&q, &guardian(), &quorum, &p(), 10, &vec![true]),
        Err(Error::AttestationMissing)
    );
    q.attestation_id = Some(4);
    assert_eq!(
        g.check_dispatch_time(&q, &guardian(), &quorum, &p(), 10, &vec![true]),
        Err(Error::AttestationMissing)
    );
    q.attestation_id = Some(3);
    let no_quorum = AttestorRegistry { attestations: vec![3], has_quorum: false };
    assert_eq!(
        g.check_dispatch_time(&q, &guardian(), &no_quorum, &p(), 10, &vec![true]),
        Err(Error::AttestationMissing)
    );
    assert_eq!(g.check_dispatch_time(&q, &guardian(), &quorum, &p(), 10, &vec![true]), Ok(()));
}

#[test]
fn failed_call_is_reported_and_not_recorded() {
    let mut g = ExecutionGuard::new(vc(1));
    g.held_resources.push((1, *b"resource"));
    g.enqueue(GuardOrigin::EpochDecision, queued(ProposalClass::Param)).unwrap();
    let mut c1 = call(CallDomain::Param);
    c1.encoded_len = 5;
    let mut c2 = call(CallDomain::Param);
    c2.encoded_len = 5;
    c2.succeeds = false;
    c2.error = [1, 2, 3, 4];
    let r = g.execute(
        GuardOrigin::Signed,
        &guardian(),
        &no_attestations(),
        1,
        payload(vec![c1, c2]),
        10,
        h(1),
        h(2),
        &vec![true, true],
    );
    assert_eq!(r, Err(Error::DispatchFailed));
    assert_eq!(g.queue.len(), 1);
    assert!(g.records.is_empty());
    assert_eq!(
        g.events.last(),
        Some(&Event::ExecutionFailed {
            pid: 1,
            outcome: DispatchOutcomeCode::Failed { call_index: 1, error: [1, 2, 3, 4] }
        })
    );
}

#[test]
fn execute_refusals_change_nothing() {
    let mut g = ExecutionGuard::new(vc(1));
    g.enqueue(GuardOrigin::EpochDecision, queued(ProposalClass::Param)).unwrap();
    let before = g.clone();
    let run = |g: &mut ExecutionGuard, origin: GuardOrigin, pid: u64| {
        g.execute(
            origin,
            &guardian(),
            &no_attestations(),
            pid,
            payload(vec![call(CallDomain::Param)]),
            10,
            h(1),
            h(2),
            &vec![true],
        )
    };
    assert_eq!(run(&mut g, GuardOrigin::System, 1), Err(Error::BadOrigin));
    assert_eq!(run(&mut g, GuardOrigin::Signed, 7), Err(Error::NotFound));
    assert_eq!(run(&mut g, GuardOrigin::Signed, 1), Err(Error::ResourceLockMissing));
    assert_eq!(g, before);
    let record = ExecutionRecord {
        pid: 1,
        payload_hash: h(9),
        class: ProposalClass::Param,
        executed_at: 10,
        result: DispatchOutcomeCode::Success,
    };
    assert_eq!(g.complete_execution(record, false), Err(Error::DispatchFailed));
    assert_eq!(g, before);
}

#[test]
fn upgrade_authorization_refusals() {
    let mut g = ExecutionGuard::new(vc(1));
    let param = queued(ProposalClass::Param);
    assert_eq!(
        g.dispatch_batch(&param, &payload(vec![upgrade_call()]), 10, h(1), h(2)),
        Err(Error::BadUpgradePayload)
    );
    let code = queued(ProposalClass::Code);
    let mut no_hash = upgrade_call();
    no_hash.upgrade_hash = None;
    assert_eq!(
        g.dispatch_batch(&code, &payload(vec![no_hash]), 10, h(1), h(2)),
        Err(Error::BadUpgradePayload)
    );
    assert_eq!(
        g.dispatch_batch(&code, &payload(vec![upgrade_call()]), u32::MAX - 10, h(1), h(2)),
        Err(Error::Overflow)
    );
    assert_eq!(
        g.dispatch_batch(&code, &payload(vec![upgrade_call()]), 10, h(1), h(2)),
        Ok(DispatchOutcomeCode::Success)
    );
    assert_eq!(
        g.dispatch_batch(&code, &payload(vec![upgrade_call()]), 11, h(1), h(2)),
        Err(Error::PendingUpgradeExists)
    );
    assert_eq!(
        g.apply_authorized_upgrade(GuardOrigin::System, h(7), 2, 50_000),
        Err(Error::BadOrigin)
    );
    assert_eq!(
        g.apply_authorized_upgrade(GuardOrigin::Signed, h(6), 2, 50_000),
        Err(Error::UpgradeHashMismatch)
    );
    g.apply_authorized_upgrade(GuardOrigin::Signed, h(7), 2, 43_210).unwrap();
    assert_eq!(
        g.apply_authorized_upgrade(GuardOrigin::Signed, h(7), 2, 50_000),
        Err(Error::NoPendingUpgrade)
    );
    assert_eq!(
        g.events.last(),
        Some(&Event::UpgradeApplied { code_hash: h(7), spec_version: 2 })
    );
}

#[test]
fn reject_drops_only_handled_reasons() {
    let mut g = ExecutionGuard::new(vc(1));
    g.enqueue(GuardOrigin::EpochDecision, queued(ProposalClass::Param)).unwrap();
    assert_eq!(g.reject_stale_or_unratified(1, RejectReason::Other), Err(Error::StaleQueue));
    assert_eq!(g.queue.len(), 1);
    g.reject_stale_or_unratified(1, RejectReason::NotRatified).unwrap();
    assert!(g.queue.is_empty());
    assert_eq!(
        g.events.last(),
        Some(&Event::Rejected { pid: 1, reason: RejectReason::NotRatified })
    );
    g.reject_stale_or_unratified(5, RejectReason::AttestationMissing).unwrap();
    assert_eq!(g.events.len(), 3);
}

#[test]
fn view_reports_ratification_and_meters() {
    let mut g = ExecutionGuard::new(vc(1));
    g.enqueue(GuardOrigin::EpochDecision, queued(ProposalClass::Param)).unwrap();
    let mut q = queued(ProposalClass::Meta);
    q.pid = 2;
    g.enqueue(GuardOrigin::EpochDecision, q).unwrap();
    g.blocked_meters.push(*b"resource");
    let v = g.view();
    assert_eq!(v.len(), 2);
    assert_eq!(v[0].ratification, RatificationStatus::NotRequired);
    assert_eq!(v[1].ratification, RatificationStatus::Failed { referendum: 0 });
    assert!(!v[0].meters_clear);
    assert_eq!(v[1].version_constraint, vc(1));
    assert_eq!(benchmark_stub(), 11);
}

#[test]
fn guard_domain_maps_to_filter_domain() {
    assert_eq!(ODomain::from(CallDomain::Treasury), ODomain::Treasury);
    assert_eq!(ODomain::from(CallDomain::InternalRootAuthorizeUpgrade), ODomain::InternalRoot);
    assert_eq!(ODomain::from(CallDomain::InternalRootApplyUpgrade), ODomain::InternalRoot);
}
