//! Properties that hold across the execution guard's operations.

use vstd::prelude::*;
use crate::primitives::{BlockNumber, H256, ProposalClass, ProposalId, RejectReason};
use crate::origins::spec_origin_for_class;
use crate::seq_util::{first_match, lemma_first_match_props};
use super::types::{
    AttestorRegistry, CallDomain, DispatchCall, Error, ExecutionRecord, Guardian, GuardOrigin, GuardState,
    Payload, QueuedExecution, DESCRIPTOR_LEAD_TIME, MAX_EXECUTION_RECORDS, MAX_PAYLOAD_BYTES,
    MAX_QUEUE,
};
use super::spec::{
    authorized_upgrade, authorizes_upgrade, batch_outcome, call_check, calls_check,
    dispatch_check, freeze_active, is_code_or_meta, meters_clear, meters_held,
    needs_ratification, pid_is, spec_domain_allowed, queue_bounds, queue_item_bounds, ring_push, total_len,
};

verus! {

/// The per-item bounds of a queue hold exactly when they hold of every item.
pub proof fn lemma_queue_bounds_all(q: Seq<QueuedExecution>)
    ensures
        queue_bounds(q) is Ok <==> forall|i: int| 0 <= i < q.len() ==> (#[trigger] queue_item_bounds(
            q[i],
        )) is Ok,
    decreases q.len(),
{
    if q.len() > 0 {
        lemma_queue_bounds_all(q.drop_first());
        if queue_bounds(q) is Ok {
            assert forall|i: int| 0 <= i < q.len() implies (#[trigger] queue_item_bounds(
                q[i],
            )) is Ok by {
                if i > 0 {
                    assert(q[i] == q.drop_first()[i - 1]);
                }
            }
        }
        if forall|i: int| 0 <= i < q.len() ==> (#[trigger] queue_item_bounds(q[i])) is Ok {
            assert(queue_item_bounds(q[0]) is Ok);
            assert forall|i: int| 0 <= i < q.drop_first().len() implies (#[trigger] queue_item_bounds(
                q.drop_first()[i],
            )) is Ok by {
                assert(q.drop_first()[i] == q[i + 1]);
            }
        }
    }
}

/// Every proposal is queued at most once.
pub open spec fn unique_pids(q: Seq<QueuedExecution>) -> bool {
    forall|i: int, j: int| 0 <= i < q.len() && 0 <= j < q.len() && i != j ==> q[i].pid != q[j].pid
}

/// The capacity of the queue, the ring and each queued item's bounds are kept
/// by enqueueing an item whose payload length is in bounds. (An item with a
/// longer payload is admitted by `enqueue` and then fails the state checks.)
pub proof fn law_enqueue_keeps_bounds(s: GuardState, origin: GuardOrigin, item: QueuedExecution)
    requires
        s.bounded(),
        item.payload_len <= MAX_PAYLOAD_BYTES,
    ensures
        s.enqueue(origin, item).0.bounded(),
{
    lemma_queue_bounds_all(s.queue);
    let s1 = s.enqueue(origin, item).0;
    lemma_queue_bounds_all(s1.queue);
    if s.enqueue(origin, item).1 is Ok {
        assert forall|i: int| 0 <= i < s1.queue.len() implies (#[trigger] queue_item_bounds(
            s1.queue[i],
        )) is Ok by {
            if i < s.queue.len() {
                assert(s1.queue[i] == s.queue[i]);
            }
        }
    }
}

/// Enqueueing keeps every proposal queued at most once.
pub proof fn law_enqueue_keeps_pids_unique(s: GuardState, origin: GuardOrigin, item: QueuedExecution)
    requires
        unique_pids(s.queue),
    ensures
        unique_pids(s.enqueue(origin, item).0.queue),
{
    lemma_first_match_props(s.queue, pid_is(item.pid));
    let q1 = s.enqueue(origin, item).0.queue;
    if s.enqueue(origin, item).1 is Ok {
        assert forall|i: int, j: int|
            0 <= i < q1.len() && 0 <= j < q1.len() && i != j implies q1[i].pid != q1[j].pid by {
            if i == s.queue.len() {
                assert(!pid_is(item.pid)(s.queue[j]));
            } else if j == s.queue.len() {
                assert(!pid_is(item.pid)(s.queue[i]));
            }
        }
    }
}

/// Removing an item keeps the per-item bounds.
pub proof fn lemma_queue_bounds_remove(q: Seq<QueuedExecution>, k: int)
    requires
        queue_bounds(q) is Ok,
        0 <= k < q.len(),
    ensures
        queue_bounds(q.remove(k)) is Ok,
{
    lemma_queue_bounds_all(q);
    lemma_queue_bounds_all(q.remove(k));
    assert forall|i: int| 0 <= i < q.remove(k).len() implies (#[trigger] queue_item_bounds(
        q.remove(k)[i],
    )) is Ok by {
        if i < k {
            assert(q.remove(k)[i] == q[i]);
        } else {
            assert(q.remove(k)[i] == q[i + 1]);
        }
    }
}

/// Replacing an item by one with the same bounded fields keeps the per-item bounds.
pub proof fn lemma_queue_bounds_update(q: Seq<QueuedExecution>, k: int, x: QueuedExecution)
    requires
        queue_bounds(q) is Ok,
        0 <= k < q.len(),
        x.payload_len == q[k].payload_len,
        x.meters_declared == q[k].meters_declared,
        x.declared_domains == q[k].declared_domains,
    ensures
        queue_bounds(q.update(k, x)) is Ok,
{
    lemma_queue_bounds_all(q);
    lemma_queue_bounds_all(q.update(k, x));
    assert forall|i: int| 0 <= i < q.update(k, x).len() implies (#[trigger] queue_item_bounds(
        q.update(k, x)[i],
    )) is Ok by {
        if i != k {
            assert(q.update(k, x)[i] == q[i]);
        } else {
            assert(queue_item_bounds(q[k]) is Ok);
        }
    }
}

/// Dispatching a batch keeps the state checks passing.
pub proof fn law_dispatch_keeps_bounds(
    s: GuardState,
    class: crate::primitives::ProposalClass,
    pid: ProposalId,
    calls: Seq<DispatchCall>,
    now: BlockNumber,
    block_hash: H256,
    state_root: H256,
)
    requires
        s.bounded(),
    ensures
        s.dispatch_batch(class, pid, calls, now, block_hash, state_root).0.bounded(),
{
    lemma_first_match_props(s.queue, pid_is(pid));
    match first_match(s.queue, pid_is(pid)) {
        Some(j) => {
            lemma_queue_bounds_update(
                s.queue,
                j,
                QueuedExecution { pre_upgrade_checkpoint: Some((block_hash, state_root)), ..s.queue[j] },
            );
        },
        None => {},
    }
}

/// Ratification, execution, completion, upgrade application and rejection
/// keep the state checks passing.
pub proof fn law_operations_keep_bounds(
    s: GuardState,
    origin: GuardOrigin,
    guardian: Guardian,
    attestors: AttestorRegistry,
    pid: ProposalId,
    referendum_index: u32,
    payload: Payload,
    now: BlockNumber,
    block_hash: H256,
    state_root: H256,
    admitted: Seq<bool>,
    record: ExecutionRecord,
    epoch_marked: bool,
    code_hash: H256,
    observed_spec_version: u32,
    reason: RejectReason,
)
    requires
        s.bounded(),
    ensures
        s.ratify(origin, pid, referendum_index).0.bounded(),
        s.execute(
            origin,
            guardian,
            attestors,
            pid,
            payload,
            now,
            block_hash,
            state_root,
            admitted,
        ).0.bounded(),
        s.complete_execution(record, epoch_marked).0.bounded(),
        s.apply_authorized_upgrade(origin, code_hash, observed_spec_version, now).0.bounded(),
        s.reject_stale_or_unratified(pid, reason).0.bounded(),
{
    lemma_first_match_props(s.queue, pid_is(pid));
    match first_match(s.queue, pid_is(pid)) {
        Some(i) => {
            lemma_queue_bounds_update(
                s.queue,
                i,
                QueuedExecution { ratification_passed: true, ..s.queue[i] },
            );
            lemma_queue_bounds_remove(s.queue, i);
            let q = s.queue[i];
            law_dispatch_keeps_bounds(s, q.class, q.pid, payload.calls@, now, block_hash, state_root);
            let s1 = s.dispatch_batch(q.class, q.pid, payload.calls@, now, block_hash, state_root).0;
            if s1.queue.len() == s.queue.len() {
                lemma_queue_bounds_remove(s1.queue, i);
            }
        },
        None => {},
    }
}

/// Every call of a batch that passed the per-call checks was declared,
/// allowed to the class and admitted by the safety filter.
pub proof fn lemma_calls_check_all(
    declared: Seq<crate::execution_guard::types::CallDomain>,
    class: crate::primitives::ProposalClass,
    calls: Seq<DispatchCall>,
    admitted: Seq<bool>,
)
    requires
        calls_check(declared, class, calls, admitted) is Ok,
        admitted.len() == calls.len(),
    ensures
        forall|i: int| 0 <= i < calls.len() ==> #[trigger] call_check(declared, class, calls[i], admitted[i])
            is Ok,
    decreases calls.len(),
{
    if calls.len() > 0 {
        lemma_calls_check_all(declared, class, calls.drop_first(), admitted.drop_first());
        assert forall|i: int| 0 <= i < calls.len() implies #[trigger] call_check(
            declared,
            class,
            calls[i],
            admitted[i],
        ) is Ok by {
            if i > 0 {
                assert(calls[i] == calls.drop_first()[i - 1]);
                assert(admitted[i] == admitted.drop_first()[i - 1]);
            }
        }
    }
}

/// A proposal is executed only when it is queued, mature and within its
/// grace period, not cancelled, bound to the running runtime, ratified and
/// attested where its class needs it, free of blocked meters and holding its
/// locks, not held by the guardians, not frozen, carrying the declared
/// payload, and when every call is declared, allowed to its class and
/// admitted by the safety filter.
pub proof fn law_execution_passes_every_gate(
    s: GuardState,
    origin: GuardOrigin,
    guardian: Guardian,
    attestors: AttestorRegistry,
    pid: ProposalId,
    payload: Payload,
    now: BlockNumber,
    block_hash: H256,
    state_root: H256,
    admitted: Seq<bool>,
)
    requires
        admitted.len() == payload.calls@.len(),
        s.execute(
            origin,
            guardian,
            attestors,
            pid,
            payload,
            now,
            block_hash,
            state_root,
            admitted,
        ).1 is Ok,
    ensures
        origin == GuardOrigin::Signed,
        first_match(s.queue, pid_is(pid)) is Some,
        ({
            let q = s.queue[first_match(s.queue, pid_is(pid))->0];
            &&& q.pid == pid
            &&& !q.cancelled
            &&& q.maturity <= now <= q.grace_end
            &&& q.payload_hash == payload.hash
            &&& q.version_constraint.spec_name@ == s.spec_name
            &&& q.version_constraint.spec_version == s.spec_version
            &&& (needs_ratification(q.class) ==> q.ratification_passed)
            &&& (is_code_or_meta(q.class) ==> q.attestation_id is Some
                && attestors.attestations@.contains(q.attestation_id->0) && attestors.has_quorum)
            &&& meters_clear(q.meters_declared@, s.blocked_meters)
            &&& meters_held(q.pid, q.meters_declared@, s.held_resources)
            &&& !guardian.rerun_used@.contains(q.pid)
            &&& !freeze_active(guardian.active_playbooks@, now)
            &&& !s.hard_gate_breach && !s.dead_man_freeze && !s.migration_halt
            &&& total_len(payload.calls@) == q.payload_len <= MAX_PAYLOAD_BYTES
            &&& spec_origin_for_class(q.class) is Some
            &&& forall|i: int|
                0 <= i < payload.calls@.len() ==> #[trigger] call_check(
                    q.declared_domains@,
                    q.class,
                    payload.calls@[i],
                    admitted[i],
                ) is Ok
        }),
{
    lemma_first_match_props(s.queue, pid_is(pid));
    let i = first_match(s.queue, pid_is(pid))->0;
    let q = s.queue[i];
    assert(dispatch_check(s, q, guardian, attestors, payload, now, admitted) is Ok);
    lemma_calls_check_all(q.declared_domains@, q.class, payload.calls@, admitted);
}

/// An upgrade authorized by a batch can be applied only with the authorized
/// code hash and no earlier than the descriptor lead time after its
/// authorization, and only code and meta proposals authorize upgrades.
pub proof fn law_upgrade_waits_for_lead_time(
    s: GuardState,
    class: crate::primitives::ProposalClass,
    pid: ProposalId,
    calls: Seq<DispatchCall>,
    now: BlockNumber,
    block_hash: H256,
    state_root: H256,
    origin: GuardOrigin,
    code_hash: H256,
    observed_spec_version: u32,
    later: BlockNumber,
)
    requires
        s.pending_upgrade is None,
        authorized_upgrade(s.pending_upgrade, class, calls, now) matches Ok(Some(_)),
        batch_outcome(calls) == crate::primitives::DispatchOutcomeCode::Success,
        s.dispatch_batch(class, pid, calls, now, block_hash, state_root).0.apply_authorized_upgrade(
            origin,
            code_hash,
            observed_spec_version,
            later,
        ).1 is Ok,
    ensures
        is_code_or_meta(class),
        later >= now + DESCRIPTOR_LEAD_TIME,
        first_match(calls, authorizes_upgrade()) is Some,
        calls[first_match(calls, authorizes_upgrade())->0].upgrade_hash == Some(code_hash),
{
}

/// A refused operation leaves the guard as it was; the one exception is a
/// batch that declares a dispatch failure, which is reported by an event.
pub proof fn law_refusals_change_nothing(
    s: GuardState,
    origin: GuardOrigin,
    item: QueuedExecution,
    guardian: Guardian,
    attestors: AttestorRegistry,
    pid: ProposalId,
    referendum_index: u32,
    payload: Payload,
    now: BlockNumber,
    block_hash: H256,
    state_root: H256,
    admitted: Seq<bool>,
    record: ExecutionRecord,
    epoch_marked: bool,
    code_hash: H256,
    observed_spec_version: u32,
    reason: RejectReason,
)
    ensures
        s.enqueue(origin, item).1 is Err ==> s.enqueue(origin, item).0 == s,
        s.ratify(origin, pid, referendum_index).1 is Err ==> s.ratify(origin, pid, referendum_index).0
            == s,
        s.complete_execution(record, epoch_marked).1 is Err ==> s.complete_execution(
            record,
            epoch_marked,
        ).0 == s,
        s.apply_authorized_upgrade(origin, code_hash, observed_spec_version, now).1 is Err
            ==> s.apply_authorized_upgrade(origin, code_hash, observed_spec_version, now).0 == s,
        s.reject_stale_or_unratified(pid, reason).1 is Err ==> s.reject_stale_or_unratified(
            pid,
            reason,
        ).0 == s,
        ({
            let (s1, r) = s.execute(
                origin,
                guardian,
                attestors,
                pid,
                payload,
                now,
                block_hash,
                state_root,
                admitted,
            );
            r is Err ==> (r == Err::<ExecutionRecord, Error>(Error::DispatchFailed) && s1 == s.with_events(
                seq![
                    crate::execution_guard::types::Event::ExecutionFailed {
                        pid,
                        outcome: batch_outcome(payload.calls@),
                    },
                ],
            )) || s1 == s
        }),
{
    let (s1, r) = s.execute(
        origin,
        guardian,
        attestors,
        pid,
        payload,
        now,
        block_hash,
        state_root,
        admitted,
    );
    if r is Err && s1 != s {
        let i = first_match(s.queue, pid_is(pid))->0;
        let q = s.queue[i];
        assert(s.dispatch_batch(q.class, q.pid, payload.calls@, now, block_hash, state_root).0 == s);
    }
}

/// The record ring keeps the most recent records in order: the new record is
/// last, at most `MAX_EXECUTION_RECORDS` records are kept once the ring is
/// full or below, and what is kept is a suffix of all records so far.
pub proof fn law_ring_keeps_latest(records: Seq<ExecutionRecord>, record: ExecutionRecord)
    requires
        records.len() <= MAX_EXECUTION_RECORDS,
    ensures
        ring_push(records, record).len() <= MAX_EXECUTION_RECORDS,
        ring_push(records, record).last() == record,
        ring_push(records, record) == records.push(record).subrange(
            records.push(record).len() - ring_push(records, record).len(),
            records.push(record).len() as int,
        ),
{
    assert(ring_push(records, record) =~= records.push(record).subrange(
        records.push(record).len() - ring_push(records, record).len(),
        records.push(record).len() as int,
    ));
}

/// The class that owns a capability domain: public calls belong to every
/// class, and each other domain to exactly one class (the code class owns
/// code and both internal-root upgrade domains).
pub open spec fn class_owns(class: ProposalClass, domain: CallDomain) -> bool {
    ||| domain == CallDomain::Public
    ||| domain == CallDomain::Param && class == ProposalClass::Param
    ||| domain == CallDomain::Treasury && class == ProposalClass::Treasury
    ||| domain == CallDomain::Code && class == ProposalClass::Code
    ||| domain == CallDomain::InternalRootAuthorizeUpgrade && class == ProposalClass::Code
    ||| domain == CallDomain::InternalRootApplyUpgrade && class == ProposalClass::Code
    ||| domain == CallDomain::Meta && class == ProposalClass::Meta
}

/// A call of a capability domain is allowed to a proposal class exactly when
/// the class owns the domain; in particular no class but its owner may
/// dispatch a non-public call.
pub proof fn law_capability_follows_domain_owner(class: ProposalClass, domain: CallDomain)
    ensures
        spec_domain_allowed(class, domain) <==> class_owns(class, domain),
        domain != CallDomain::Public && spec_domain_allowed(class, domain) ==> forall|other: ProposalClass|
            #![trigger spec_domain_allowed(other, domain)]
            spec_domain_allowed(other, domain) ==> other == class,
{
}

/// A call whose domain its class does not own is refused as a capability
/// breach once it is declared, whatever the safety filter says of it.
pub proof fn law_unowned_call_is_capability_denied(
    declared: Seq<CallDomain>,
    class: ProposalClass,
    call: DispatchCall,
    admitted: bool,
)
    requires
        declared.contains(call.domain),
        !class_owns(class, call.domain),
    ensures
        call_check(declared, class, call, admitted) == Err::<(), Error>(Error::CapabilityDenied),
{
}

/// Every call of an executed proposal is of a domain that its class owns.
pub proof fn law_executed_calls_are_owned_by_class(
    s: GuardState,
    origin: GuardOrigin,
    guardian: Guardian,
    attestors: AttestorRegistry,
    pid: ProposalId,
    payload: Payload,
    now: BlockNumber,
    block_hash: H256,
    state_root: H256,
    admitted: Seq<bool>,
)
    requires
        admitted.len() == payload.calls@.len(),
        s.execute(
            origin,
            guardian,
            attestors,
            pid,
            payload,
            now,
            block_hash,
            state_root,
            admitted,
        ).1 is Ok,
    ensures
        forall|i: int|
            0 <= i < payload.calls@.len() ==> class_owns(
                s.queue[first_match(s.queue, pid_is(pid))->0].class,
                #[trigger] payload.calls@[i].domain,
            ),
{
    law_execution_passes_every_gate(
        s,
        origin,
        guardian,
        attestors,
        pid,
        payload,
        now,
        block_hash,
        state_root,
        admitted,
    );
    let q = s.queue[first_match(s.queue, pid_is(pid))->0];
    assert forall|i: int| 0 <= i < payload.calls@.len() implies class_owns(
        q.class,
        #[trigger] payload.calls@[i].domain,
    ) by {
        assert(call_check(q.declared_domains@, q.class, payload.calls@[i], admitted[i]) is Ok);
    }
}

} // verus!
