//! What each operation of the execution guard does, as functions on the
//! guard's abstract state.

use vstd::prelude::*;
use crate::primitives::{
    same_version, BlockNumber, DispatchOutcomeCode, H256, ProposalClass, ProposalId,
    QueuedExecutionView, RatificationStatus, RejectReason, ResourceId,
};
use crate::origins::spec_origin_for_class;
use crate::seq_util::first_match;
use super::types::{
    ActivePlaybook, AttestorRegistry, CallDomain, DispatchCall, Error, Event, ExecutionRecord,
    Guardian, GuardOrigin, GuardState, Payload, PendingUpgrade, PlaybookId, QueuedExecution,
    DESCRIPTOR_LEAD_TIME, MAX_CALLS, MAX_DECLARED_DOMAINS, MAX_EXECUTION_RECORDS, MAX_PAYLOAD_BYTES,
    MAX_QUEUE, MAX_RESOURCE_LOCKS,
};

verus! {

/// Code, meta and constitutional proposals need a ratification referendum.
pub open spec fn needs_ratification(class: ProposalClass) -> bool {
    class == ProposalClass::Code || class == ProposalClass::Meta || class
        == ProposalClass::Constitutional
}

/// Code and meta proposals need an attestation quorum and may authorize upgrades.
pub open spec fn is_code_or_meta(class: ProposalClass) -> bool {
    class == ProposalClass::Code || class == ProposalClass::Meta
}

/// Which call domains a proposal class may dispatch.
pub open spec fn spec_domain_allowed(class: ProposalClass, domain: CallDomain) -> bool {
    match domain {
        CallDomain::Public => true,
        CallDomain::Param => class == ProposalClass::Param,
        CallDomain::Treasury => class == ProposalClass::Treasury,
        CallDomain::Code => class == ProposalClass::Code,
        CallDomain::InternalRootAuthorizeUpgrade => class == ProposalClass::Code,
        CallDomain::InternalRootApplyUpgrade => class == ProposalClass::Code,
        CallDomain::Meta => class == ProposalClass::Meta,
    }
}

/// Matches the queued execution of a proposal.
pub open spec fn pid_is(pid: ProposalId) -> spec_fn(QueuedExecution) -> bool {
    |q: QueuedExecution| q.pid == pid
}

/// Matches a call that declares a dispatch failure.
pub open spec fn call_fails() -> spec_fn(DispatchCall) -> bool {
    |c: DispatchCall| !c.succeeds
}

/// Matches a call that authorizes a runtime upgrade.
pub open spec fn authorizes_upgrade() -> spec_fn(DispatchCall) -> bool {
    |c: DispatchCall| c.domain == CallDomain::InternalRootAuthorizeUpgrade
}

/// No declared meter is blocked.
pub open spec fn meters_clear(meters: Seq<ResourceId>, blocked: Seq<ResourceId>) -> bool {
    forall|i: int| 0 <= i < meters.len() ==> !blocked.contains(#[trigger] meters[i])
}

/// Every declared meter is held by the proposal.
pub open spec fn meters_held(
    pid: ProposalId,
    meters: Seq<ResourceId>,
    held: Seq<(ProposalId, ResourceId)>,
) -> bool {
    forall|i: int| 0 <= i < meters.len() ==> held.contains((pid, #[trigger] meters[i]))
}

/// A ledger-freeze playbook is active at `now`.
pub open spec fn freeze_active(playbooks: Seq<ActivePlaybook>, now: BlockNumber) -> bool {
    exists|i: int|
        0 <= i < playbooks.len() && (#[trigger] playbooks[i]).id == PlaybookId::LedgerFreeze
            && now <= playbooks[i].expiry
}

/// Sum of the encoded lengths of the calls.
pub open spec fn total_len(calls: Seq<DispatchCall>) -> int
    decreases calls.len(),
{
    if calls.len() == 0 {
        0
    } else {
        total_len(calls.drop_last()) + calls.last().encoded_len
    }
}

/// The check of one call: declared, allowed to the class, admitted by the
/// safety filter.
pub open spec fn call_check(
    declared: Seq<CallDomain>,
    class: ProposalClass,
    call: DispatchCall,
    admitted: bool,
) -> Result<(), Error> {
    if !declared.contains(call.domain) {
        Err(Error::BadDomainDeclaration)
    } else if !spec_domain_allowed(class, call.domain) {
        Err(Error::CapabilityDenied)
    } else if !admitted {
        Err(Error::SafetyFilter)
    } else {
        Ok(())
    }
}

/// The checks of all calls, in order; the first failure wins.
pub open spec fn calls_check(
    declared: Seq<CallDomain>,
    class: ProposalClass,
    calls: Seq<DispatchCall>,
    admitted: Seq<bool>,
) -> Result<(), Error>
    decreases calls.len(),
{
    if calls.len() == 0 {
        Ok(())
    } else {
        match call_check(declared, class, calls[0], admitted[0]) {
            Err(e) => Err(e),
            Ok(_) => calls_check(declared, class, calls.drop_first(), admitted.drop_first()),
        }
    }
}

/// What the dispatch-time checks decide, in the order in which they are made.
/// `admitted[i]` is the safety filter's verdict on call `i` for the class's origin.
pub open spec fn dispatch_check(
    s: GuardState,
    q: QueuedExecution,
    guardian: Guardian,
    attestors: AttestorRegistry,
    payload: Payload,
    now: BlockNumber,
    admitted: Seq<bool>,
) -> Result<(), Error> {
    let calls = payload.calls@;
    if q.cancelled {
        Err(Error::Cancelled)
    } else if now < q.maturity {
        Err(Error::NotMature)
    } else if now > q.grace_end {
        Err(Error::GraceExpired)
    } else if !(payload.hash == q.payload_hash && q.payload_len <= MAX_PAYLOAD_BYTES) {
        Err(Error::BadPreimage)
    } else if !(q.version_constraint.spec_name@ == s.spec_name
        && q.version_constraint.spec_version == s.spec_version) {
        Err(Error::StaleQueue)
    } else if needs_ratification(q.class) && !q.ratification_passed {
        Err(Error::NotRatified)
    } else if is_code_or_meta(q.class) && (q.attestation_id is None
        || !attestors.attestations@.contains(q.attestation_id->0) || !attestors.has_quorum) {
        Err(Error::AttestationMissing)
    } else if !meters_clear(q.meters_declared@, s.blocked_meters) {
        Err(Error::MetersBlocked)
    } else if !meters_held(q.pid, q.meters_declared@, s.held_resources) {
        Err(Error::ResourceLockMissing)
    } else if guardian.rerun_used@.contains(q.pid) {
        Err(Error::GuardianHold)
    } else if freeze_active(guardian.active_playbooks@, now) {
        Err(Error::FreezeActive)
    } else if s.hard_gate_breach || s.dead_man_freeze || s.migration_halt {
        Err(Error::FreezeActive)
    } else if calls.len() > MAX_CALLS {
        Err(Error::TooManyCalls)
    } else if total_len(calls) > u32::MAX {
        Err(Error::Overflow)
    } else if !(total_len(calls) == q.payload_len && total_len(calls) <= MAX_PAYLOAD_BYTES) {
        Err(Error::PayloadTooLarge)
    } else if spec_origin_for_class(q.class) is None {
        Err(Error::CapabilityDenied)
    } else {
        calls_check(q.declared_domains@, q.class, calls, admitted)
    }
}

/// The outcome of dispatching the calls: the first declared failure, if any.
pub open spec fn batch_outcome(calls: Seq<DispatchCall>) -> DispatchOutcomeCode {
    match first_match(calls, call_fails()) {
        Some(i) => DispatchOutcomeCode::Failed { call_index: i as u8, error: calls[i].error },
        None => DispatchOutcomeCode::Success,
    }
}

/// The upgrade that a successful batch authorizes: none, a new pending
/// upgrade, or the reason for which the authorization is refused.
pub open spec fn authorized_upgrade(
    pending: Option<PendingUpgrade>,
    class: ProposalClass,
    calls: Seq<DispatchCall>,
    now: BlockNumber,
) -> Result<Option<PendingUpgrade>, Error> {
    match first_match(calls, authorizes_upgrade()) {
        None => Ok(None),
        Some(i) => {
            let c = calls[i];
            if !is_code_or_meta(class) {
                Err(Error::BadUpgradePayload)
            } else if pending is Some {
                Err(Error::PendingUpgradeExists)
            } else if c.upgrade_hash is None || c.target_spec_version is None {
                Err(Error::BadUpgradePayload)
            } else if now + DESCRIPTOR_LEAD_TIME > u32::MAX {
                Err(Error::Overflow)
            } else {
                Ok(
                    Some(
                        PendingUpgrade {
                            hash: c.upgrade_hash->0,
                            authorized_at: now,
                            applicable_at: (now + DESCRIPTOR_LEAD_TIME) as u32,
                            target_spec_version: c.target_spec_version->0,
                        },
                    ),
                )
            }
        },
    }
}

/// Appends to the record ring, dropping the oldest record when it is full.
pub open spec fn ring_push(records: Seq<ExecutionRecord>, record: ExecutionRecord) -> Seq<
    ExecutionRecord,
> {
    if records.len() == MAX_EXECUTION_RECORDS {
        records.drop_first().push(record)
    } else {
        records.push(record)
    }
}

/// The ratification state shown for a queued execution.
pub open spec fn ratification_status(q: QueuedExecution) -> RatificationStatus {
    if !needs_ratification(q.class) {
        RatificationStatus::NotRequired
    } else {
        match q.ratify_ref {
            Some(r) => if q.ratification_passed {
                RatificationStatus::Passed { referendum: r }
            } else {
                RatificationStatus::Pending { referendum: r }
            },
            None => RatificationStatus::Failed { referendum: 0 },
        }
    }
}

/// `v` shows the queued execution `q` under the blocked meters `blocked`.
pub open spec fn queued_view_of(v: QueuedExecutionView, q: QueuedExecution, blocked: Seq<ResourceId>) -> bool {
    &&& v.pid == q.pid
    &&& v.class == q.class
    &&& v.payload_hash == q.payload_hash
    &&& v.maturity == q.maturity
    &&& v.grace_end == q.grace_end
    &&& same_version(v.version_constraint, q.version_constraint)
    &&& v.cancelled == q.cancelled
    &&& v.ratification == ratification_status(q)
    &&& v.meters_clear == meters_clear(q.meters_declared@, blocked)
}

/// The first queued execution that breaks a per-item bound.
pub open spec fn queue_item_bounds(q: QueuedExecution) -> Result<(), Error> {
    if q.payload_len > MAX_PAYLOAD_BYTES {
        Err(Error::PayloadTooLarge)
    } else if q.meters_declared@.len() > MAX_RESOURCE_LOCKS {
        Err(Error::TooManyLocks)
    } else if q.declared_domains@.len() > MAX_DECLARED_DOMAINS {
        Err(Error::TooManyDomains)
    } else {
        Ok(())
    }
}

/// The per-item bounds of a queue, checked in order.
pub open spec fn queue_bounds(queue: Seq<QueuedExecution>) -> Result<(), Error>
    decreases queue.len(),
{
    if queue.len() == 0 {
        Ok(())
    } else {
        match queue_item_bounds(queue[0]) {
            Err(e) => Err(e),
            Ok(_) => queue_bounds(queue.drop_first()),
        }
    }
}

impl GuardState {
    /// Every field unchanged but the events, which are extended.
    pub open spec fn with_events(self, events: Seq<Event>) -> GuardState {
        GuardState { events: self.events + events, ..self }
    }

    /// What the state checks decide.
    pub open spec fn try_state(self) -> Result<(), Error> {
        if self.queue.len() > MAX_QUEUE {
            Err(Error::QueueFull)
        } else if self.records.len() > MAX_EXECUTION_RECORDS {
            Err(Error::QueueFull)
        } else {
            queue_bounds(self.queue)
        }
    }

    /// The state checks pass.
    pub open spec fn bounded(self) -> bool {
        self.try_state() is Ok
    }

    /// Enqueueing an execution decided by the epoch.
    pub open spec fn enqueue(self, origin: GuardOrigin, item: QueuedExecution) -> (
        GuardState,
        Result<(), Error>,
    ) {
        if origin != GuardOrigin::EpochDecision {
            (self, Err(Error::BadOrigin))
        } else if self.queue.len() >= MAX_QUEUE {
            (self, Err(Error::QueueFull))
        } else if item.meters_declared@.len() > MAX_RESOURCE_LOCKS {
            (self, Err(Error::TooManyLocks))
        } else if item.declared_domains@.len() > MAX_DECLARED_DOMAINS {
            (self, Err(Error::TooManyDomains))
        } else if first_match(self.queue, pid_is(item.pid)) is Some {
            (self, Err(Error::QueueFull))
        } else {
            (
                GuardState {
                    queue: self.queue.push(item),
                    events: self.events.push(Event::Enqueued { pid: item.pid, maturity: item.maturity }),
                    ..self
                },
                Ok(()),
            )
        }
    }

    /// Recording the ratification referendum of a queued execution.
    pub open spec fn ratify(self, origin: GuardOrigin, pid: ProposalId, referendum_index: u32) -> (
        GuardState,
        Result<(), Error>,
    ) {
        if origin != GuardOrigin::RatifyTrack {
            (self, Err(Error::BadOrigin))
        } else {
            match first_match(self.queue, pid_is(pid)) {
                None => (self, Err(Error::NotFound)),
                Some(i) => if self.queue[i].ratify_ref != Some(referendum_index) {
                    (self, Err(Error::NotRatified))
                } else {
                    (
                        GuardState {
                            queue: self.queue.update(
                                i,
                                QueuedExecution { ratification_passed: true, ..self.queue[i] },
                            ),
                            events: self.events.push(Event::Ratified { pid, referendum_index }),
                            ..self
                        },
                        Ok(()),
                    )
                },
            }
        }
    }

    /// Dispatching a batch for a queued execution of class `class`: a declared
    /// failure is reported; otherwise an upgrade authorization, if the batch
    /// holds one, is recorded.
    pub open spec fn dispatch_batch(
        self,
        class: ProposalClass,
        pid: ProposalId,
        calls: Seq<DispatchCall>,
        now: BlockNumber,
        block_hash: H256,
        state_root: H256,
    ) -> (GuardState, Result<DispatchOutcomeCode, Error>) {
        let outcome = batch_outcome(calls);
        if outcome != DispatchOutcomeCode::Success {
            (self, Ok(outcome))
        } else {
            match authorized_upgrade(self.pending_upgrade, class, calls, now) {
                Err(e) => (self, Err(e)),
                Ok(None) => (self, Ok(DispatchOutcomeCode::Success)),
                Ok(Some(p)) => (
                    GuardState {
                        pending_upgrade: Some(p),
                        queue: match first_match(self.queue, pid_is(pid)) {
                            Some(j) => self.queue.update(
                                j,
                                QueuedExecution {
                                    pre_upgrade_checkpoint: Some((block_hash, state_root)),
                                    ..self.queue[j]
                                },
                            ),
                            None => self.queue,
                        },
                        events: self.events.push(
                            Event::UpgradeAuthorized {
                                code_hash: p.hash,
                                authorized_at: p.authorized_at,
                                applicable_at: p.applicable_at,
                            },
                        ),
                        ..self
                    },
                    Ok(DispatchOutcomeCode::Success),
                ),
            }
        }
    }

    /// Executing a queued proposal, up to the point where the epoch is told:
    /// on success the record is kept, the execution leaves the queue, and the
    /// record is returned.
    pub open spec fn execute(
        self,
        origin: GuardOrigin,
        guardian: Guardian,
        attestors: AttestorRegistry,
        pid: ProposalId,
        payload: Payload,
        now: BlockNumber,
        block_hash: H256,
        state_root: H256,
        admitted: Seq<bool>,
    ) -> (GuardState, Result<ExecutionRecord, Error>) {
        if origin != GuardOrigin::Signed {
            (self, Err(Error::BadOrigin))
        } else {
            match first_match(self.queue, pid_is(pid)) {
                None => (self, Err(Error::NotFound)),
                Some(idx) => {
                    let q = self.queue[idx];
                    match dispatch_check(self, q, guardian, attestors, payload, now, admitted) {
                        Err(e) => (self, Err(e)),
                        Ok(_) => {
                            let (s1, out) = self.dispatch_batch(
                                q.class,
                                q.pid,
                                payload.calls@,
                                now,
                                block_hash,
                                state_root,
                            );
                            match out {
                                Err(e) => (s1, Err(e)),
                                Ok(DispatchOutcomeCode::Success) => {
                                    let record = ExecutionRecord {
                                        pid,
                                        payload_hash: q.payload_hash,
                                        class: q.class,
                                        executed_at: now,
                                        result: DispatchOutcomeCode::Success,
                                    };
                                    (
                                        GuardState {
                                            records: ring_push(s1.records, record),
                                            queue: s1.queue.remove(idx),
                                            ..s1
                                        },
                                        Ok(record),
                                    )
                                },
                                Ok(outcome) => (
                                    s1.with_events(seq![Event::ExecutionFailed { pid, outcome }]),
                                    Err(Error::DispatchFailed),
                                ),
                            }
                        },
                    }
                },
            }
        }
    }

    /// The epoch's answer to an executed proposal: on acknowledgement the
    /// preimage is unpinned and the execution reported.
    pub open spec fn complete_execution(self, record: ExecutionRecord, epoch_marked: bool) -> (
        GuardState,
        Result<(), Error>,
    ) {
        if !epoch_marked {
            (self, Err(Error::DispatchFailed))
        } else {
            (
                self.with_events(
                    seq![
                        Event::PreimageUnpinned { pid: record.pid, payload_hash: record.payload_hash },
                        Event::Executed { pid: record.pid, record },
                    ],
                ),
                Ok(()),
            )
        }
    }

    /// Applying an authorized upgrade after its lead time.
    pub open spec fn apply_authorized_upgrade(
        self,
        origin: GuardOrigin,
        code_hash: H256,
        observed_spec_version: u32,
        now: BlockNumber,
    ) -> (GuardState, Result<(), Error>) {
        if origin != GuardOrigin::Signed {
            (self, Err(Error::BadOrigin))
        } else {
            match self.pending_upgrade {
                None => (self, Err(Error::NoPendingUpgrade)),
                Some(p) => if now < p.applicable_at {
                    (self, Err(Error::DescriptorLeadTime))
                } else if p.hash != code_hash {
                    (self, Err(Error::UpgradeHashMismatch))
                } else {
                    (
                        GuardState {
                            pending_upgrade: None,
                            spec_version: observed_spec_version,
                            events: self.events.push(
                                Event::UpgradeApplied { code_hash, spec_version: observed_spec_version },
                            ),
                            ..self
                        },
                        Ok(()),
                    )
                },
            }
        }
    }

    /// Rejecting a stale, unratified or unattested execution.
    pub open spec fn reject_stale_or_unratified(self, pid: ProposalId, reason: RejectReason) -> (
        GuardState,
        Result<(), Error>,
    ) {
        if reason == RejectReason::Other {
            (self, Err(Error::StaleQueue))
        } else {
            (
                GuardState {
                    queue: match first_match(self.queue, pid_is(pid)) {
                        Some(i) => self.queue.remove(i),
                        None => self.queue,
                    },
                    events: self.events.push(Event::Rejected { pid, reason }),
                    ..self
                },
                Ok(()),
            )
        }
    }
}

} // verus!
