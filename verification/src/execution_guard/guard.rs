//! Operations of the execution guard.

use vstd::prelude::*;
use crate::primitives::{
    copy_version, hash_eq, version_eq, BlockNumber, QueuedExecutionView, RatificationStatus, DispatchOutcomeCode, H256, ProposalClass, ProposalId,
    RejectReason, RuntimeVersionConstraint,
};
use crate::origins::origin_for_proposal_class;
use crate::seq_util::{first_match, lemma_first_match, lemma_first_match_props};
use super::types::{
    AttestorRegistry, CallDomain, DispatchCall, Error, Event, ExecutionGuard, ExecutionRecord,
    Guardian, GuardOrigin, GuardState, Payload, PendingUpgrade, QueuedExecution,
    DESCRIPTOR_LEAD_TIME, MAX_CALLS, MAX_DECLARED_DOMAINS, MAX_EXECUTION_RECORDS, MAX_PAYLOAD_BYTES,
    MAX_QUEUE, MAX_RESOURCE_LOCKS,
};
use super::spec::{
    authorizes_upgrade, call_fails, dispatch_check, pid_is, queue_bounds, queued_view_of,
    ring_push,
};
use super::checks::{
    check_calls, check_freeze_active, check_meters_clear, check_meters_held, contains_attestation,
    contains_pid, requires_ratification, sum_encoded_len,
};

verus! {

impl ExecutionGuard {
    /// An empty guard bound to the given runtime identity.
    pub fn new(current_spec_name: RuntimeVersionConstraint) -> (r: Self)
        ensures
            r.state() == (GuardState {
                queue: Seq::empty(),
                records: Seq::empty(),
                pending_upgrade: None,
                spec_name: current_spec_name.spec_name@,
                spec_version: current_spec_name.spec_version,
                held_resources: Seq::empty(),
                blocked_meters: Seq::empty(),
                hard_gate_breach: false,
                dead_man_freeze: false,
                migration_halt: false,
                events: Seq::empty(),
            }),
    {
        let r = ExecutionGuard {
            queue: Vec::new(),
            records: Vec::new(),
            pending_upgrade: None,
            current_spec_name,
            held_resources: Vec::new(),
            blocked_meters: Vec::new(),
            hard_gate_breach: false,
            dead_man_freeze: false,
            migration_halt: false,
            events: Vec::new(),
        };
        assert(r.state() =~= (GuardState {
            queue: Seq::empty(),
            records: Seq::empty(),
            pending_upgrade: None,
            spec_name: r.current_spec_name.spec_name@,
            spec_version: r.current_spec_name.spec_version,
            held_resources: Seq::empty(),
            blocked_meters: Seq::empty(),
            hard_gate_breach: false,
            dead_man_freeze: false,
            migration_halt: false,
            events: Seq::empty(),
        }));
        r
    }

    /// Position of the first queued execution of a proposal.
    fn queue_index(&self, pid: ProposalId) -> (r: Option<usize>)
        ensures
            match r {
                Some(i) => first_match(self.queue@, pid_is(pid)) == Some(i as int) && i
                    < self.queue@.len() && self.queue@[i as int].pid == pid,
                None => first_match(self.queue@, pid_is(pid)) is None,
            },
    {
        let n = self.queue.len();
        let mut i: usize = 0;
        while i < n
            invariant
                n == self.queue@.len(),
                i <= n,
                forall|j: int| 0 <= j < i ==> !pid_is(pid)(#[trigger] self.queue@[j]),
            decreases n - i,
        {
            if self.queue[i].pid == pid {
                proof {
                    lemma_first_match(self.queue@, pid_is(pid), i as int);
                }
                return Some(i);
            }
            i = i + 1;
        }
        proof {
            lemma_first_match(self.queue@, pid_is(pid), n as int);
        }
        None
    }

    /// Queues an execution decided by the epoch.
    pub fn enqueue(&mut self, origin: GuardOrigin, item: QueuedExecution) -> (r: Result<(), Error>)
        ensures
            (final(self).state(), r) == old(self).state().enqueue(origin, item),
    {
        if origin != GuardOrigin::EpochDecision {
            return Err(Error::BadOrigin);
        }
        if self.queue.len() >= MAX_QUEUE {
            return Err(Error::QueueFull);
        }
        if item.meters_declared.len() > MAX_RESOURCE_LOCKS {
            return Err(Error::TooManyLocks);
        }
        if item.declared_domains.len() > MAX_DECLARED_DOMAINS {
            return Err(Error::TooManyDomains);
        }
        if self.queue_index(item.pid).is_some() {
            return Err(Error::QueueFull);
        }
        self.events.push(Event::Enqueued { pid: item.pid, maturity: item.maturity });
        self.queue.push(item);
        Ok(())
    }

    /// Records that the ratification referendum of a queued execution passed.
    pub fn ratify(&mut self, origin: GuardOrigin, pid: ProposalId, referendum_index: u32) -> (r:
        Result<(), Error>)
        ensures
            (final(self).state(), r) == old(self).state().ratify(origin, pid, referendum_index),
    {
        if origin != GuardOrigin::RatifyTrack {
            return Err(Error::BadOrigin);
        }
        let i = match self.queue_index(pid) {
            Some(i) => i,
            None => {
                return Err(Error::NotFound);
            },
        };
        if self.queue[i].ratify_ref != Some(referendum_index) {
            return Err(Error::NotRatified);
        }
        let ghost old_queue = self.queue@;
        let mut q = self.queue.remove(i);
        q.ratification_passed = true;
        self.queue.insert(i, q);
        assert(self.queue@ =~= old_queue.update(
            i as int,
            QueuedExecution { ratification_passed: true, ..old_queue[i as int] },
        ));
        self.events.push(Event::Ratified { pid, referendum_index });
        Ok(())
    }

    /// The dispatch-time checks of a queued execution against its payload.
    /// `admitted[i]` is the safety filter's verdict on call `i` for the origin
    /// of the execution's class.
    pub fn check_dispatch_time(
        &self,
        q: &QueuedExecution,
        guardian: &Guardian,
        attestors: &AttestorRegistry,
        payload: &Payload,
        now: BlockNumber,
        admitted: &Vec<bool>,
    ) -> (r: Result<(), Error>)
        requires
            admitted@.len() == payload.calls@.len(),
        ensures
            r == dispatch_check(self.state(), *q, *guardian, *attestors, *payload, now, admitted@),
    {
        if q.cancelled {
            return Err(Error::Cancelled);
        }
        if now < q.maturity {
            return Err(Error::NotMature);
        }
        if now > q.grace_end {
            return Err(Error::GraceExpired);
        }
        if !(hash_eq(&payload.hash, &q.payload_hash) && q.payload_len <= MAX_PAYLOAD_BYTES) {
            return Err(Error::BadPreimage);
        }
        if !version_eq(&q.version_constraint, &self.current_spec_name) {
            return Err(Error::StaleQueue);
        }
        if requires_ratification(q.class) && !q.ratification_passed {
            return Err(Error::NotRatified);
        }
        if q.class == ProposalClass::Code || q.class == ProposalClass::Meta {
            let id = match q.attestation_id {
                Some(id) => id,
                None => {
                    return Err(Error::AttestationMissing);
                },
            };
            if !contains_attestation(&attestors.attestations, id) {
                return Err(Error::AttestationMissing);
            }
            if !attestors.has_quorum {
                return Err(Error::AttestationMissing);
            }
        }
        if !check_meters_clear(&q.meters_declared, &self.blocked_meters) {
            return Err(Error::MetersBlocked);
        }
        if !check_meters_held(q.pid, &q.meters_declared, &self.held_resources) {
            return Err(Error::ResourceLockMissing);
        }
        if contains_pid(&guardian.rerun_used, q.pid) {
            return Err(Error::GuardianHold);
        }
        if check_freeze_active(&guardian.active_playbooks, now) {
            return Err(Error::FreezeActive);
        }
        if self.hard_gate_breach || self.dead_man_freeze || self.migration_halt {
            return Err(Error::FreezeActive);
        }
        if payload.calls.len() > MAX_CALLS {
            return Err(Error::TooManyCalls);
        }
        let total = match sum_encoded_len(&payload.calls) {
            Some(t) => t,
            None => {
                return Err(Error::Overflow);
            },
        };
        if !(total == q.payload_len && total <= MAX_PAYLOAD_BYTES) {
            return Err(Error::PayloadTooLarge);
        }
        if origin_for_proposal_class(q.class).is_none() {
            return Err(Error::CapabilityDenied);
        }
        check_calls(&q.declared_domains, q.class, &payload.calls, admitted)
    }

    /// Index of the first call that declares a failure.
    fn first_failed_call(calls: &Vec<DispatchCall>) -> (r: Option<usize>)
        ensures
            match r {
                Some(i) => first_match(calls@, call_fails()) == Some(i as int) && i < calls@.len(),
                None => first_match(calls@, call_fails()) is None,
            },
    {
        let n = calls.len();
        let mut i: usize = 0;
        while i < n
            invariant
                n == calls@.len(),
                i <= n,
                forall|j: int| 0 <= j < i ==> !call_fails()(#[trigger] calls@[j]),
            decreases n - i,
        {
            if !calls[i].succeeds {
                proof {
                    lemma_first_match(calls@, call_fails(), i as int);
                }
                return Some(i);
            }
            i = i + 1;
        }
        proof {
            lemma_first_match(calls@, call_fails(), n as int);
        }
        None
    }

    /// Index of the first call that authorizes an upgrade.
    fn first_authorize_call(calls: &Vec<DispatchCall>) -> (r: Option<usize>)
        ensures
            match r {
                Some(i) => first_match(calls@, authorizes_upgrade()) == Some(i as int) && i
                    < calls@.len(),
                None => first_match(calls@, authorizes_upgrade()) is None,
            },
    {
        let n = calls.len();
        let mut i: usize = 0;
        while i < n
            invariant
                n == calls@.len(),
                i <= n,
                forall|j: int| 0 <= j < i ==> !authorizes_upgrade()(#[trigger] calls@[j]),
            decreases n - i,
        {
            if calls[i].domain == CallDomain::InternalRootAuthorizeUpgrade {
                proof {
                    lemma_first_match(calls@, authorizes_upgrade(), i as int);
                }
                return Some(i);
            }
            i = i + 1;
        }
        proof {
            lemma_first_match(calls@, authorizes_upgrade(), n as int);
        }
        None
    }

    /// Dispatches a batch for an execution of class `class` of proposal `pid`.
    fn dispatch_calls(
        &mut self,
        class: ProposalClass,
        pid: ProposalId,
        payload: &Payload,
        now: BlockNumber,
        block_hash: H256,
        state_root: H256,
    ) -> (r: Result<DispatchOutcomeCode, Error>)
        ensures
            (final(self).state(), r) == old(self).state().dispatch_batch(
                class,
                pid,
                payload.calls@,
                now,
                block_hash,
                state_root,
            ),
    {
        if let Some(i) = Self::first_failed_call(&payload.calls) {
            proof {
                lemma_first_match_props(payload.calls@, call_fails());
            }
            let i8: u8 = i as u8;
            return Ok(DispatchOutcomeCode::Failed { call_index: i8, error: payload.calls[i].error });
        }
        if let Some(k) = Self::first_authorize_call(&payload.calls) {
            let upgrade = &payload.calls[k];
            if !(class == ProposalClass::Code || class == ProposalClass::Meta) {
                return Err(Error::BadUpgradePayload);
            }
            if self.pending_upgrade.is_some() {
                return Err(Error::PendingUpgradeExists);
            }
            let hash = match upgrade.upgrade_hash {
                Some(h) => h,
                None => {
                    return Err(Error::BadUpgradePayload);
                },
            };
            let target = match upgrade.target_spec_version {
                Some(t) => t,
                None => {
                    return Err(Error::BadUpgradePayload);
                },
            };
            let applicable_at = match now.checked_add(DESCRIPTOR_LEAD_TIME) {
                Some(a) => a,
                None => {
                    return Err(Error::Overflow);
                },
            };
            self.pending_upgrade = Some(
                PendingUpgrade { hash, authorized_at: now, applicable_at, target_spec_version: target },
            );
            if let Some(j) = self.queue_index(pid) {
                let ghost old_queue = self.queue@;
                let mut queued = self.queue.remove(j);
                queued.pre_upgrade_checkpoint = Some((block_hash, state_root));
                self.queue.insert(j, queued);
                assert(self.queue@ =~= old_queue.update(
                    j as int,
                    QueuedExecution {
                        pre_upgrade_checkpoint: Some((block_hash, state_root)),
                        ..old_queue[j as int]
                    },
                ));
            }
            self.events.push(
                Event::UpgradeAuthorized { code_hash: hash, authorized_at: now, applicable_at },
            );
        }
        Ok(DispatchOutcomeCode::Success)
    }

    /// Dispatches the batch of a queued execution: reports the first declared
    /// failure, or records the upgrade that the batch authorizes.
    pub fn dispatch_batch(
        &mut self,
        q: &QueuedExecution,
        payload: &Payload,
        now: BlockNumber,
        block_hash: H256,
        state_root: H256,
    ) -> (r: Result<DispatchOutcomeCode, Error>)
        ensures
            (final(self).state(), r) == old(self).state().dispatch_batch(
                q.class,
                q.pid,
                payload.calls@,
                now,
                block_hash,
                state_root,
            ),
    {
        self.dispatch_calls(q.class, q.pid, payload, now, block_hash, state_root)
    }

    /// Appends a record to the ring, dropping the oldest when it is full.
    pub fn push_record(&mut self, record: ExecutionRecord)
        ensures
            final(self).state() == (GuardState { records: ring_push(old(self).state().records, record), ..old(self).state() }),
    {
        if self.records.len() == MAX_EXECUTION_RECORDS {
            self.records.remove(0);
        }
        self.records.push(record);
        assert(self.state() =~= (GuardState { records: ring_push(old(self).state().records, record), ..old(self).state() }));
    }

    /// Executes a queued proposal up to the epoch's acknowledgement: checks
    /// it, dispatches its batch, keeps its record and removes it from the
    /// queue. The record is returned for `complete_execution`.
    /// `admitted[i]` is the safety filter's verdict on call `i` for the origin
    /// of the execution's class.
    pub fn execute(
        &mut self,
        origin: GuardOrigin,
        guardian: &Guardian,
        attestors: &AttestorRegistry,
        pid: ProposalId,
        payload: Payload,
        now: BlockNumber,
        block_hash: H256,
        state_root: H256,
        admitted: &Vec<bool>,
    ) -> (r: Result<ExecutionRecord, Error>)
        requires
            admitted@.len() == payload.calls@.len(),
        ensures
            (final(self).state(), r) == old(self).state().execute(
                origin,
                *guardian,
                *attestors,
                pid,
                payload,
                now,
                block_hash,
                state_root,
                admitted@,
            ),
    {
        if origin != GuardOrigin::Signed {
            return Err(Error::BadOrigin);
        }
        let idx = match self.queue_index(pid) {
            Some(i) => i,
            None => {
                return Err(Error::NotFound);
            },
        };
        match self.check_dispatch_time(&self.queue[idx], guardian, attestors, &payload, now, admitted) {
            Ok(()) => {},
            Err(e) => {
                return Err(e);
            },
        }
        let class = self.queue[idx].class;
        let qpid = self.queue[idx].pid;
        let payload_hash = self.queue[idx].payload_hash;
        let ghost s0 = self.state();
        let outcome = match self.dispatch_calls(class, qpid, &payload, now, block_hash, state_root) {
            Ok(o) => o,
            Err(e) => {
                return Err(e);
            },
        };
        match outcome {
            DispatchOutcomeCode::Success => {
                let record = ExecutionRecord {
                    pid,
                    payload_hash,
                    class,
                    executed_at: now,
                    result: outcome,
                };
                proof {
                    lemma_first_match_props(s0.queue, pid_is(pid));
                }
                self.push_record(record);
                self.queue.remove(idx);
                let ghost s1 = s0.dispatch_batch(class, qpid, payload.calls@, now, block_hash, state_root).0;
                assert(self.state() =~= (GuardState {
                    records: ring_push(s1.records, record),
                    queue: s1.queue.remove(idx as int),
                    ..s1
                }));
                Ok(record)
            },
            DispatchOutcomeCode::Failed { .. } => {
                self.events.push(Event::ExecutionFailed { pid, outcome });
                assert(self.state() =~= s0.with_events(seq![Event::ExecutionFailed { pid, outcome }]));
                Err(Error::DispatchFailed)
            },
        }
    }

    /// Reports the epoch's answer to an executed proposal.
    pub fn complete_execution(&mut self, record: ExecutionRecord, epoch_marked: bool) -> (r: Result<
        (),
        Error,
    >)
        ensures
            (final(self).state(), r) == old(self).state().complete_execution(record, epoch_marked),
    {
        if !epoch_marked {
            return Err(Error::DispatchFailed);
        }
        let ghost s0 = self.state();
        self.events.push(
            Event::PreimageUnpinned { pid: record.pid, payload_hash: record.payload_hash },
        );
        self.events.push(Event::Executed { pid: record.pid, record });
        assert(self.state() =~= s0.with_events(
            seq![
                Event::PreimageUnpinned { pid: record.pid, payload_hash: record.payload_hash },
                Event::Executed { pid: record.pid, record },
            ],
        ));
        Ok(())
    }

    /// Applies the pending upgrade once its lead time has passed.
    pub fn apply_authorized_upgrade(
        &mut self,
        origin: GuardOrigin,
        code_hash: H256,
        observed_spec_version: u32,
        now: BlockNumber,
    ) -> (r: Result<(), Error>)
        ensures
            (final(self).state(), r) == old(self).state().apply_authorized_upgrade(
                origin,
                code_hash,
                observed_spec_version,
                now,
            ),
    {
        if origin != GuardOrigin::Signed {
            return Err(Error::BadOrigin);
        }
        let pending = match self.pending_upgrade {
            Some(p) => p,
            None => {
                return Err(Error::NoPendingUpgrade);
            },
        };
        if now < pending.applicable_at {
            return Err(Error::DescriptorLeadTime);
        }
        if !hash_eq(&pending.hash, &code_hash) {
            return Err(Error::UpgradeHashMismatch);
        }
        self.pending_upgrade = None;
        self.current_spec_name.spec_version = observed_spec_version;
        self.events.push(Event::UpgradeApplied { code_hash, spec_version: observed_spec_version });
        Ok(())
    }

    /// Drops a stale, unratified or unattested execution from the queue.
    pub fn reject_stale_or_unratified(&mut self, pid: ProposalId, reason: RejectReason) -> (r:
        Result<(), Error>)
        ensures
            (final(self).state(), r) == old(self).state().reject_stale_or_unratified(pid, reason),
    {
        if reason == RejectReason::Other {
            return Err(Error::StaleQueue);
        }
        if let Some(idx) = self.queue_index(pid) {
            self.queue.remove(idx);
        }
        self.events.push(Event::Rejected { pid, reason });
        Ok(())
    }

    /// Checks the guard's bounds: queue and record ring capacity, then each
    /// queued execution's payload length, lock count and domain count.
    pub fn try_state(&self) -> (r: Result<(), Error>)
        ensures
            r == self.state().try_state(),
    {
        if self.queue.len() > MAX_QUEUE {
            return Err(Error::QueueFull);
        }
        if self.records.len() > MAX_EXECUTION_RECORDS {
            return Err(Error::QueueFull);
        }
        let n = self.queue.len();
        let mut i: usize = 0;
        assert(self.queue@.subrange(0, n as int) =~= self.queue@);
        while i < n
            invariant
                n == self.queue@.len(),
                n <= MAX_QUEUE,
                self.records@.len() <= MAX_EXECUTION_RECORDS,
                i <= n,
                queue_bounds(self.queue@) == queue_bounds(self.queue@.subrange(i as int, n as int)),
            decreases n - i,
        {
            let ghost rest = self.queue@.subrange(i as int, n as int);
            assert(rest[0] == self.queue@[i as int]);
            assert(rest.drop_first() =~= self.queue@.subrange(i + 1, n as int));
            let q = &self.queue[i];
            if q.payload_len > MAX_PAYLOAD_BYTES {
                return Err(Error::PayloadTooLarge);
            }
            if q.meters_declared.len() > MAX_RESOURCE_LOCKS {
                return Err(Error::TooManyLocks);
            }
            if q.declared_domains.len() > MAX_DECLARED_DOMAINS {
                return Err(Error::TooManyDomains);
            }
            i = i + 1;
        }
        Ok(())
    }

    /// Read-only views of the queued executions, in queue order.
    pub fn view(&self) -> (r: Vec<QueuedExecutionView>)
        ensures
            r@.len() == self.queue@.len(),
            forall|i: int| 0 <= i < r@.len() ==> #[trigger] queued_view_of(
                r@[i],
                self.queue@[i],
                self.blocked_meters@,
            ),
    {
        let mut out: Vec<QueuedExecutionView> = Vec::new();
        let n = self.queue.len();
        let mut i: usize = 0;
        while i < n
            invariant
                n == self.queue@.len(),
                i <= n,
                out@.len() == i,
                forall|j: int| 0 <= j < i ==> #[trigger] queued_view_of(
                    out@[j],
                    self.queue@[j],
                    self.blocked_meters@,
                ),
            decreases n - i,
        {
            let q = &self.queue[i];
            let ratification = if !requires_ratification(q.class) {
                RatificationStatus::NotRequired
            } else {
                match q.ratify_ref {
                    Some(r) => if q.ratification_passed {
                        RatificationStatus::Passed { referendum: r }
                    } else {
                        RatificationStatus::Pending { referendum: r }
                    },
                    None => RatificationStatus::Failed { referendum: 0 },
                }
            };
            let v = QueuedExecutionView {
                pid: q.pid,
                class: q.class,
                payload_hash: q.payload_hash,
                maturity: q.maturity,
                grace_end: q.grace_end,
                version_constraint: copy_version(&q.version_constraint),
                cancelled: q.cancelled,
                ratification,
                meters_clear: check_meters_clear(&q.meters_declared, &self.blocked_meters),
            };
            out.push(v);
            i = i + 1;
        }
        out
    }
}

/// Benchmark entry point of the execution guard.
pub fn benchmark_stub() -> (r: u32)
    ensures
        r == 11,
{
    11
}

} // verus!
