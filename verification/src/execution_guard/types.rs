//! Data of the execution guard: queued executions, payloads, records, events
//! and errors, with the abstract state that the contracts speak of.

use vstd::prelude::*;
use crate::primitives::{
    AttestationId, BlockNumber, DispatchOutcomeCode, H256, ProposalClass, ProposalId, RejectReason,
    ResourceId, RuntimeVersionConstraint,
};
use crate::origins;
use crate::origins::RuntimeCall;

verus! {

/// Most executions that may wait in the queue.
pub const MAX_QUEUE: usize = 32;
/// Capacity of the execution record ring.
pub const MAX_EXECUTION_RECORDS: usize = 256;
/// Most calls in one payload.
pub const MAX_CALLS: usize = 16;
/// Largest encoded payload.
pub const MAX_PAYLOAD_BYTES: u32 = 65_536;
/// Most capability domains that an execution may declare.
pub const MAX_DECLARED_DOMAINS: usize = 16;
/// Most resource locks that an execution may declare.
pub const MAX_RESOURCE_LOCKS: usize = 8;
/// Blocks between the authorization of an upgrade and its earliest application.
pub const DESCRIPTOR_LEAD_TIME: BlockNumber = 43_200;

/// Who asks the guard to act.
#[derive(Clone, Copy, Debug, PartialEq, Eq, Structural)]
pub enum GuardOrigin {
    Signed,
    EpochDecision,
    RatifyTrack,
    System,
}

/// Capability domain that a dispatched call claims.
#[derive(Clone, Copy, Debug, PartialEq, Eq, Structural)]
pub enum CallDomain {
    Public,
    Param,
    Treasury,
    Code,
    Meta,
    InternalRootAuthorizeUpgrade,
    InternalRootApplyUpgrade,
}

/// The safety filter's domain of a guard domain; both upgrade steps are
/// internal-root calls.
pub open spec fn filter_domain(value: CallDomain) -> origins::CallDomain {
    match value {
        CallDomain::Public => origins::CallDomain::Public,
        CallDomain::Param => origins::CallDomain::Param,
        CallDomain::Treasury => origins::CallDomain::Treasury,
        CallDomain::Code => origins::CallDomain::Code,
        CallDomain::Meta => origins::CallDomain::Meta,
        CallDomain::InternalRootAuthorizeUpgrade => origins::CallDomain::InternalRoot,
        CallDomain::InternalRootApplyUpgrade => origins::CallDomain::InternalRoot,
    }
}

impl From<CallDomain> for origins::CallDomain {
    fn from(value: CallDomain) -> (r: Self) {
        match value {
            CallDomain::Public => origins::CallDomain::Public,
            CallDomain::Param => origins::CallDomain::Param,
            CallDomain::Treasury => origins::CallDomain::Treasury,
            CallDomain::Code => origins::CallDomain::Code,
            CallDomain::Meta => origins::CallDomain::Meta,
            CallDomain::InternalRootAuthorizeUpgrade => origins::CallDomain::InternalRoot,
            CallDomain::InternalRootApplyUpgrade => origins::CallDomain::InternalRoot,
        }
    }
}

impl vstd::std_specs::convert::FromSpecImpl<CallDomain> for origins::CallDomain {
    open spec fn obeys_from_spec() -> bool {
        true
    }

    open spec fn from_spec(v: CallDomain) -> origins::CallDomain {
        filter_domain(v)
    }
}

/// One call of an execution payload, with its declared dispatch result.
#[derive(Debug, PartialEq, Eq)]
pub struct DispatchCall {
    pub domain: CallDomain,
    pub encoded_len: u32,
    pub declared_weight: u64,
    pub call: RuntimeCall,
    pub succeeds: bool,
    pub error: [u8; 4],
    pub upgrade_hash: Option<H256>,
    pub target_spec_version: Option<u32>,
}

/// The preimage of a queued execution.
#[derive(Debug, PartialEq, Eq)]
pub struct Payload {
    pub hash: H256,
    pub calls: Vec<DispatchCall>,
}

/// An execution waiting in the guard's queue.
#[derive(Clone, Debug, PartialEq, Eq)]
pub struct QueuedExecution {
    pub pid: ProposalId,
    pub payload_hash: H256,
    pub payload_len: u32,
    pub class: ProposalClass,
    pub maturity: BlockNumber,
    pub grace_end: BlockNumber,
    pub version_constraint: RuntimeVersionConstraint,
    pub meters_declared: Vec<ResourceId>,
    pub ratify_ref: Option<u32>,
    pub ratification_passed: bool,
    pub attestation_id: Option<AttestationId>,
    pub pre_upgrade_checkpoint: Option<(H256, H256)>,
    pub cancelled: bool,
    pub declared_domains: Vec<CallDomain>,
}

/// A runtime upgrade authorized by an executed payload.
#[derive(Clone, Copy, Debug, PartialEq, Eq)]
pub struct PendingUpgrade {
    pub hash: H256,
    pub authorized_at: BlockNumber,
    pub applicable_at: BlockNumber,
    pub target_spec_version: u32,
}

/// Record of an executed proposal.
#[derive(Clone, Copy, Debug, PartialEq, Eq)]
pub struct ExecutionRecord {
    pub pid: ProposalId,
    pub payload_hash: H256,
    pub class: ProposalClass,
    pub executed_at: BlockNumber,
    pub result: DispatchOutcomeCode,
}

/// What the guard reports.
#[derive(Clone, Copy, Debug, PartialEq, Eq)]
pub enum Event {
    Enqueued { pid: ProposalId, maturity: BlockNumber },
    Ratified { pid: ProposalId, referendum_index: u32 },
    Executed { pid: ProposalId, record: ExecutionRecord },
    ExecutionFailed { pid: ProposalId, outcome: DispatchOutcomeCode },
    Rejected { pid: ProposalId, reason: RejectReason },
    UpgradeAuthorized { code_hash: H256, authorized_at: BlockNumber, applicable_at: BlockNumber },
    UpgradeApplied { code_hash: H256, spec_version: u32 },
    PreimageUnpinned { pid: ProposalId, payload_hash: H256 },
}

/// Why the guard refuses an operation.
#[derive(Clone, Copy, Debug, PartialEq, Eq, Structural)]
pub enum Error {
    BadOrigin,
    QueueFull,
    NotFound,
    Cancelled,
    NotMature,
    GraceExpired,
    BadPreimage,
    StaleQueue,
    NotRatified,
    AttestationMissing,
    CapabilityDenied,
    MetersBlocked,
    ResourceLockMissing,
    GuardianHold,
    FreezeActive,
    PayloadTooLarge,
    TooManyCalls,
    TooManyDomains,
    TooManyLocks,
    BadDomainDeclaration,
    SafetyFilter,
    DispatchFailed,
    BadUpgradePayload,
    PendingUpgradeExists,
    NoPendingUpgrade,
    DescriptorLeadTime,
    UpgradeHashMismatch,
    Overflow,
}

/// Kind of an active guardian playbook; only a ledger freeze holds executions.
#[derive(Clone, Copy, Debug, PartialEq, Eq, Structural)]
pub enum PlaybookId {
    LedgerFreeze,
    Other,
}

/// An active guardian playbook and the block until which it holds.
#[derive(Clone, Copy, Debug, PartialEq, Eq, Structural)]
pub struct ActivePlaybook {
    pub id: PlaybookId,
    pub expiry: BlockNumber,
}

/// What the guardian council holds against executions: proposals whose rerun
/// was used, and the active playbooks.
#[derive(Clone, Debug, PartialEq, Eq)]
pub struct Guardian {
    pub rerun_used: Vec<ProposalId>,
    pub active_playbooks: Vec<ActivePlaybook>,
}

/// What the attestor registry says of an execution: the attestations that it
/// holds, and whether its quorum is met for the execution's proposal, payload
/// hash and block.
#[derive(Clone, Debug, PartialEq, Eq)]
pub struct AttestorRegistry {
    pub attestations: Vec<AttestationId>,
    pub has_quorum: bool,
}

/// The execution guard's state.
#[derive(Clone, Debug, PartialEq, Eq)]
pub struct ExecutionGuard {
    pub queue: Vec<QueuedExecution>,
    pub records: Vec<ExecutionRecord>,
    pub pending_upgrade: Option<PendingUpgrade>,
    pub current_spec_name: RuntimeVersionConstraint,
    pub held_resources: Vec<(ProposalId, ResourceId)>,
    pub blocked_meters: Vec<ResourceId>,
    pub hard_gate_breach: bool,
    pub dead_man_freeze: bool,
    pub migration_halt: bool,
    pub events: Vec<Event>,
}

/// The guard's state as mathematical values.
#[verifier::ext_equal]
pub struct GuardState {
    pub queue: Seq<QueuedExecution>,
    pub records: Seq<ExecutionRecord>,
    pub pending_upgrade: Option<PendingUpgrade>,
    pub spec_name: Seq<u8>,
    pub spec_version: u32,
    pub held_resources: Seq<(ProposalId, ResourceId)>,
    pub blocked_meters: Seq<ResourceId>,
    pub hard_gate_breach: bool,
    pub dead_man_freeze: bool,
    pub migration_halt: bool,
    pub events: Seq<Event>,
}

impl ExecutionGuard {
    /// The guard's state as mathematical values.
    pub open spec fn state(&self) -> GuardState {
        GuardState {
            queue: self.queue@,
            records: self.records@,
            pending_upgrade: self.pending_upgrade,
            spec_name: self.current_spec_name.spec_name@,
            spec_version: self.current_spec_name.spec_version,
            held_resources: self.held_resources@,
            blocked_meters: self.blocked_meters@,
            hard_gate_breach: self.hard_gate_breach,
            dead_man_freeze: self.dead_man_freeze,
            migration_halt: self.migration_halt,
            events: self.events@,
        }
    }
}

} // verus!
