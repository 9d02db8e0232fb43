//! Shared identifiers, classes and views of the futarchy runtime.

use vstd::prelude::*;

verus! {

/// Block height.
pub type BlockNumber = u32;

/// Proposal identifier.
pub type ProposalId = u64;

/// Identifier of a metered resource (an 8-byte tag).
pub type ResourceId = [u8; 8];

/// 32-byte hash.
pub type H256 = [u8; 32];

/// Identifier of an attestation in the attestor registry.
pub type AttestationId = u32;

/// Epoch index.
pub type EpochId = u32;

/// Identifier of a welfare metric component.
pub type MetricId = u32;

/// Version of a metric specification set.
pub type MetricSpecVersion = u16;

/// 16-byte parameter key.
pub type ParamKey = [u8; 16];

/// Token balance.
pub type Balance = u128;

/// Governance class of a proposal.
#[derive(Clone, Copy, Debug, PartialEq, Eq, Structural)]
pub enum ProposalClass {
    Param,
    Treasury,
    Code,
    Meta,
    Constitutional,
}

/// Fixed-point number with nine decimal places (`1_000_000_000` is one).
#[derive(Clone, Copy, Debug, PartialEq, Eq, Structural)]
pub struct FixedU64(pub u64);

/// Runtime identity that a queued execution is bound to.
#[derive(Clone, Debug, PartialEq, Eq)]
pub struct RuntimeVersionConstraint {
    pub spec_name: Vec<u8>,
    pub spec_version: u32,
}

/// Two version constraints name the same runtime.
pub open spec fn same_version(a: RuntimeVersionConstraint, b: RuntimeVersionConstraint) -> bool {
    a.spec_name@ == b.spec_name@ && a.spec_version == b.spec_version
}

/// Compares two version constraints field by field.
pub fn version_eq(a: &RuntimeVersionConstraint, b: &RuntimeVersionConstraint) -> (r: bool)
    ensures
        r == same_version(*a, *b),
{
    if a.spec_version != b.spec_version || a.spec_name.len() != b.spec_name.len() {
        return false;
    }
    let n = a.spec_name.len();
    let mut i: usize = 0;
    while i < n
        invariant
            n == a.spec_name@.len(),
            n == b.spec_name@.len(),
            i <= n,
            forall|j: int| 0 <= j < i ==> a.spec_name@[j] == b.spec_name@[j],
        decreases n - i,
    {
        if a.spec_name[i] != b.spec_name[i] {
            return false;
        }
        i = i + 1;
    }
    assert(a.spec_name@ =~= b.spec_name@);
    true
}

/// Copies a version constraint.
pub fn copy_version(v: &RuntimeVersionConstraint) -> (r: RuntimeVersionConstraint)
    ensures
        same_version(r, *v),
{
    let mut name: Vec<u8> = Vec::new();
    let n = v.spec_name.len();
    let mut i: usize = 0;
    while i < n
        invariant
            n == v.spec_name@.len(),
            i <= n,
            name@ == v.spec_name@.take(i as int),
        decreases n - i,
    {
        name.push(v.spec_name[i]);
        i = i + 1;
        assert(name@ =~= v.spec_name@.take(i as int));
    }
    assert(v.spec_name@.take(n as int) =~= v.spec_name@);
    RuntimeVersionConstraint { spec_name: name, spec_version: v.spec_version }
}

/// Compares two 32-byte hashes.
pub fn hash_eq(a: &H256, b: &H256) -> (r: bool)
    ensures
        r == (*a == *b),
{
    let mut i: usize = 0;
    while i < 32
        invariant
            i <= 32,
            forall|j: int| 0 <= j < i ==> a@[j] == b@[j],
        decreases 32 - i,
    {
        if a[i] != b[i] {
            return false;
        }
        i = i + 1;
    }
    assert(*a =~= *b);
    true
}

/// Compares two resource identifiers.
pub fn resource_eq(a: &ResourceId, b: &ResourceId) -> (r: bool)
    ensures
        r == (*a == *b),
{
    let mut i: usize = 0;
    while i < 8
        invariant
            i <= 8,
            forall|j: int| 0 <= j < i ==> a@[j] == b@[j],
        decreases 8 - i,
    {
        if a[i] != b[i] {
            return false;
        }
        i = i + 1;
    }
    assert(*a =~= *b);
    true
}

/// Outcome of dispatching a payload batch.
#[derive(Clone, Copy, Debug, PartialEq, Eq)]
pub enum DispatchOutcomeCode {
    Success,
    Failed { call_index: u8, error: [u8; 4] },
}

/// Reason for which a queued execution is rejected; `Other` stands for every
/// reason that the execution guard does not handle itself.
#[derive(Clone, Copy, Debug, PartialEq, Eq, Structural)]
pub enum RejectReason {
    StaleQueue,
    NotRatified,
    AttestationMissing,
    Other,
}

/// Ratification state of a queued execution.
#[derive(Clone, Copy, Debug, PartialEq, Eq, Structural)]
pub enum RatificationStatus {
    NotRequired,
    Pending { referendum: u32 },
    Passed { referendum: u32 },
    Failed { referendum: u32 },
}

/// Read-only view of a queued execution.
#[derive(Clone, Debug, PartialEq, Eq)]
pub struct QueuedExecutionView {
    pub pid: ProposalId,
    pub class: ProposalClass,
    pub payload_hash: H256,
    pub maturity: BlockNumber,
    pub grace_end: BlockNumber,
    pub version_constraint: RuntimeVersionConstraint,
    pub cancelled: bool,
    pub ratification: RatificationStatus,
    pub meters_clear: bool,
}

/// Read-only view of the welfare state of an epoch.
#[derive(Clone, Copy, Debug, PartialEq, Eq, Structural)]
pub struct WelfareView {
    pub epoch: EpochId,
    pub spec_version: MetricSpecVersion,
    pub s_pillar_1e9: FixedU64,
    pub c_onchain_1e9: FixedU64,
    pub c_attested_1e9: FixedU64,
    pub p_pillar_1e9: FixedU64,
    pub a_pillar_1e9: FixedU64,
    pub gate_s_1e9: FixedU64,
    pub gate_c_1e9: FixedU64,
    pub w_current_1e9: FixedU64,
    pub s_breached: bool,
    pub c_breached: bool,
    pub reserve_flag: bool,
}

} // verus!
