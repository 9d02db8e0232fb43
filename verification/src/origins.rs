//! Dispatch origins, capability domains and the call tree that the runtime's
//! safety filter judges.

use vstd::prelude::*;
use crate::primitives::ProposalClass;

verus! {

/// Custom dispatch origin.
#[derive(Clone, Copy, Debug, PartialEq, Eq, Structural)]
pub enum Origin {
    FutarchyParam,
    FutarchyTreasury,
    FutarchyCode,
    FutarchyMeta,
    ConstitutionalValues,
    OracleResolution,
    GuardianHold,
    EmergencyPlaybook,
}

/// Capability domain of a leaf call.
#[derive(Clone, Copy, Debug, PartialEq, Eq, Structural)]
pub enum CallDomain {
    Public,
    Nobody,
    Param,
    Treasury,
    Code,
    Meta,
    ConstitutionalValues,
    OracleResolution,
    GuardianHold,
    EmergencyPlaybook,
    InternalRoot,
}

/// Shape of a runtime call as seen by the safety filter: a leaf of some
/// domain, or a wrapper (batch, proxy, multisig, scheduler, sudo) around
/// inner calls.
#[derive(Debug, PartialEq, Eq)]
pub enum RuntimeCall {
    Leaf(CallDomain),
    UtilityBatch(Vec<RuntimeCall>),
    UtilityBatchAll(Vec<RuntimeCall>),
    UtilityForceBatch(Vec<RuntimeCall>),
    UtilityDispatchAs(Box<RuntimeCall>),
    UtilityAsDerivative(Box<RuntimeCall>),
    UtilityWithWeight(Box<RuntimeCall>),
    Proxy(Box<RuntimeCall>),
    ProxyAnnounced(Box<RuntimeCall>),
    MultisigAsMulti(Box<RuntimeCall>),
    MultisigAsMultiThreshold1(Box<RuntimeCall>),
    MultisigApproveAsMulti,
    Scheduler { origin: Origin, call: Box<RuntimeCall> },
    Sudo(Box<RuntimeCall>),
}

impl RuntimeCall {
    /// A leaf call of the given domain.
    pub fn leaf(domain: CallDomain) -> (r: RuntimeCall)
        ensures
            r == RuntimeCall::Leaf(domain),
    {
        RuntimeCall::Leaf(domain)
    }
}

/// The custom origin that dispatches a proposal of the given class, if any.
pub open spec fn spec_origin_for_class(class: ProposalClass) -> Option<Origin> {
    match class {
        ProposalClass::Param => Some(Origin::FutarchyParam),
        ProposalClass::Treasury => Some(Origin::FutarchyTreasury),
        ProposalClass::Code => Some(Origin::FutarchyCode),
        ProposalClass::Meta => Some(Origin::FutarchyMeta),
        ProposalClass::Constitutional => None,
    }
}

/// Maps a proposal class to its dispatch origin; constitutional proposals
/// have none.
pub fn origin_for_proposal_class(class: ProposalClass) -> (r: Option<Origin>)
    ensures
        r == spec_origin_for_class(class),
{
    match class {
        ProposalClass::Param => Some(Origin::FutarchyParam),
        ProposalClass::Treasury => Some(Origin::FutarchyTreasury),
        ProposalClass::Code => Some(Origin::FutarchyCode),
        ProposalClass::Meta => Some(Origin::FutarchyMeta),
        ProposalClass::Constitutional => None,
    }
}

/// The eight custom origins, in declaration order.
pub fn all_custom_origins() -> (r: [Origin; 8])
    ensures
        r@ == seq![
            Origin::FutarchyParam,
            Origin::FutarchyTreasury,
            Origin::FutarchyCode,
            Origin::FutarchyMeta,
            Origin::ConstitutionalValues,
            Origin::OracleResolution,
            Origin::GuardianHold,
            Origin::EmergencyPlaybook,
        ],
{
    let r = [
        Origin::FutarchyParam,
        Origin::FutarchyTreasury,
        Origin::FutarchyCode,
        Origin::FutarchyMeta,
        Origin::ConstitutionalValues,
        Origin::OracleResolution,
        Origin::GuardianHold,
        Origin::EmergencyPlaybook,
    ];
    assert(r@ =~= seq![
        Origin::FutarchyParam,
        Origin::FutarchyTreasury,
        Origin::FutarchyCode,
        Origin::FutarchyMeta,
        Origin::ConstitutionalValues,
        Origin::OracleResolution,
        Origin::GuardianHold,
        Origin::EmergencyPlaybook,
    ]);
    r
}

} // verus!
