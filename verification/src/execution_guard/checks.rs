//! Membership and summation helpers of the dispatch-time checks.

use vstd::prelude::*;
use crate::primitives::{resource_eq, AttestationId, BlockNumber, ProposalClass, ProposalId, ResourceId};
use super::types::{ActivePlaybook, CallDomain, DispatchCall, Error, PlaybookId};
use super::spec::{
    call_check, calls_check, freeze_active, meters_clear, meters_held, needs_ratification,
    spec_domain_allowed, total_len,
};

verus! {

/// Whether a resource is in a list.
pub fn contains_resource(v: &Vec<ResourceId>, x: &ResourceId) -> (r: bool)
    ensures
        r == v@.contains(*x),
{
    let n = v.len();
    let mut i: usize = 0;
    while i < n
        invariant
            n == v@.len(),
            i <= n,
            forall|j: int| 0 <= j < i ==> v@[j] != *x,
        decreases n - i,
    {
        if resource_eq(&v[i], x) {
            assert(v@[i as int] == *x);
            return true;
        }
        i = i + 1;
    }
    false
}

/// Whether a proposal holds a lock on a resource.
pub fn holds_resource(held: &Vec<(ProposalId, ResourceId)>, pid: ProposalId, x: &ResourceId) -> (r:
    bool)
    ensures
        r == held@.contains((pid, *x)),
{
    let n = held.len();
    let mut i: usize = 0;
    while i < n
        invariant
            n == held@.len(),
            i <= n,
            forall|j: int| 0 <= j < i ==> held@[j] != (pid, *x),
        decreases n - i,
    {
        if held[i].0 == pid && resource_eq(&held[i].1, x) {
            assert(held@[i as int] == (pid, *x));
            return true;
        }
        i = i + 1;
    }
    false
}

/// Whether a proposal id is in a list.
pub fn contains_pid(v: &Vec<ProposalId>, x: ProposalId) -> (r: bool)
    ensures
        r == v@.contains(x),
{
    let n = v.len();
    let mut i: usize = 0;
    while i < n
        invariant
            n == v@.len(),
            i <= n,
            forall|j: int| 0 <= j < i ==> v@[j] != x,
        decreases n - i,
    {
        if v[i] == x {
            return true;
        }
        i = i + 1;
    }
    false
}

/// Whether an attestation id is in a list.
pub fn contains_attestation(v: &Vec<AttestationId>, x: AttestationId) -> (r: bool)
    ensures
        r == v@.contains(x),
{
    let n = v.len();
    let mut i: usize = 0;
    while i < n
        invariant
            n == v@.len(),
            i <= n,
            forall|j: int| 0 <= j < i ==> v@[j] != x,
        decreases n - i,
    {
        if v[i] == x {
            return true;
        }
        i = i + 1;
    }
    false
}

/// Whether a domain is declared.
pub fn contains_domain(v: &Vec<CallDomain>, x: CallDomain) -> (r: bool)
    ensures
        r == v@.contains(x),
{
    let n = v.len();
    let mut i: usize = 0;
    while i < n
        invariant
            n == v@.len(),
            i <= n,
            forall|j: int| 0 <= j < i ==> v@[j] != x,
        decreases n - i,
    {
        if v[i] == x {
            return true;
        }
        i = i + 1;
    }
    false
}

/// No declared meter is blocked.
pub fn check_meters_clear(meters: &Vec<ResourceId>, blocked: &Vec<ResourceId>) -> (r: bool)
    ensures
        r == meters_clear(meters@, blocked@),
{
    let n = meters.len();
    let mut i: usize = 0;
    while i < n
        invariant
            n == meters@.len(),
            i <= n,
            forall|j: int| 0 <= j < i ==> !blocked@.contains(#[trigger] meters@[j]),
        decreases n - i,
    {
        if contains_resource(blocked, &meters[i]) {
            return false;
        }
        i = i + 1;
    }
    true
}

/// Every declared meter is held by the proposal.
pub fn check_meters_held(
    pid: ProposalId,
    meters: &Vec<ResourceId>,
    held: &Vec<(ProposalId, ResourceId)>,
) -> (r: bool)
    ensures
        r == meters_held(pid, meters@, held@),
{
    let n = meters.len();
    let mut i: usize = 0;
    while i < n
        invariant
            n == meters@.len(),
            i <= n,
            forall|j: int| 0 <= j < i ==> held@.contains((pid, #[trigger] meters@[j])),
        decreases n - i,
    {
        if !holds_resource(held, pid, &meters[i]) {
            return false;
        }
        i = i + 1;
    }
    true
}

/// A ledger-freeze playbook is active at `now`.
pub fn check_freeze_active(playbooks: &Vec<ActivePlaybook>, now: BlockNumber) -> (r: bool)
    ensures
        r == freeze_active(playbooks@, now),
{
    let n = playbooks.len();
    let mut i: usize = 0;
    while i < n
        invariant
            n == playbooks@.len(),
            i <= n,
            forall|j: int|
                0 <= j < i ==> !((#[trigger] playbooks@[j]).id == PlaybookId::LedgerFreeze && now
                    <= playbooks@[j].expiry),
        decreases n - i,
    {
        let p = playbooks[i];
        if p.id == PlaybookId::LedgerFreeze && now <= p.expiry {
            assert(playbooks@[i as int].id == PlaybookId::LedgerFreeze);
            return true;
        }
        i = i + 1;
    }
    false
}

/// The total of a prefix never exceeds the total of the whole.
pub proof fn lemma_total_len_prefix(calls: Seq<DispatchCall>, k: int)
    requires
        0 <= k <= calls.len(),
    ensures
        total_len(calls.take(k)) <= total_len(calls),
        total_len(calls) >= 0,
    decreases calls.len(),
{
    if calls.len() > 0 {
        if k == calls.len() {
            assert(calls.take(k) =~= calls);
            lemma_total_len_prefix(calls.drop_last(), 0);
        } else {
            assert(calls.take(k) =~= calls.drop_last().take(k));
            lemma_total_len_prefix(calls.drop_last(), k);
        }
    } else {
        assert(calls.take(k) =~= calls);
    }
}

/// The total encoded length of the calls, or `None` when it exceeds `u32`.
pub fn sum_encoded_len(calls: &Vec<DispatchCall>) -> (r: Option<u32>)
    ensures
        match r {
            Some(t) => t == total_len(calls@),
            None => total_len(calls@) > u32::MAX,
        },
{
    let n = calls.len();
    let mut acc: u32 = 0;
    let mut i: usize = 0;
    assert(calls@.take(0) =~= Seq::<DispatchCall>::empty());
    while i < n
        invariant
            n == calls@.len(),
            i <= n,
            acc == total_len(calls@.take(i as int)),
        decreases n - i,
    {
        assert(calls@.take(i + 1).drop_last() =~= calls@.take(i as int));
        match acc.checked_add(calls[i].encoded_len) {
            Some(v) => {
                acc = v;
            },
            None => {
                proof {
                    lemma_total_len_prefix(calls@, i + 1);
                }
                return None;
            },
        }
        i = i + 1;
    }
    assert(calls@.take(n as int) =~= calls@);
    Some(acc)
}

/// The per-call checks, in order.
pub fn check_calls(
    declared: &Vec<CallDomain>,
    class: ProposalClass,
    calls: &Vec<DispatchCall>,
    admitted: &Vec<bool>,
) -> (r: Result<(), Error>)
    requires
        admitted@.len() == calls@.len(),
    ensures
        r == calls_check(declared@, class, calls@, admitted@),
{
    let n = calls.len();
    let mut i: usize = 0;
    assert(calls@.subrange(0, n as int) =~= calls@);
    assert(admitted@.subrange(0, n as int) =~= admitted@);
    while i < n
        invariant
            n == calls@.len(),
            n == admitted@.len(),
            i <= n,
            calls_check(declared@, class, calls@, admitted@) == calls_check(
                declared@,
                class,
                calls@.subrange(i as int, n as int),
                admitted@.subrange(i as int, n as int),
            ),
        decreases n - i,
    {
        let ghost cs = calls@.subrange(i as int, n as int);
        let ghost ad = admitted@.subrange(i as int, n as int);
        assert(cs[0] == calls@[i as int]);
        assert(ad[0] == admitted@[i as int]);
        assert(cs.drop_first() =~= calls@.subrange(i + 1, n as int));
        assert(ad.drop_first() =~= admitted@.subrange(i + 1, n as int));
        let d = calls[i].domain;
        if !contains_domain(declared, d) {
            return Err(Error::BadDomainDeclaration);
        }
        if !domain_allowed(class, d) {
            return Err(Error::CapabilityDenied);
        }
        if !admitted[i] {
            return Err(Error::SafetyFilter);
        }
        i = i + 1;
    }
    Ok(())
}

/// Whether a proposal class needs a ratification referendum.
pub fn requires_ratification(class: ProposalClass) -> (r: bool)
    ensures
        r == needs_ratification(class),
{
    match class {
        ProposalClass::Code | ProposalClass::Meta | ProposalClass::Constitutional => true,
        _ => false,
    }
}

/// Whether a proposal class may dispatch a call of the given domain.
pub fn domain_allowed(class: ProposalClass, domain: CallDomain) -> (r: bool)
    ensures
        r == spec_domain_allowed(class, domain),
{
    match domain {
        CallDomain::Public => true,
        CallDomain::Param => class == ProposalClass::Param,
        CallDomain::Treasury => class == ProposalClass::Treasury,
        CallDomain::Code
        | CallDomain::InternalRootAuthorizeUpgrade
        | CallDomain::InternalRootApplyUpgrade => class == ProposalClass::Code,
        CallDomain::Meta => class == ProposalClass::Meta,
    }
}

} // verus!
