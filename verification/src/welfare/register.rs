//! Registration of a metric specification set: stable ordering by metric
//! id, per-metric disciplines, and the weight sum of each pillar.

use vstd::prelude::*;
use crate::primitives::{EpochId, MetricId, MetricSpecVersion};
use super::math::{Error, ONE};
use super::types::{MetricSpec, Pillar, MAX_COMPONENTS_PER_SPEC};

verus! {

/// Inserts `x` into `sorted` after every element whose id is at most `x.id`.
pub open spec fn insert_by_id(sorted: Seq<MetricSpec>, x: MetricSpec) -> Seq<MetricSpec>
    decreases sorted.len(),
{
    if sorted.len() == 0 {
        seq![x]
    } else if sorted.last().id <= x.id {
        sorted.push(x)
    } else {
        insert_by_id(sorted.drop_last(), x).push(sorted.last())
    }
}

/// The specifications ordered by metric id, keeping the given order among
/// equal ids (a stable sort).
pub open spec fn sort_by_id(s: Seq<MetricSpec>) -> Seq<MetricSpec>
    decreases s.len(),
{
    if s.len() == 0 {
        s
    } else {
        insert_by_id(sort_by_id(s.drop_last()), s.last())
    }
}

/// Inserting at the position after the last element with an id of at most
/// `x.id` is `insert_by_id`.
proof fn lemma_insert_by_id(sorted: Seq<MetricSpec>, x: MetricSpec, j: int)
    requires
        0 <= j <= sorted.len(),
        forall|k: int| j <= k < sorted.len() ==> (#[trigger] sorted[k]).id > x.id,
        j == 0 || sorted[j - 1].id <= x.id,
    ensures
        insert_by_id(sorted, x) == sorted.insert(j, x),
    decreases sorted.len(),
{
    if sorted.len() == 0 {
        assert(sorted.insert(j, x) =~= seq![x]);
    } else if j == sorted.len() {
        assert(sorted.insert(j, x) =~= sorted.push(x));
    } else {
        let d = sorted.drop_last();
        assert forall|k: int| j <= k < d.len() implies (#[trigger] d[k]).id > x.id by {
            assert(d[k] == sorted[k]);
        }
        lemma_insert_by_id(d, x, j);
        assert(d.insert(j, x).push(sorted.last()) =~= sorted.insert(j, x));
    }
}

/// Orders specifications by metric id, keeping the given order among equal ids.
pub fn sort_specs_by_id(v: &Vec<MetricSpec>) -> (r: Vec<MetricSpec>)
    ensures
        r@ == sort_by_id(v@),
{
    let mut out: Vec<MetricSpec> = Vec::new();
    let n = v.len();
    let mut i: usize = 0;
    assert(v@.take(0) =~= Seq::<MetricSpec>::empty());
    while i < n
        invariant
            n == v@.len(),
            i <= n,
            out@ == sort_by_id(v@.take(i as int)),
        decreases n - i,
    {
        let x = v[i];
        let mut j: usize = out.len();
        while j > 0 && out[j - 1].id > x.id
            invariant
                j <= out@.len(),
                forall|k: int| j <= k < out@.len() ==> (#[trigger] out@[k]).id > x.id,
            decreases j,
        {
            j = j - 1;
        }
        proof {
            lemma_insert_by_id(out@, x, j as int);
            assert(v@.take(i + 1).drop_last() =~= v@.take(i as int));
            assert(v@.take(i + 1).last() == x);
        }
        out.insert(j, x);
        i = i + 1;
    }
    assert(v@.take(n as int) =~= v@);
    out
}

/// `current + 2`, saturated at `u32::MAX`.
pub open spec fn earliest_activation(current_epoch: EpochId) -> int {
    if current_epoch + 2 > u32::MAX {
        u32::MAX as int
    } else {
        current_epoch + 2
    }
}

/// The checks of one metric of a set being registered under `version`,
/// with `prev` the id of the metric before it.
pub open spec fn metric_check(
    m: MetricSpec,
    version: MetricSpecVersion,
    current_epoch: EpochId,
    prev: Option<MetricId>,
) -> Result<(), Error> {
    if m.version != version {
        Err(Error::SpecNotFound)
    } else if m.activation_epoch < earliest_activation(current_epoch) {
        Err(Error::BadActivationEpoch)
    } else if !(m.weight.0 <= ONE && m.epsilon_floor.0 <= ONE && m.sanity_min.0 <= m.sanity_max.0
        && m.sanity_max.0 <= ONE) {
        Err(Error::ValueOutOfRange)
    } else if !(m.has_normalization_rule && m.has_missing_data_rule && m.has_gaming_vectors
        && m.has_challenge_procedure) {
        Err(Error::MissingMetricDiscipline)
    } else if prev is Some && !(prev->0 < m.id) {
        Err(Error::DuplicateComponent)
    } else {
        Ok(())
    }
}

/// The checks of all metrics, in order; the first failure wins.
pub open spec fn metrics_check(
    s: Seq<MetricSpec>,
    version: MetricSpecVersion,
    current_epoch: EpochId,
    prev: Option<MetricId>,
) -> Result<(), Error>
    decreases s.len(),
{
    if s.len() == 0 {
        Ok(())
    } else {
        match metric_check(s[0], version, current_epoch, prev) {
            Err(e) => Err(e),
            Ok(_) => metrics_check(s.drop_first(), version, current_epoch, Some(s[0].id)),
        }
    }
}

/// Sum of the weights of the metrics of a pillar.
pub open spec fn pillar_weight(s: Seq<MetricSpec>, pillar: Pillar) -> int
    decreases s.len(),
{
    if s.len() == 0 {
        0
    } else {
        pillar_weight(s.drop_last(), pillar) + if s.last().pillar == pillar {
            s.last().weight.0 as int
        } else {
            0
        }
    }
}

/// The weight check of one pillar: the weights sum to one, or to zero for
/// the attested compliance pillar, which may be absent.
pub open spec fn pillar_check(s: Seq<MetricSpec>, pillar: Pillar) -> Result<(), Error> {
    if pillar_weight(s, pillar) > u64::MAX {
        Err(Error::ArithmeticOverflow)
    } else if pillar == Pillar::CAttested && pillar_weight(s, pillar) == 0 {
        Ok(())
    } else if pillar_weight(s, pillar) != ONE {
        Err(Error::BadWeightSum)
    } else {
        Ok(())
    }
}

/// The weight checks of the five pillars, in order.
pub open spec fn weights_check(s: Seq<MetricSpec>) -> Result<(), Error> {
    match pillar_check(s, Pillar::S) {
        Err(e) => Err(e),
        Ok(_) => match pillar_check(s, Pillar::COnchain) {
            Err(e) => Err(e),
            Ok(_) => match pillar_check(s, Pillar::CAttested) {
                Err(e) => Err(e),
                Ok(_) => match pillar_check(s, Pillar::P) {
                    Err(e) => Err(e),
                    Ok(_) => pillar_check(s, Pillar::A),
                },
            },
        },
    }
}

/// What the checks of a set decide once it is ordered.
pub open spec fn set_check(sorted: Seq<MetricSpec>, version: MetricSpecVersion, current_epoch: EpochId) -> Result<
    (),
    Error,
> {
    match metrics_check(sorted, version, current_epoch, None) {
        Err(e) => Err(e),
        Ok(_) => weights_check(sorted),
    }
}

/// The per-metric checks of an ordered set.
pub fn check_metrics(sorted: &Vec<MetricSpec>, version: MetricSpecVersion, current_epoch: EpochId) -> (r:
    Result<(), Error>)
    ensures
        r == metrics_check(sorted@, version, current_epoch, None),
{
    let n = sorted.len();
    let mut prev: Option<MetricId> = None;
    let earliest = current_epoch.saturating_add(2);
    let mut i: usize = 0;
    assert(sorted@.subrange(0, n as int) =~= sorted@);
    while i < n
        invariant
            n == sorted@.len(),
            i <= n,
            earliest == earliest_activation(current_epoch),
            metrics_check(sorted@, version, current_epoch, None) == metrics_check(
                sorted@.subrange(i as int, n as int),
                version,
                current_epoch,
                prev,
            ),
        decreases n - i,
    {
        let ghost rest = sorted@.subrange(i as int, n as int);
        assert(rest[0] == sorted@[i as int]);
        assert(rest.drop_first() =~= sorted@.subrange(i + 1, n as int));
        let m = sorted[i];
        if m.version != version {
            return Err(Error::SpecNotFound);
        }
        if m.activation_epoch < earliest {
            return Err(Error::BadActivationEpoch);
        }
        if !(m.weight.0 <= ONE && m.epsilon_floor.0 <= ONE && m.sanity_min.0 <= m.sanity_max.0
            && m.sanity_max.0 <= ONE) {
            return Err(Error::ValueOutOfRange);
        }
        if !(m.has_normalization_rule && m.has_missing_data_rule && m.has_gaming_vectors
            && m.has_challenge_procedure) {
            return Err(Error::MissingMetricDiscipline);
        }
        let ok_order = match prev {
            None => true,
            Some(p) => p < m.id,
        };
        if !ok_order {
            return Err(Error::DuplicateComponent);
        }
        prev = Some(m.id);
        i = i + 1;
    }
    Ok(())
}

/// A prefix of a set never weighs more on a pillar than the whole set.
pub proof fn lemma_pillar_weight_prefix(s: Seq<MetricSpec>, pillar: Pillar, k: int)
    requires
        0 <= k <= s.len(),
    ensures
        0 <= pillar_weight(s.take(k), pillar) <= pillar_weight(s, pillar),
    decreases s.len(),
{
    if s.len() > 0 {
        if k == s.len() {
            assert(s.take(k) =~= s);
            lemma_pillar_weight_prefix(s.drop_last(), pillar, 0);
        } else {
            assert(s.take(k) =~= s.drop_last().take(k));
            lemma_pillar_weight_prefix(s.drop_last(), pillar, k);
        }
    } else {
        assert(s.take(k) =~= s);
    }
}

/// The sum of the weights of a pillar, or `None` when it exceeds `u64`.
pub fn sum_pillar_weight(s: &Vec<MetricSpec>, pillar: Pillar) -> (r: Option<u64>)
    ensures
        match r {
            Some(t) => t == pillar_weight(s@, pillar),
            None => pillar_weight(s@, pillar) > u64::MAX,
        },
{
    let n = s.len();
    let mut acc: u64 = 0;
    let mut i: usize = 0;
    assert(s@.take(0) =~= Seq::<MetricSpec>::empty());
    while i < n
        invariant
            n == s@.len(),
            i <= n,
            acc == pillar_weight(s@.take(i as int), pillar),
        decreases n - i,
    {
        assert(s@.take(i + 1).drop_last() =~= s@.take(i as int));
        if s[i].pillar == pillar {
            match acc.checked_add(s[i].weight.0) {
                Some(v) => {
                    acc = v;
                },
                None => {
                    proof {
                        lemma_pillar_weight_prefix(s@, pillar, i + 1);
                    }
                    return None;
                },
            }
        }
        i = i + 1;
    }
    assert(s@.take(n as int) =~= s@);
    Some(acc)
}

/// The weight check of one pillar.
pub fn check_pillar_weight(s: &Vec<MetricSpec>, pillar: Pillar) -> (r: Result<(), Error>)
    ensures
        r == pillar_check(s@, pillar),
{
    let sum = match sum_pillar_weight(s, pillar) {
        Some(t) => t,
        None => {
            return Err(Error::ArithmeticOverflow);
        },
    };
    if pillar == Pillar::CAttested && sum == 0 {
        return Ok(());
    }
    if sum != ONE {
        return Err(Error::BadWeightSum);
    }
    Ok(())
}

/// The weight checks of the five pillars.
pub fn check_weights(s: &Vec<MetricSpec>) -> (r: Result<(), Error>)
    ensures
        r == weights_check(s@),
{
    match check_pillar_weight(s, Pillar::S) {
        Err(e) => {
            return Err(e);
        },
        Ok(()) => {},
    }
    match check_pillar_weight(s, Pillar::COnchain) {
        Err(e) => {
            return Err(e);
        },
        Ok(()) => {},
    }
    match check_pillar_weight(s, Pillar::CAttested) {
        Err(e) => {
            return Err(e);
        },
        Ok(()) => {},
    }
    match check_pillar_weight(s, Pillar::P) {
        Err(e) => {
            return Err(e);
        },
        Ok(()) => {},
    }
    check_pillar_weight(s, Pillar::A)
}

} // verus!
