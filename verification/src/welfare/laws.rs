//! Properties that hold across the welfare pallet's operations.

use vstd::prelude::*;
use crate::primitives::{EpochId, FixedU64, MetricSpecVersion};
use super::math::{
    is_sqrt_floor, lemma_sqrt_floor_unique, q64_one, sat_sq, spec_isqrt, spec_q64_from_1e9,
    spec_q64_to_1e9_down, EPSILON, lemma_gate_bounds, spec_gate, spec_mul_down, spec_q64_mul, spec_settlement_score, Error, ONE, THETA_C_HI,
    THETA_C_LO, THETA_S_HI, THETA_S_LO,
};
use super::pillars::{
    geo_scan, s_scan, spec_compute_pillars, spec_compute_welfare, spec_pow_unit, spec_weighted_geo,
    power_lookup, spec_value_for,
};
use super::register::{
    earliest_activation, metric_check, metrics_check, pillar_weight, set_check, sort_by_id,
    weights_check, pillar_check,
};
use super::state::{epoch_plus, snapshot_in_range, WelfareModel};
use super::types::{
    ComponentValue, Eval, Event, MetricSpec, Pillar, PowerEntry, PowerTable, MAX_COMPONENTS_PER_SPEC,
    MAX_METRIC_SPECS, MAX_SNAPSHOTS,
};

verus! {

/// The smooth gate lies between zero and one: it is zero at or below its
/// lower threshold and one at or above its upper threshold.
pub proof fn law_gate_range(x: u64, lo: u64, hi: u64)
    ensures
        spec_gate(x, lo, hi) is Ok <==> (lo < hi && hi <= ONE && x <= ONE),
        spec_gate(x, lo, hi) matches Ok(v) ==> v <= ONE,
        spec_gate(x, lo, hi) is Ok && x <= lo ==> spec_gate(x, lo, hi) == Ok::<u64, Error>(0),
        spec_gate(x, lo, hi) is Ok && x >= hi ==> spec_gate(x, lo, hi) == Ok::<u64, Error>(ONE),
{
    if lo < hi && hi <= ONE && x <= ONE && lo < x < hi {
        super::math::lemma_gate_bounds(x, lo, hi);
    }
}

/// A product of two numbers of at most one, rounded down, is at most each.
pub proof fn lemma_mul_down_le(a: u64, b: u64)
    requires
        b <= ONE,
    ensures
        spec_mul_down(a, b) <= a,
        spec_mul_down(b, a) <= a,
{
    assert((a as int) * (b as int) / (ONE as int) <= a) by (nonlinear_arith)
        requires
            0 <= b <= ONE,
            0 <= a,
    ;
    assert((b as int) * (a as int) == (a as int) * (b as int)) by (nonlinear_arith);
}

/// A product with zero is zero.
pub proof fn lemma_mul_down_zero(a: u64)
    ensures
        spec_mul_down(0, a) == 0,
        spec_mul_down(a, 0) == 0,
{
}

/// Welfare is zero when the security pillar is at or below its lower gate
/// threshold, or the compliance pillar is at or below its own.
pub proof fn law_welfare_zero_on_breach(
    s: FixedU64,
    c: FixedU64,
    p: FixedU64,
    a: FixedU64,
    table: Seq<PowerEntry>,
)
    requires
        s.0 <= THETA_S_LO || c.0 <= THETA_C_LO,
        spec_compute_welfare(s, c, p, a, table) is Done,
        spec_compute_welfare(s, c, p, a, table)->Done_0 is Ok,
    ensures
        spec_compute_welfare(s, c, p, a, table) == Eval::<Result<FixedU64, Error>>::Done(
            Ok(FixedU64(0)),
        ),
{
    let gs = spec_gate(s.0, THETA_S_LO, THETA_S_HI)->Ok_0;
    let gc = spec_gate(c.0, THETA_C_LO, THETA_C_HI)->Ok_0;
    assert(gs == 0 || gc == 0);
    lemma_mul_down_zero(gs);
    lemma_mul_down_zero(gc);
    assert(spec_mul_down(gs, gc) == 0);
}

/// Every power in a table is at most one.
pub open spec fn powers_at_most_one(table: Seq<PowerEntry>) -> bool {
    forall|i: int| 0 <= i < table.len() ==> ((#[trigger] table[i]).result matches Some(x) ==> x <= ONE)
}

proof fn lemma_lookup_at_most_one(table: Seq<PowerEntry>, v: u64, w: u64)
    requires
        powers_at_most_one(table),
    ensures
        power_lookup(table, v, w) matches Some(Some(x)) ==> x <= ONE,
    decreases table.len(),
{
    if table.len() > 0 {
        assert(powers_at_most_one(table.drop_first())) by {
            assert forall|i: int| 0 <= i < table.drop_first().len() implies ((
            #[trigger] table.drop_first()[i]).result matches Some(x) ==> x <= ONE) by {
                assert(table.drop_first()[i] == table[i + 1]);
            }
        }
        lemma_lookup_at_most_one(table.drop_first(), v, w);
        assert(table[0] == table[0]);
    }
}

proof fn lemma_pow_at_most_one(v: u64, w: u64, table: Seq<PowerEntry>)
    requires
        powers_at_most_one(table),
    ensures
        spec_pow_unit(v, w, table) matches Eval::Done(Ok(x)) ==> x.0 <= ONE,
{
    lemma_lookup_at_most_one(table, v, w);
}

proof fn lemma_geo_at_most_one(
    specs: Seq<MetricSpec>,
    comps: Seq<ComponentValue>,
    pillar: Pillar,
    out: FixedU64,
    table: Seq<PowerEntry>,
)
    requires
        powers_at_most_one(table),
        out.0 <= ONE,
    ensures
        geo_scan(specs, comps, pillar, out, table) matches Eval::Done(Ok(x)) ==> x.0 <= ONE,
    decreases specs.len(),
{
    if specs.len() > 0 {
        if specs[0].pillar != pillar {
            lemma_geo_at_most_one(specs.drop_first(), comps, pillar, out, table);
        } else {
            match super::pillars::spec_value_for(comps, specs[0].id) {
                Err(_) => {},
                Ok(v) => {
                    let base = if v.0 > specs[0].epsilon_floor.0 {
                        v.0
                    } else {
                        specs[0].epsilon_floor.0
                    };
                    lemma_pow_at_most_one(base, specs[0].weight.0, table);
                    match spec_pow_unit(base, specs[0].weight.0, table) {
                        Eval::Done(Ok(p)) => {
                            lemma_mul_down_le(out.0, p.0);
                            lemma_geo_at_most_one(
                                specs.drop_first(),
                                comps,
                                pillar,
                                FixedU64(spec_mul_down(out.0, p.0)),
                                table,
                            );
                        },
                        _ => {},
                    }
                },
            }
        }
    }
}

proof fn lemma_s_at_most(specs: Seq<MetricSpec>, comps: Seq<ComponentValue>, acc: FixedU64)
    ensures
        s_scan(specs, comps, acc) matches Ok(x) ==> x.0 <= acc.0,
    decreases specs.len(),
{
    if specs.len() > 0 {
        if specs[0].pillar != Pillar::S {
            lemma_s_at_most(specs.drop_first(), comps, acc);
        } else {
            match super::pillars::spec_value_for(comps, specs[0].id) {
                Err(_) => {},
                Ok(v) => {
                    let next = if acc.0 < v.0 {
                        acc
                    } else {
                        FixedU64(v.0)
                    };
                    lemma_s_at_most(specs.drop_first(), comps, next);
                },
            }
        }
    }
}

/// Recording a snapshot keeps the state checks passing when the incident
/// multiplier and every tabled power are at most one. (With a multiplier
/// above one and a zero on-chain compliance pillar, the attested pillar
/// exceeds one and the state checks fail.)
pub proof fn law_record_snapshot_keeps_bounds(
    m: WelfareModel,
    epoch: EpochId,
    spec_version: MetricSpecVersion,
    components: Vec<ComponentValue>,
    incident: FixedU64,
    table: PowerTable,
)
    requires
        m.try_state() is Ok,
        incident.0 <= ONE,
        powers_at_most_one(table.entries@),
    ensures
        m.record_snapshot(epoch, spec_version, components, incident, table).0.try_state() is Ok,
{
    let (m1, r) = m.record_snapshot(epoch, spec_version, components, incident, table);
    if r matches Eval::Done(Ok(welfare)) {
        let specs = m.spec_set(spec_version)->Ok_0;
        let t = table.entries@;
        let p = spec_compute_pillars(specs, components@, incident, t)->Done_0->Ok_0;
        lemma_s_at_most(specs, components@, FixedU64(ONE));
        lemma_geo_at_most_one(specs, components@, Pillar::COnchain, FixedU64(ONE), t);
        lemma_geo_at_most_one(specs, components@, Pillar::CAttested, FixedU64(ONE), t);
        lemma_geo_at_most_one(specs, components@, Pillar::P, FixedU64(ONE), t);
        lemma_geo_at_most_one(specs, components@, Pillar::A, FixedU64(ONE), t);
        let c_geo = spec_weighted_geo(specs, components@, Pillar::CAttested, t)->Done_0->Ok_0;
        lemma_mul_down_le(incident.0, c_geo.0);
        lemma_mul_down_le(p.c_onchain.0, p.c_attested.0);
        let gs = spec_gate(p.s.0, THETA_S_LO, THETA_S_HI)->Ok_0;
        let gc = spec_gate(p.c_settlement.0, THETA_C_LO, THETA_C_HI)->Ok_0;
        law_gate_range(p.s.0, THETA_S_LO, THETA_S_HI);
        law_gate_range(p.c_settlement.0, THETA_C_LO, THETA_C_HI);
        lemma_pow_at_most_one(p.p.0, super::math::W_P, t);
        lemma_pow_at_most_one(p.a.0, super::math::W_A, t);
        let pp = spec_pow_unit(p.p.0, super::math::W_P, t)->Done_0->Ok_0;
        let pa = spec_pow_unit(p.a.0, super::math::W_A, t)->Done_0->Ok_0;
        lemma_mul_down_le(gs, gc);
        lemma_mul_down_le(pp.0, pa.0);
        lemma_mul_down_le(spec_mul_down(gs, gc), spec_mul_down(pp.0, pa.0));
        assert(snapshot_in_range(m1.snapshots.last()));
        assert forall|i: int| 0 <= i < m1.snapshots.len() implies snapshot_in_range(
            #[trigger] m1.snapshots[i],
        ) by {
            if i < m.snapshots.len() {
                assert(m1.snapshots[i] == m.snapshots[i]);
            }
        }
    }
}

/// Registering a set keeps the state checks passing.
pub proof fn law_register_keeps_bounds(
    m: WelfareModel,
    current_epoch: EpochId,
    version: MetricSpecVersion,
    specs: Seq<MetricSpec>,
)
    requires
        m.try_state() is Ok,
    ensures
        m.register_metric_spec(current_epoch, version, specs).0.try_state() is Ok,
{
    let (m1, r) = m.register_metric_spec(current_epoch, version, specs);
    if r is Ok {
        lemma_sort_len(specs);
        assert forall|i: int| 0 <= i < m1.specs.len() implies (#[trigger] m1.specs[i]).1.len()
            <= MAX_COMPONENTS_PER_SPEC by {
            if i < m.specs.len() {
                assert(m1.specs[i] == m.specs[i]);
            }
        }
    }
}

/// Sorting keeps the length.
pub proof fn lemma_sort_len(s: Seq<MetricSpec>)
    ensures
        sort_by_id(s).len() == s.len(),
    decreases s.len(),
{
    if s.len() > 0 {
        lemma_sort_len(s.drop_last());
        lemma_insert_len(sort_by_id(s.drop_last()), s.last());
    }
}

proof fn lemma_insert_len(sorted: Seq<MetricSpec>, x: MetricSpec)
    ensures
        super::register::insert_by_id(sorted, x).len() == sorted.len() + 1,
    decreases sorted.len(),
{
    if sorted.len() > 0 && sorted.last().id > x.id {
        lemma_insert_len(sorted.drop_last(), x);
    }
}

/// The id before position `i`, or `prev` at the start.
pub open spec fn prev_id(s: Seq<MetricSpec>, i: int, prev: Option<crate::primitives::MetricId>) -> Option<
    crate::primitives::MetricId,
> {
    if i == 0 {
        prev
    } else {
        Some(s[i - 1].id)
    }
}

/// Every metric of a set that passes the per-metric checks passes its own
/// check, with ids strictly increasing.
proof fn lemma_metrics_check_all(
    s: Seq<MetricSpec>,
    version: MetricSpecVersion,
    current_epoch: EpochId,
    prev: Option<crate::primitives::MetricId>,
)
    requires
        metrics_check(s, version, current_epoch, prev) is Ok,
    ensures
        forall|i: int| 0 <= i < s.len() ==> #[trigger] metric_check(
            s[i],
            version,
            current_epoch,
            prev_id(s, i, prev),
        ) is Ok,
    decreases s.len(),
{
    if s.len() > 0 {
        lemma_metrics_check_all(s.drop_first(), version, current_epoch, Some(s[0].id));
        assert forall|i: int| 0 <= i < s.len() implies #[trigger] metric_check(
            s[i],
            version,
            current_epoch,
            prev_id(s, i, prev),
        ) is Ok by {
            let t = s.drop_first();
            if i > 0 {
                assert(s[i] == t[i - 1]);
                assert(metric_check(t[i - 1], version, current_epoch, prev_id(t, i - 1, Some(s[0].id)))
                    is Ok);
                if i > 1 {
                    assert(s[i - 1] == t[i - 2]);
                }
                assert(prev_id(t, i - 1, Some(s[0].id)) == prev_id(s, i, prev));
            }
        }
    }
}

/// A registered set holds between one and sixteen metrics, all of the
/// registered version, activating at least two epochs after registration,
/// with weights, floors and sanity bounds within one, every discipline
/// declared, ids strictly increasing, and per-pillar weights summing to one
/// (zero being allowed for attested compliance).
pub proof fn law_registered_sets_are_disciplined(
    m: WelfareModel,
    current_epoch: EpochId,
    version: MetricSpecVersion,
    specs: Seq<MetricSpec>,
)
    requires
        m.register_metric_spec(current_epoch, version, specs).1 is Ok,
    ensures
        ({
            let s = m.register_metric_spec(current_epoch, version, specs).0.specs.last().1;
            &&& m.register_metric_spec(current_epoch, version, specs).0.specs.last().0 == version
            &&& 1 <= s.len() <= MAX_COMPONENTS_PER_SPEC
            &&& forall|i: int|
                0 <= i < s.len() ==> {
                    &&& (#[trigger] s[i]).version == version
                    &&& s[i].activation_epoch >= earliest_activation(current_epoch)
                    &&& s[i].weight.0 <= ONE && s[i].epsilon_floor.0 <= ONE
                    &&& s[i].sanity_min.0 <= s[i].sanity_max.0 <= ONE
                    &&& s[i].has_normalization_rule && s[i].has_missing_data_rule
                    &&& s[i].has_gaming_vectors && s[i].has_challenge_procedure
                }
            &&& forall|i: int, j: int| 0 <= i < j < s.len() ==> s[i].id < s[j].id
            &&& pillar_weight(s, Pillar::S) == ONE
            &&& pillar_weight(s, Pillar::COnchain) == ONE
            &&& pillar_weight(s, Pillar::P) == ONE
            &&& pillar_weight(s, Pillar::A) == ONE
            &&& (pillar_weight(s, Pillar::CAttested) == 0 || pillar_weight(s, Pillar::CAttested)
                == ONE)
        }),
{
    let s = sort_by_id(specs);
    lemma_sort_len(specs);
    lemma_metrics_check_all(s, version, current_epoch, None);
    assert forall|i: int| 0 <= i < s.len() implies {
        &&& (#[trigger] s[i]).version == version
        &&& s[i].activation_epoch >= earliest_activation(current_epoch)
        &&& s[i].weight.0 <= ONE && s[i].epsilon_floor.0 <= ONE
        &&& s[i].sanity_min.0 <= s[i].sanity_max.0 <= ONE
        &&& s[i].has_normalization_rule && s[i].has_missing_data_rule
        &&& s[i].has_gaming_vectors && s[i].has_challenge_procedure
    } by {
        assert(metric_check(
            s[i],
            version,
            current_epoch,
            prev_id(s, i, None),
        ) is Ok);
    }
    assert forall|i: int, j: int| 0 <= i < j < s.len() implies s[i].id < s[j].id by {
        lemma_increasing(s, version, current_epoch, i, j);
    }
}

proof fn lemma_increasing(
    s: Seq<MetricSpec>,
    version: MetricSpecVersion,
    current_epoch: EpochId,
    i: int,
    j: int,
)
    requires
        0 <= i < j < s.len(),
        forall|k: int| 0 <= k < s.len() ==> #[trigger] metric_check(
            s[k],
            version,
            current_epoch,
            prev_id(s, k, None),
        ) is Ok,
    ensures
        s[i].id < s[j].id,
    decreases j - i,
{
    assert(metric_check(s[j], version, current_epoch, prev_id(s, j, None)) is Ok);
    if j - 1 > i {
        lemma_increasing(s, version, current_epoch, i, j - 1);
    }
}

/// The settlement score of a cohort uses only snapshots taken under the
/// requested specification version, of the two epochs after the cohort.
pub proof fn law_settlement_binds_spec_version(
    m: WelfareModel,
    cohort_epoch: EpochId,
    spec_version: MetricSpecVersion,
)
    requires
        m.compute_settlement(cohort_epoch, spec_version).1 is Ok,
    ensures
        m.snapshot(epoch_plus(cohort_epoch, 1), spec_version) is Ok,
        m.snapshot(epoch_plus(cohort_epoch, 2), spec_version) is Ok,
        m.snapshot(epoch_plus(cohort_epoch, 1), spec_version)->Ok_0.spec_version == spec_version,
        m.snapshot(epoch_plus(cohort_epoch, 2), spec_version)->Ok_0.spec_version == spec_version,
        m.compute_settlement(cohort_epoch, spec_version).1 == Ok::<FixedU64, Error>(
            FixedU64(
                spec_settlement_score(
                    m.snapshot(epoch_plus(cohort_epoch, 1), spec_version)->Ok_0.welfare.0,
                    m.snapshot(epoch_plus(cohort_epoch, 2), spec_version)->Ok_0.welfare.0,
                )->Ok_0,
            ),
        ),
{
    crate::seq_util::lemma_first_match_props(
        m.snapshots,
        super::state::snapshot_is(epoch_plus(cohort_epoch, 1), spec_version),
    );
    crate::seq_util::lemma_first_match_props(
        m.snapshots,
        super::state::snapshot_is(epoch_plus(cohort_epoch, 2), spec_version),
    );
}

/// The settlement score does not depend on the order of its two welfare values.
pub proof fn law_settlement_score_symmetric(w1: u64, w2: u64)
    ensures
        spec_settlement_score(w1, w2) == spec_settlement_score(w2, w1),
{
    let a = if w1 > 1 { w1 } else { 1 };
    let b = if w2 > 1 { w2 } else { 1 };
    let qa = super::math::spec_q64_from_1e9(a);
    let qb = super::math::spec_q64_from_1e9(b);
    assert((qa as int) * (qb as int) == (qb as int) * (qa as int)) by (nonlinear_arith);
    assert(spec_q64_mul(qa, qb) == spec_q64_mul(qb, qa));
}

/// The daily gate reads only the security minimum and the on-chain
/// compliance mean: its compliance reading is the on-chain mean, and the
/// incident multiplier, which scales only the attested compliance, changes
/// neither reading nor whether the computation succeeds.
pub proof fn law_daily_gate_ignores_incident(
    specs: Seq<MetricSpec>,
    comps: Seq<ComponentValue>,
    incident1: FixedU64,
    incident2: FixedU64,
    table: Seq<PowerEntry>,
)
    ensures
        match spec_compute_pillars(specs, comps, incident1, table) {
            Eval::Done(Ok(p1)) => {
                &&& p1.c_daily == p1.c_onchain
                &&& spec_compute_pillars(specs, comps, incident2, table) matches Eval::Done(Ok(p2))
                    && p2.c_daily == p1.c_daily && p2.s == p1.s
            },
            other => spec_compute_pillars(specs, comps, incident2, table) == other,
        },
{
}

/// One call of the welfare pallet's operations, with its arguments.
pub enum WelfareCall {
    Register { current_epoch: EpochId, version: MetricSpecVersion, specs: Seq<MetricSpec> },
    Snapshot {
        epoch: EpochId,
        spec_version: MetricSpecVersion,
        components: Vec<ComponentValue>,
        incident: FixedU64,
        table: PowerTable,
    },
    DailyGate {
        epoch: EpochId,
        day: u8,
        spec_version: MetricSpecVersion,
        components: Seq<ComponentValue>,
        table: PowerTable,
    },
    Settlement { cohort_epoch: EpochId, spec_version: MetricSpecVersion },
}

/// The state after one call, whether it succeeds or not.
pub open spec fn apply_call(m: WelfareModel, c: WelfareCall) -> WelfareModel {
    match c {
        WelfareCall::Register { current_epoch, version, specs } => m.register_metric_spec(
            current_epoch,
            version,
            specs,
        ).0,
        WelfareCall::Snapshot { epoch, spec_version, components, incident, table } => m.record_snapshot(
            epoch,
            spec_version,
            components,
            incident,
            table,
        ).0,
        WelfareCall::DailyGate { epoch, day, spec_version, components, table } => m.record_daily_gate(
            epoch,
            day,
            spec_version,
            components,
            table,
        ).0,
        WelfareCall::Settlement { cohort_epoch, spec_version } => m.compute_settlement(
            cohort_epoch,
            spec_version,
        ).0,
    }
}

/// The state after a sequence of calls.
pub open spec fn apply_calls(m: WelfareModel, calls: Seq<WelfareCall>) -> WelfareModel
    decreases calls.len(),
{
    if calls.len() == 0 {
        m
    } else {
        apply_call(apply_calls(m, calls.drop_last()), calls.last())
    }
}

/// A call whose incident multiplier and tabled powers are at most one, as
/// every power of a value below one is.
pub open spec fn call_in_range(c: WelfareCall) -> bool {
    match c {
        WelfareCall::Snapshot { incident, table, .. } => incident.0 <= ONE && powers_at_most_one(
            table.entries@,
        ),
        _ => true,
    }
}

/// The model of an empty welfare state.
pub open spec fn empty_model() -> WelfareModel {
    WelfareModel {
        specs: Seq::empty(),
        snapshots: Seq::empty(),
        gate_flags: Seq::empty(),
        events: Seq::empty(),
    }
}

/// One call keeps the state checks passing.
proof fn lemma_call_keeps_bounds(m: WelfareModel, c: WelfareCall)
    requires
        m.try_state() is Ok,
        call_in_range(c),
    ensures
        apply_call(m, c).try_state() is Ok,
{
    match c {
        WelfareCall::Register { current_epoch, version, specs } => {
            law_register_keeps_bounds(m, current_epoch, version, specs);
        },
        WelfareCall::Snapshot { epoch, spec_version, components, incident, table } => {
            law_record_snapshot_keeps_bounds(m, epoch, spec_version, components, incident, table);
        },
        WelfareCall::DailyGate { epoch, day, spec_version, components, table } => {
            let m1 = m.record_daily_gate(epoch, day, spec_version, components, table).0;
            assert(m1.specs == m.specs && m1.snapshots == m.snapshots);
        },
        WelfareCall::Settlement { cohort_epoch, spec_version } => {
            let m1 = m.compute_settlement(cohort_epoch, spec_version).0;
            assert(m1.specs == m.specs && m1.snapshots == m.snapshots);
        },
    }
}

/// From any state that passes the state checks, a sequence of calls, each
/// successful or not, keeps them passing.
pub proof fn lemma_calls_keep_bounds(m: WelfareModel, calls: Seq<WelfareCall>)
    requires
        m.try_state() is Ok,
        forall|i: int| 0 <= i < calls.len() ==> call_in_range(#[trigger] calls[i]),
    ensures
        apply_calls(m, calls).try_state() is Ok,
    decreases calls.len(),
{
    if calls.len() > 0 {
        let d = calls.drop_last();
        assert forall|i: int| 0 <= i < d.len() implies call_in_range(#[trigger] d[i]) by {
            assert(d[i] == calls[i]);
        }
        lemma_calls_keep_bounds(m, d);
        assert(call_in_range(calls[calls.len() - 1]));
        lemma_call_keeps_bounds(apply_calls(m, d), calls.last());
    }
}

/// The state checks pass after any sequence of registrations, snapshots,
/// daily gates and settlements from the empty state, successful or not,
/// when every snapshot's incident multiplier and tabled powers are at most
/// one. (With a multiplier above one the attested pillar can exceed one;
/// see `law_record_snapshot_keeps_bounds`.)
pub proof fn law_state_checks_hold_after_any_calls(calls: Seq<WelfareCall>)
    requires
        forall|i: int| 0 <= i < calls.len() ==> call_in_range(#[trigger] calls[i]),
    ensures
        apply_calls(empty_model(), calls).try_state() is Ok,
{
    lemma_calls_keep_bounds(empty_model(), calls);
}

/// `i` is the integer square root of `t`.
pub open spec fn is_isqrt(i: int, t: int) -> bool {
    0 <= i && i * i <= t && t < (i + 1) * (i + 1)
}

/// Floor division by a positive divisor.
proof fn lemma_floor_div(x: int, d: int)
    requires
        x >= 0,
        d > 0,
    ensures
        x / d >= 0,
        (x / d) * d <= x,
        x < (x / d) * d + d,
{
    assert((x / d) * d <= x && x < (x / d) * d + d && x / d >= 0) by (nonlinear_arith)
        requires
            x >= 0,
            d > 0,
    ;
}

/// Every `t` up to `2^64` has an integer square root.
proof fn lemma_isqrt_exists(t: int)
    requires
        0 <= t <= 0x1_0000_0000_0000_0000,
    ensures
        exists|m: int| #[trigger] is_isqrt(m, t),
    decreases t,
{
    if t == 0 {
        assert(is_isqrt(0, 0));
    } else {
        lemma_isqrt_exists(t - 1);
        let m = choose|m: int| #[trigger] is_isqrt(m, t - 1);
        if (m + 1) * (m + 1) <= t {
            assert((m + 1) * (m + 1) < (m + 2) * (m + 2)) by (nonlinear_arith)
                requires
                    m >= 0,
            ;
            assert(is_isqrt(m + 1, t));
        } else {
            assert(is_isqrt(m, t));
        }
    }
}

/// Below `2^64`, the fixed-point square root's integer root is the integer
/// square root.
proof fn lemma_spec_isqrt_small(t: int, m: int)
    requires
        0 <= t <= 0x1_0000_0000_0000_0000,
        is_isqrt(m, t),
    ensures
        spec_isqrt(t) == m,
        m <= 0x1_0000_0000,
{
    assert(m <= 0x1_0000_0000) by (nonlinear_arith)
        requires
            m >= 0,
            m * m <= t,
            t <= 0x1_0000_0000_0000_0000,
    ;
    assert((m + 1) * (m + 1) <= 0x1_0000_0001 * 0x1_0000_0001) by (nonlinear_arith)
        requires
            0 <= m <= 0x1_0000_0000,
    ;
    assert(sat_sq(m) == m * m);
    assert(sat_sq(m + 1) == (m + 1) * (m + 1));
    assert(is_sqrt_floor(m, t));
    assert(is_sqrt_floor(spec_isqrt(t), t));
    lemma_sqrt_floor_unique(spec_isqrt(t), m, t);
}

/// The settlement score of welfare values within one is the integer square
/// root of the product of the floored values (in nine-decimal units), or one
/// less: the fixed-point geometric mean is never rounded up, and loses at
/// most one unit.
pub proof fn law_settlement_score_within_one_of_root(w1: u64, w2: u64, i: int)
    requires
        w1 <= ONE,
        w2 <= ONE,
        is_isqrt(
            i,
            (if w1 > EPSILON { w1 } else { EPSILON }) * (if w2 > EPSILON { w2 } else { EPSILON }),
        ),
    ensures
        spec_settlement_score(w1, w2) matches Ok(r) && i - 1 <= r <= i,
{
    let a: int = if w1 > EPSILON { w1 as int } else { 1 };
    let b: int = if w2 > EPSILON { w2 as int } else { 1 };
    let n: int = 1_000_000_000;
    let k: int = 0x1_0000_0000_0000_0000;
    let l: int = 0x1_0000_0000;
    assert(k == l * l);
    // The two conversions to 64.64.
    lemma_floor_div(a * k, n);
    lemma_floor_div(b * k, n);
    let qa: int = (a * k) / n;
    let qb: int = (b * k) / n;
    assert(qa <= k && qb <= k) by (nonlinear_arith)
        requires
            qa * n <= a * k,
            qb * n <= b * k,
            a <= n,
            b <= n,
            n > 0,
            k > 0,
    ;
    assert(spec_q64_from_1e9(a as u64) == qa);
    assert(spec_q64_from_1e9(b as u64) == qb);
    // Their product.
    assert(0 <= qa * qb <= k * k) by (nonlinear_arith)
        requires
            0 <= qa <= k,
            0 <= qb <= k,
    ;
    lemma_floor_div(qa * qb, k);
    let p: int = (qa * qb) / k;
    assert(p <= k) by (nonlinear_arith)
        requires
            p * k <= qa * qb,
            qa * qb <= k * k,
            k > 0,
    ;
    assert(spec_q64_mul(qa as u128, qb as u128) == Ok::<u128, Error>(p as u128));
    // Its square root.
    lemma_isqrt_exists(p);
    let m = choose|m: int| #[trigger] is_isqrt(m, p);
    lemma_spec_isqrt_small(p, m);
    assert(0 <= m * l <= k) by (nonlinear_arith)
        requires
            0 <= m <= l,
            k == l * l,
    ;
    assert(0 <= m * l * n) by (nonlinear_arith)
        requires
            m >= 0,
            l > 0,
            n > 0,
    ;
    lemma_floor_div(m * l * n, k);
    let r: int = (m * l * n) / k;
    assert(r <= n) by (nonlinear_arith)
        requires
            r * k <= m * l * n,
            m * l <= k,
            k > 0,
            n > 0,
    ;
    assert(spec_q64_to_1e9_down((m * 0x1_0000_0000) as u128) == r);
    assert(spec_settlement_score(w1, w2) == Ok::<u64, Error>(r as u64));
    // Never rounded up: r * r <= a * b.
    assert(r * l <= m * n) by (nonlinear_arith)
        requires
            r * k <= m * l * n,
            k == l * l,
            l > 0,
    ;
    assert(r * r * k <= m * m * n * n) by (nonlinear_arith)
        requires
            0 <= r * l <= m * n,
            k == l * l,
            r >= 0,
    ;
    assert(m * m * n * n * k <= a * b * k * k) by (nonlinear_arith)
        requires
            0 <= m * m <= p,
            p * k <= qa * qb,
            0 <= qa * n <= a * k,
            0 <= qb * n <= b * k,
            qa >= 0,
            qb >= 0,
            n > 0,
            k > 0,
    ;
    assert(r * r <= a * b) by (nonlinear_arith)
        requires
            r * r * k <= m * m * n * n,
            m * m * n * n * k <= a * b * k * k,
            k > 0,
    ;
    assert(r <= i) by (nonlinear_arith)
        requires
            r >= 0,
            i >= 0,
            r * r <= a * b,
            a * b < (i + 1) * (i + 1),
    ;
    // Loses at most one unit.
    assert((r + 1) * l > m * n) by (nonlinear_arith)
        requires
            m * l * n < r * k + k,
            k == l * l,
            l > 0,
    ;
    assert((qa * n) * (qb * n) > (a * k - n) * (b * k - n)) by (nonlinear_arith)
        requires
            a * k - n < qa * n,
            b * k - n < qb * n,
            a * k - n >= 0,
            b * k - n >= 0,
    ;
    assert((a * k - n) * (b * k - n) >= a * b * k * k - 2 * n * n * k) by (nonlinear_arith)
        requires
            1 <= a <= n,
            1 <= b <= n,
            k > 0,
            n > 0,
    ;
    assert((p + 1) * k * (n * n) > (qa * qb) * (n * n)) by (nonlinear_arith)
        requires
            qa * qb < (p + 1) * k,
            n > 0,
    ;
    assert((qa * n) * (qb * n) == (qa * qb) * (n * n)) by (nonlinear_arith);
    assert((p + 1) * (n * n) > a * b * k - 2 * n * n) by (nonlinear_arith)
        requires
            (p + 1) * k * (n * n) > a * b * k * k - 2 * n * n * k,
            k > 0,
    ;
    assert((p + 1) * n * n > i * i * k - 2 * n * n) by (nonlinear_arith)
        requires
            (p + 1) * (n * n) > a * b * k - 2 * n * n,
            i * i <= a * b,
            k > 0,
    ;
    if r + 1 < i {
        assert(false) by (nonlinear_arith)
            requires
                (r + 1) * l > m * n,
                r + 1 <= i - 1,
                (m + 1) * (m + 1) >= p + 1,
                (p + 1) * n * n > i * i * k - 2 * n * n,
                m >= 0,
                r >= 0,
                k == l * l,
                l == 0x1_0000_0000,
                n == 1_000_000_000,
        ;
    }
}

/// Between its thresholds the value is the smoothstep
/// `s(t) = t^2 (3 - 2t)` of the position `t = (x - lo) / (hi - lo)` (in nine
/// decimals, `t` rounded down), rounded down: never above `s(t)` and less
/// than four units short of it. So it lies strictly below the linear
/// ramp `t` in the lower half, and no more than four units below it in the
/// upper half.
pub proof fn law_gate_is_smoothstep(x: u64, lo: u64, hi: u64)
    requires
        lo < hi <= ONE,
        lo < x < hi,
    ensures
        ({
            let t = (x - lo) * ONE / ((hi - lo) as int);
            &&& 0 <= t < ONE
            &&& spec_gate(x, lo, hi) matches Ok(v) && {
                &&& v * ONE * ONE <= t * t * (3 * ONE - 2 * t)
                &&& t * t * (3 * ONE - 2 * t) < (v + 4) * ONE * ONE
                &&& (0 < t && 2 * t < ONE ==> v < t)
                &&& (2 * t > ONE ==> t < v + 4)
            }
        }),
{
    lemma_gate_bounds(x, lo, hi);
    let n: int = ONE as int;
    let t = (x - lo) * ONE / ((hi - lo) as int);
    let t2 = t * t / n;
    let c = 3 * n - 2 * t;
    let v = t2 * c / n;
    assert(spec_gate(x, lo, hi) == Ok::<u64, Error>(v as u64));
    assert(t2 * n <= t * t && t * t < t2 * n + n) by (nonlinear_arith)
        requires
            t2 == t * t / n,
            t >= 0,
            n > 0,
    ;
    assert(v * n <= t2 * c && t2 * c < v * n + n) by (nonlinear_arith)
        requires
            v == t2 * c / n,
            t2 >= 0,
            c > 0,
            n > 0,
    ;
    assert(v * n * n <= t * t * c) by (nonlinear_arith)
        requires
            v * n <= t2 * c,
            t2 * n <= t * t,
            c > 0,
            n > 0,
    ;
    assert(t * t * c < (v + 4) * n * n) by (nonlinear_arith)
        requires
            t * t < t2 * n + n,
            t2 * c < v * n + n,
            0 < c <= 3 * n,
            n > 0,
    ;
    if 0 < t && 2 * t < n {
        assert(t * t * c < t * n * n) by (nonlinear_arith)
            requires
                0 < t,
                2 * t < n,
                c == 3 * n - 2 * t,
        ;
        assert(v < t) by (nonlinear_arith)
            requires
                v * n * n <= t * t * c,
                t * t * c < t * n * n,
                n > 0,
        ;
    }
    if 2 * t > n {
        assert(t * t * c > t * n * n) by (nonlinear_arith)
            requires
                2 * t > n,
                t < n,
                c == 3 * n - 2 * t,
        ;
        assert(t < v + 4) by (nonlinear_arith)
            requires
                t * t * c < (v + 4) * n * n,
                t * t * c > t * n * n,
                n > 0,
        ;
    }
}

/// A pillar with no metric leaves the geometric fold where it started.
proof fn lemma_geo_scan_absent(
    specs: Seq<MetricSpec>,
    comps: Seq<ComponentValue>,
    pillar: Pillar,
    out: FixedU64,
    table: Seq<PowerEntry>,
)
    requires
        forall|j: int| 0 <= j < specs.len() ==> (#[trigger] specs[j]).pillar != pillar,
    ensures
        geo_scan(specs, comps, pillar, out, table) == Eval::<Result<FixedU64, Error>>::Done(Ok(out)),
    decreases specs.len(),
{
    if specs.len() > 0 {
        let d = specs.drop_first();
        assert forall|j: int| 0 <= j < d.len() implies (#[trigger] d[j]).pillar != pillar by {
            assert(d[j] == specs[j + 1]);
        }
        assert(specs[0].pillar != pillar);
        lemma_geo_scan_absent(d, comps, pillar, out, table);
    }
}

/// The incident multiplier scales the attested compliance pillar. Without
/// attested metrics the attested pillar is the multiplier itself, and the
/// settlement compliance is the on-chain mean times the multiplier, rounded
/// down.
pub proof fn law_incident_is_attested_compliance_without_attested_metrics(
    specs: Seq<MetricSpec>,
    comps: Seq<ComponentValue>,
    incident: FixedU64,
    table: Seq<PowerEntry>,
)
    requires
        forall|j: int| 0 <= j < specs.len() ==> (#[trigger] specs[j]).pillar != Pillar::CAttested,
        spec_compute_pillars(specs, comps, incident, table) is Done,
        spec_compute_pillars(specs, comps, incident, table)->Done_0 is Ok,
    ensures
        ({
            let p = spec_compute_pillars(specs, comps, incident, table)->Done_0->Ok_0;
            &&& p.c_attested == incident
            &&& p.c_settlement.0 == ((p.c_onchain.0 * incident.0) / (ONE as int)) as u64
        }),
{
    lemma_geo_scan_absent(specs, comps, Pillar::CAttested, FixedU64(ONE), table);
    assert((incident.0 * ONE) / (ONE as int) == incident.0) by (nonlinear_arith);
}

/// A larger incident multiplier (up to one) never lowers the attested or the
/// settlement compliance pillar, and changes no other pillar, when every
/// tabled power is at most one (as every power of a value below one is).
pub proof fn law_attested_compliance_grows_with_incident(
    specs: Seq<MetricSpec>,
    comps: Seq<ComponentValue>,
    incident1: FixedU64,
    incident2: FixedU64,
    table: Seq<PowerEntry>,
)
    requires
        incident1.0 <= incident2.0 <= ONE,
        powers_at_most_one(table),
        spec_compute_pillars(specs, comps, incident1, table) is Done,
        spec_compute_pillars(specs, comps, incident1, table)->Done_0 is Ok,
    ensures
        spec_compute_pillars(specs, comps, incident2, table) matches Eval::Done(Ok(p2)) && {
            let p1 = spec_compute_pillars(specs, comps, incident1, table)->Done_0->Ok_0;
            &&& p1.c_attested.0 <= p2.c_attested.0
            &&& p1.c_settlement.0 <= p2.c_settlement.0
            &&& p1.s == p2.s && p1.c_onchain == p2.c_onchain && p1.c_daily == p2.c_daily
            &&& p1.p == p2.p && p1.a == p2.a
        },
{
    let g = spec_weighted_geo(specs, comps, Pillar::CAttested, table)->Done_0->Ok_0;
    let c = spec_weighted_geo(specs, comps, Pillar::COnchain, table)->Done_0->Ok_0;
    lemma_geo_at_most_one(specs, comps, Pillar::CAttested, FixedU64(ONE), table);
    lemma_geo_at_most_one(specs, comps, Pillar::COnchain, FixedU64(ONE), table);
    let a1: int = (incident1.0 * g.0) / (ONE as int);
    let a2: int = (incident2.0 * g.0) / (ONE as int);
    assert(0 <= a1 <= a2 <= g.0) by (nonlinear_arith)
        requires
            a1 == (incident1.0 * g.0) / (ONE as int),
            a2 == (incident2.0 * g.0) / (ONE as int),
            0 <= incident1.0 <= incident2.0 <= ONE,
            0 <= g.0 <= ONE,
    ;
    assert(spec_mul_down(incident1.0, g.0) == a1);
    assert(spec_mul_down(incident2.0, g.0) == a2);
    let s1: int = (c.0 * a1) / (ONE as int);
    let s2: int = (c.0 * a2) / (ONE as int);
    assert(0 <= s1 <= s2 <= c.0) by (nonlinear_arith)
        requires
            s1 == (c.0 * a1) / (ONE as int),
            s2 == (c.0 * a2) / (ONE as int),
            0 <= a1 <= a2 <= ONE,
            c.0 >= 0,
    ;
}

/// Some metric of the security pillar has a component value below `th`.
pub open spec fn security_component_below(specs: Seq<MetricSpec>, comps: Seq<ComponentValue>, th: u64) -> bool {
    exists|j: int|
        0 <= j < specs.len() && (#[trigger] specs[j]).pillar == Pillar::S
            && spec_value_for(comps, specs[j].id) is Ok
            && spec_value_for(comps, specs[j].id)->Ok_0.0 < th
}

/// The security minimum is below `th` exactly when its start or some
/// security component is.
proof fn lemma_s_scan_below(specs: Seq<MetricSpec>, comps: Seq<ComponentValue>, acc: FixedU64, th: u64)
    requires
        s_scan(specs, comps, acc) is Ok,
    ensures
        s_scan(specs, comps, acc)->Ok_0.0 < th <==> (acc.0 < th || security_component_below(
            specs,
            comps,
            th,
        )),
    decreases specs.len(),
{
    if specs.len() > 0 {
        let d = specs.drop_first();
        let acc1 = if specs[0].pillar != Pillar::S {
            acc
        } else {
            let v = spec_value_for(comps, specs[0].id)->Ok_0;
            if acc.0 < v.0 {
                acc
            } else {
                FixedU64(v.0)
            }
        };
        lemma_s_scan_below(d, comps, acc1, th);
        if security_component_below(d, comps, th) {
            let j = choose|j: int|
                0 <= j < d.len() && (#[trigger] d[j]).pillar == Pillar::S
            && spec_value_for(comps, d[j].id) is Ok
            && spec_value_for(comps, d[j].id)->Ok_0.0 < th;
            assert(specs[j + 1] == d[j]);
            assert(security_component_below(specs, comps, th));
        }
        if security_component_below(specs, comps, th) {
            let j = choose|j: int|
                0 <= j < specs.len() && (#[trigger] specs[j]).pillar == Pillar::S
            && spec_value_for(comps, specs[j].id) is Ok
            && spec_value_for(comps, specs[j].id)->Ok_0.0 < th;
            if j > 0 {
                assert(d[j - 1] == specs[j]);
                assert(security_component_below(d, comps, th));
            }
        }
    }
}

/// A day's observation records a security breach exactly when some security
/// component is below the security gate's lower threshold, and a compliance
/// breach exactly when the on-chain compliance mean is below the compliance
/// gate's lower threshold. Breach flags accumulate over the epoch; a day with
/// a breach sets its bit in the bitmap, and a day without leaves the epoch's
/// flags and bitmap as they were.
pub proof fn law_daily_gate_breaches_follow_lower_thresholds(
    m: WelfareModel,
    epoch: EpochId,
    day: u8,
    spec_version: MetricSpecVersion,
    comps: Seq<ComponentValue>,
    table: PowerTable,
)
    requires
        m.record_daily_gate(epoch, day, spec_version, comps, table).1 is Done,
        m.record_daily_gate(epoch, day, spec_version, comps, table).1->Done_0 is Ok,
    ensures
        ({
            let (m1, r) = m.record_daily_gate(epoch, day, spec_version, comps, table);
            let flags = r->Done_0->Ok_0;
            let before = m.flags(epoch);
            let specs = m.spec_set(spec_version)->Ok_0;
            let p = spec_compute_pillars(specs, comps, FixedU64(ONE), table.entries@)->Done_0->Ok_0;
            let s_low = security_component_below(specs, comps, THETA_S_LO);
            let c_low = p.c_onchain.0 < THETA_C_LO;
            &&& m1.events == m.events.push(
                Event::GateBreachRecorded { epoch, day, s_breached: s_low, c_breached: c_low },
            )
            &&& flags.s_breached == (before.s_breached || s_low)
            &&& flags.c_breached == (before.c_breached || c_low)
            &&& (!s_low && !c_low ==> flags.day_bitmap@ == before.day_bitmap@)
            &&& (s_low || c_low ==> (flags.day_bitmap@[(day / 32) as int] >> ((day % 32) as u32))
                & 1u32 == 1u32)
        }),
{
    let specs = m.spec_set(spec_version)->Ok_0;
    let p = spec_compute_pillars(specs, comps, FixedU64(ONE), table.entries@)->Done_0->Ok_0;
    lemma_s_scan_below(specs, comps, FixedU64(ONE), THETA_S_LO);
    let before = m.flags(epoch);
    let w = (day / 32) as int;
    let k = (day % 32) as u32;
    assert(day < 64);
    assert(0 <= w < 2);
    let x = before.day_bitmap@[w];
    assert(((x | (1u32 << k)) >> k) & 1u32 == 1u32) by (bit_vector)
        requires
            k < 32,
    ;
    let flags = m.record_daily_gate(epoch, day, spec_version, comps, table).1->Done_0->Ok_0;
    assert(flags.day_bitmap@ =~= super::state::updated_flags(
        before,
        day,
        p.s.0 < THETA_S_LO,
        p.c_daily.0 < THETA_C_LO,
    ).day_bitmap@);
}

} // verus!
