use bleavit::primitives::{FixedU64, MetricId};
use bleavit::welfare::math::{
    gate, q64_from_1e9, q64_to_1e9_down, settlement_score, sqrt_floor, Error, FixedU64x64,
    EPSILON_PILLAR, ONE, THETA_C_HI, THETA_C_LO,
};
use bleavit::welfare::pillars::{compute_welfare, pow_unit};
use bleavit::welfare::state::benchmark_stub;
use bleavit::welfare::types::{
    ComponentValue, Eval, MetricSpec, Pillar, PowerEntry, PowerTable, SourceClass, WelfareState,
    HISTORY_PRIORS,
};

fn spec(id: MetricId, pillar: Pillar, weight: u64, version: u16) -> MetricSpec {
    MetricSpec {
        id,
        version,
        pillar,
        weight: FixedU64(weight),
        epsilon_floor: FixedU64(EPSILON_PILLAR),
        activation_epoch: 3,
        source: SourceClass::Onchain,
        formula_ref: [1; 32],
        units: [2; 16],
        repr: [3; 16],
        cadence_blocks: 1,
        sanity_min: FixedU64(0),
        sanity_max: FixedU64(ONE),
        has_normalization_rule: true,
        has_missing_data_rule: true,
        has_gaming_vectors: true,
        has_challenge_procedure: true,
        prior_bounds: [FixedU64(ONE); HISTORY_PRIORS],
    }
}

fn default_specs(version: u16) -> Vec<MetricSpec> {
    vec![
        spec(1, Pillar::S, ONE, version),
        spec(2, Pillar::COnchain, ONE, version),
        spec(3, Pillar::P, ONE, version),
        spec(4, Pillar::A, ONE, version),
    ]
}

fn comps(s: u64, c: u64, p: u64, a: u64) -> Vec<ComponentValue> {
    vec![
        ComponentValue { id: 1, value: FixedU64(s) },
        ComponentValue { id: 2, value: FixedU64(c) },
        ComponentValue { id: 3, value: FixedU64(p) },
        ComponentValue { id: 4, value: FixedU64(a) },
    ]
}

fn no_powers() -> PowerTable {
    PowerTable { entries: Vec::new() }
}

#[test]
fn metric_spec_registration_enforces_activation_disciplines_and_weight_sums() {
    let mut w = WelfareState::new();
    let mut specs = default_specs(1);
    specs[0].activation_epoch = 1;
    assert_eq!(w.register_metric_spec(0, 1, specs), Err(Error::BadActivationEpoch));
    let mut specs = default_specs(1);
    specs[0].has_gaming_vectors = false;
    assert_eq!(w.register_metric_spec(0, 1, specs), Err(Error::MissingMetricDiscipline));
    assert_eq!(w.register_metric_spec(0, 1, default_specs(1)), Ok(()));
}

#[test]
fn daily_gate_uses_only_onchain_c_not_attested_incident() {
    let mut w = WelfareState::new();
    w.register_metric_spec(0, 1, default_specs(1)).unwrap();
    let flags = match w.record_daily_gate(2, 0, 1, comps(ONE, ONE, ONE, ONE), &no_powers()) {
        Eval::Done(Ok(f)) => f,
        other => panic!("unexpected {:?}", other),
    };
    assert!(!flags.c_breached);
}

#[test]
fn snapshots_and_settlement_bind_creation_time_spec_version() {
    let mut w = WelfareState::new();
    w.register_metric_spec(0, 1, default_specs(1)).unwrap();
    w.register_metric_spec(0, 2, default_specs(2)).unwrap();
    let c = comps(ONE, ONE, ONE, ONE);
    let t = no_powers();
    assert_eq!(w.record_snapshot(11, 1, c.clone(), FixedU64(ONE), &t), Eval::Done(Ok(FixedU64(ONE))));
    assert_eq!(w.record_snapshot(12, 1, c, FixedU64(ONE), &t), Eval::Done(Ok(FixedU64(ONE))));
    assert_eq!(w.compute_settlement(10, 1), Ok(FixedU64(ONE)));
    assert_eq!(w.compute_settlement(10, 2), Err(Error::MissingComponent));
}

#[test]
fn gate_and_welfare_zero_on_security_breach() {
    assert_eq!(
        gate(FixedU64(850_000_000), FixedU64(THETA_C_LO), FixedU64(THETA_C_HI)).unwrap(),
        FixedU64(0)
    );
    assert_eq!(
        compute_welfare(
            FixedU64(ONE),
            FixedU64(850_000_000),
            FixedU64(ONE),
            FixedU64(ONE),
            &no_powers()
        ),
        Eval::Done(Ok(FixedU64(0)))
    );
}

#[test]
fn settlement_score_is_geometric_mean_with_epsilon_floor() {
    assert_eq!(settlement_score(FixedU64(ONE), FixedU64(ONE)).unwrap(), FixedU64(ONE));
    assert_eq!(settlement_score(FixedU64(0), FixedU64(ONE)).unwrap().0, 31_622);
}

#[test]
fn gate_is_smoothstep_between_thresholds() {
    let lo = FixedU64(THETA_C_LO);
    let hi = FixedU64(THETA_C_HI);
    assert_eq!(gate(FixedU64(900_000_000), lo, hi), Ok(FixedU64(500_000_000)));
    assert_eq!(gate(FixedU64(950_000_000), lo, hi), Ok(FixedU64(ONE)));
    assert_eq!(gate(FixedU64(ONE + 1), lo, hi), Err(Error::ValueOutOfRange));
    assert_eq!(gate(FixedU64(1), hi, lo), Err(Error::ValueOutOfRange));
}

#[test]
fn settlement_score_is_symmetric() {
    let a = settlement_score(FixedU64(250_000_000), FixedU64(ONE)).unwrap();
    let b = settlement_score(FixedU64(ONE), FixedU64(250_000_000)).unwrap();
    assert_eq!(a, b);
    assert_eq!(a, FixedU64(500_000_000));
}

#[test]
fn fixed_point_conversions_and_roots() {
    let one = q64_from_1e9(ONE).unwrap();
    assert_eq!(one.raw(), 1u128 << 64);
    assert_eq!(q64_to_1e9_down(one), Ok(FixedU64(ONE)));
    assert_eq!(q64_to_1e9_down(q64_from_1e9(500_000_000).unwrap()), Ok(FixedU64(500_000_000)));
    assert_eq!(sqrt_floor(FixedU64x64::from_raw(4u128 << 64)).raw(), 2u128 << 64);
    let six = FixedU64x64::from_raw(2u128 << 64).checked_mul(FixedU64x64::from_raw(3u128 << 64));
    assert_eq!(six, Ok(FixedU64x64::from_raw(6u128 << 64)));
    let big = FixedU64x64::from_raw(1u128 << 127).checked_mul(FixedU64x64::from_raw(4u128 << 64));
    assert_eq!(big, Err(Error::ArithmeticOverflow));
}

#[test]
fn pow_unit_uses_table_and_reports_missing_powers() {
    let empty = no_powers();
    assert_eq!(pow_unit(ONE, 600_000_000, &empty), Eval::Done(Ok(FixedU64(ONE))));
    assert_eq!(pow_unit(500_000_000, 0, &empty), Eval::Done(Ok(FixedU64(ONE))));
    assert_eq!(pow_unit(0, 600_000_000, &empty), Eval::Done(Ok(FixedU64(0))));
    assert_eq!(
        pow_unit(500_000_000, 600_000_000, &empty),
        Eval::NeedsPower { value_1e9: 500_000_000, weight_1e9: 600_000_000 }
    );
    let table = PowerTable {
        entries: vec![
            PowerEntry { value_1e9: 500_000_000, weight_1e9: 600_000_000, result: Some(659_753_955) },
            PowerEntry { value_1e9: 400_000_000, weight_1e9: 600_000_000, result: None },
        ],
    };
    assert_eq!(pow_unit(500_000_000, 600_000_000, &table), Eval::Done(Ok(FixedU64(659_753_955))));
    assert_eq!(pow_unit(400_000_000, 600_000_000, &table), Eval::Done(Err(Error::ArithmeticOverflow)));
}

#[test]
fn snapshot_asks_for_each_missing_power_then_completes() {
    let mut w = WelfareState::new();
    w.register_metric_spec(0, 1, default_specs(1)).unwrap();
    let c = comps(ONE, ONE, 500_000_000, ONE);
    let mut table = no_powers();
    assert_eq!(
        w.record_snapshot(5, 1, c.clone(), FixedU64(ONE), &table),
        Eval::NeedsPower { value_1e9: 500_000_000, weight_1e9: ONE }
    );
    assert!(w.snapshots.is_empty());
    table.entries.push(PowerEntry { value_1e9: 500_000_000, weight_1e9: ONE, result: Some(500_000_000) });
    assert_eq!(
        w.record_snapshot(5, 1, c.clone(), FixedU64(ONE), &table),
        Eval::NeedsPower { value_1e9: 500_000_000, weight_1e9: 600_000_000 }
    );
    table.entries.push(PowerEntry { value_1e9: 500_000_000, weight_1e9: 600_000_000, result: Some(659_753_955) });
    assert_eq!(
        w.record_snapshot(5, 1, c, FixedU64(ONE), &table),
        Eval::Done(Ok(FixedU64(659_753_955)))
    );
    assert_eq!(w.snapshots.len(), 1);
    assert_eq!(w.snapshots[0].p_pillar, FixedU64(500_000_000));
    let view = w.current_view(5, 1, true).unwrap();
    assert_eq!(view.w_current_1e9, FixedU64(659_753_955));
    assert_eq!(view.p_pillar_1e9, FixedU64(500_000_000));
    assert!(view.reserve_flag);
    assert!(!view.s_breached);
    assert_eq!(w.current_view(6, 1, false), Err(Error::MissingComponent));
    assert_eq!(w.try_state(), Ok(()));
}

#[test]
fn registration_rejections_cover_each_rule() {
    let mut w = WelfareState::new();
    assert_eq!(w.register_metric_spec(0, 1, Vec::new()), Err(Error::TooManyComponents));
    let mut specs = default_specs(1);
    specs[2].version = 2;
    assert_eq!(w.register_metric_spec(0, 1, specs), Err(Error::SpecNotFound));
    let mut specs = default_specs(1);
    specs[1].weight = FixedU64(ONE + 1);
    assert_eq!(w.register_metric_spec(0, 1, specs), Err(Error::ValueOutOfRange));
    let mut specs = default_specs(1);
    specs.push(spec(1, Pillar::S, 0, 1));
    assert_eq!(w.register_metric_spec(0, 1, specs), Err(Error::DuplicateComponent));
    let mut specs = default_specs(1);
    specs[3].weight = FixedU64(500_000_000);
    assert_eq!(w.register_metric_spec(0, 1, specs), Err(Error::BadWeightSum));
    let mut specs = default_specs(1);
    specs.push(spec(5, Pillar::CAttested, 400_000_000, 1));
    assert_eq!(w.register_metric_spec(0, 1, specs), Err(Error::BadWeightSum));
    assert!(w.specs.is_empty());
    assert_eq!(w.register_metric_spec(0, 1, default_specs(1)), Ok(()));
    assert_eq!(w.register_metric_spec(0, 1, default_specs(1)), Err(Error::DuplicateSpecVersion));
}

#[test]
fn registration_sorts_metrics_by_id() {
    let mut w = WelfareState::new();
    let mut specs = default_specs(7);
    specs.reverse();
    assert_eq!(w.register_metric_spec(0, 7, specs), Ok(()));
    let ids: Vec<MetricId> = w.specs[0].1.iter().map(|s| s.id).collect();
    assert_eq!(ids, vec![1, 2, 3, 4]);
    assert_eq!(w.specs[0].0, 7);
}

#[test]
fn registry_holds_at_most_sixteen_versions() {
    let mut w = WelfareState::new();
    for v in 0..16u16 {
        assert_eq!(w.register_metric_spec(0, v, default_specs(v)), Ok(()));
    }
    assert_eq!(w.register_metric_spec(0, 16, default_specs(16)), Err(Error::TooManyMetricSpecs));
}

#[test]
fn snapshot_rejects_bad_components() {
    let mut w = WelfareState::new();
    w.register_metric_spec(0, 1, default_specs(1)).unwrap();
    let t = no_powers();
    let mut dup = comps(ONE, ONE, ONE, ONE);
    dup.push(ComponentValue { id: 1, value: FixedU64(ONE) });
    assert_eq!(w.record_snapshot(3, 1, dup, FixedU64(ONE), &t), Eval::Done(Err(Error::DuplicateComponent)));
    let high = comps(ONE + 1, ONE, ONE, ONE);
    assert_eq!(w.record_snapshot(3, 1, high, FixedU64(ONE), &t), Eval::Done(Err(Error::ValueOutOfRange)));
    let mut missing = comps(ONE, ONE, ONE, ONE);
    missing.pop();
    assert_eq!(w.record_snapshot(3, 1, missing, FixedU64(ONE), &t), Eval::Done(Err(Error::MissingComponent)));
    assert_eq!(
        w.record_snapshot(3, 9, comps(ONE, ONE, ONE, ONE), FixedU64(ONE), &t),
        Eval::Done(Err(Error::SpecNotFound))
    );
    assert!(w.snapshots.is_empty());
}

#[test]
fn daily_gate_records_breach_days() {
    let mut w = WelfareState::new();
    w.register_metric_spec(0, 1, default_specs(1)).unwrap();
    let t = no_powers();
    assert_eq!(
        w.record_daily_gate(4, 64, 1, comps(ONE, ONE, ONE, ONE), &t),
        Eval::Done(Err(Error::ValueOutOfRange))
    );
    let f = match w.record_daily_gate(4, 33, 1, comps(500_000_000, ONE, ONE, ONE), &t) {
        Eval::Done(Ok(f)) => f,
        other => panic!("unexpected {:?}", other),
    };
    assert!(f.s_breached);
    assert!(!f.c_breached);
    assert_eq!(f.day_bitmap, [0, 2]);
    let f = match w.record_daily_gate(4, 0, 1, comps(ONE, ONE, ONE, ONE), &t) {
        Eval::Done(Ok(f)) => f,
        other => panic!("unexpected {:?}", other),
    };
    assert!(f.s_breached);
    assert_eq!(f.day_bitmap, [0, 2]);
    assert_eq!(w.gate_flags.len(), 1);
}

#[test]
fn welfare_benchmark_stub_holds() {
    assert!(benchmark_stub());
}

#[test]
fn default_state_is_empty() {
    let w = WelfareState::default();
    assert!(w.specs.is_empty() && w.snapshots.is_empty() && w.gate_flags.is_empty() && w.events.is_empty());
    assert_eq!(w.try_state(), Ok(()));
}

#[test]
fn snapshot_waits_for_activation_epoch() {
    let mut w = WelfareState::new();
    w.register_metric_spec(0, 1, default_specs(1)).unwrap();
    let t = no_powers();
    assert_eq!(
        w.record_snapshot(2, 1, comps(ONE, ONE, ONE, ONE), FixedU64(ONE), &t),
        Eval::Done(Err(Error::BadActivationEpoch))
    );
    assert!(w.snapshots.is_empty());
    assert_eq!(w.events.len(), 1);
    assert_eq!(
        w.record_snapshot(3, 1, comps(ONE, ONE, ONE, ONE), FixedU64(ONE), &t),
        Eval::Done(Ok(FixedU64(ONE)))
    );
}

#[test]
fn settlement_score_is_the_floored_root_or_one_below() {
    assert_eq!(settlement_score(FixedU64(250_000_000), FixedU64(ONE)), Ok(FixedU64(500_000_000)));
    for (w1, w2) in [(1u64, 1u64), (7, 3), (123_456_789, 987_654_321), (ONE, 2), (0, 0)] {
        let a = w1.max(1) as u128;
        let b = w2.max(1) as u128;
        let p = a * b;
        let mut i = (p as f64).sqrt() as u128;
        while i * i > p {
            i -= 1;
        }
        while (i + 1) * (i + 1) <= p {
            i += 1;
        }
        let r = settlement_score(FixedU64(w1), FixedU64(w2)).unwrap().0 as u128;
        assert!(r <= i && r + 1 >= i, "{} {} -> {} vs {}", w1, w2, r, i);
    }
}

#[test]
fn state_checks_hold_after_a_run_of_calls() {
    let mut w = WelfareState::new();
    let t = no_powers();
    w.register_metric_spec(0, 1, default_specs(1)).unwrap();
    let _ = w.register_metric_spec(0, 1, default_specs(1));
    for e in 0..25u32 {
        let _ = w.record_snapshot(e, 1, comps(ONE, ONE, ONE, ONE), FixedU64(ONE), &t);
        let _ = w.record_daily_gate(e, (e % 64) as u8, 1, comps(ONE, ONE, ONE, ONE), &t);
        let _ = w.compute_settlement(e, 1);
        assert_eq!(w.try_state(), Ok(()));
    }
    assert_eq!(w.snapshots.len(), 20);
}
