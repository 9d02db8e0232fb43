use bleavit::views::{assemble_account_positions, BaselineState, Branch, ShownVaultState};
use bleavit::execution_guard::types::{CallDomain, ExecutionGuard, GuardOrigin, QueuedExecution};
use bleavit::primitives::{FixedU64, MetricId, ProposalClass, RuntimeVersionConstraint};
use bleavit::views::{
    account_positions, bound_or_empty, cooldown_blocks, current_spec_version, execution_queue,
    nav, open_oracle_rounds, order_open_rounds, param_class, params, push_position, quote,
    quote_sentinel, runtime_welfare_current, vault_state_for, welfare_current, welfare_sentinel,
    NavParts,
    OracleRound, ParamClass, QuoteView, RoundKey, StoredParam, VaultKey, MAX_ACCOUNT_POSITIONS,
    MAX_LIVE_PROPOSALS, MAX_OPEN_ORACLE_ROUNDS,
};
use bleavit::welfare::math::{EPSILON_PILLAR, ONE};
use bleavit::welfare::types::{
    ComponentValue, Eval, MetricSpec, Pillar, PowerTable, SourceClass, WelfareState, HISTORY_PRIORS,
};

fn spec(id: MetricId, pillar: Pillar, version: u16, activation_epoch: u32) -> MetricSpec {
    MetricSpec {
        id,
        version,
        pillar,
        weight: FixedU64(ONE),
        epsilon_floor: FixedU64(EPSILON_PILLAR),
        activation_epoch,
        source: SourceClass::Onchain,
        formula_ref: [0; 32],
        units: [0; 16],
        repr: [0; 16],
        cadence_blocks: 1,
        sanity_min: FixedU64(0),
        sanity_max: FixedU64(ONE),
        has_normalization_rule: true,
        has_missing_data_rule: true,
        has_gaming_vectors: true,
        has_challenge_procedure: true,
        prior_bounds: [FixedU64(ONE); HISTORY_PRIORS],
    }
}

fn specs(version: u16, activation_epoch: u32) -> Vec<MetricSpec> {
    vec![
        spec(1, Pillar::S, version, activation_epoch),
        spec(2, Pillar::COnchain, version, activation_epoch),
        spec(3, Pillar::P, version, activation_epoch),
        spec(4, Pillar::A, version, activation_epoch),
    ]
}

fn ones() -> Vec<ComponentValue> {
    (1..=4).map(|id| ComponentValue { id, value: FixedU64(ONE) }).collect()
}

fn queued(pid: u64) -> QueuedExecution {
    QueuedExecution {
        pid,
        payload_hash: [pid as u8; 32],
        payload_len: 1,
        class: ProposalClass::Param,
        maturity: 1,
        grace_end: 2,
        version_constraint: RuntimeVersionConstraint { spec_name: b"bleavit".to_vec(), spec_version: 1 },
        meters_declared: Vec::new(),
        ratify_ref: None,
        ratification_passed: false,
        attestation_id: None,
        pre_upgrade_checkpoint: None,
        cancelled: false,
        declared_domains: vec![CallDomain::Param],
    }
}

#[test]
fn welfare_view_picks_greatest_active_version() {
    let mut w = WelfareState::new();
    assert_eq!(current_spec_version(&w, 10), 0);
    w.register_metric_spec(0, 1, specs(1, 3)).unwrap();
    w.register_metric_spec(0, 2, specs(2, 8)).unwrap();
    assert_eq!(current_spec_version(&w, 2), 0);
    assert_eq!(current_spec_version(&w, 5), 1);
    assert_eq!(current_spec_version(&w, 8), 2);
    let t = PowerTable { entries: Vec::new() };
    assert_eq!(w.record_snapshot(5, 1, ones(), FixedU64(ONE), &t), Eval::Done(Ok(FixedU64(ONE))));
    let view = welfare_current(&w, 5, true);
    assert_eq!(view.spec_version, 1);
    assert_eq!(view.w_current_1e9, FixedU64(ONE));
    assert!(view.reserve_flag);
    assert_eq!(welfare_current(&w, 9, false), welfare_sentinel(9, 2, false));
    assert_eq!(runtime_welfare_current(&w, 5, false), welfare_sentinel(5, 0, false));
    let zero = welfare_sentinel(4, 3, true);
    assert_eq!(zero.epoch, 4);
    assert_eq!(zero.spec_version, 3);
    assert_eq!(zero.w_current_1e9, FixedU64(0));
    assert!(zero.reserve_flag);
}

#[test]
fn quote_falls_back_to_sentinels() {
    let q = QuoteView { cost: 5, fee: 1, p_after_1e9: FixedU64(7), max_trade: 100, within_domain: true };
    assert_eq!(quote(None, Some(q)), quote_sentinel(0));
    assert_eq!(quote(Some(100), Some(q)), q);
    assert_eq!(quote(Some(100), None), quote_sentinel(100));
    assert_eq!(quote_sentinel(100).max_trade, 100);
    assert!(!quote_sentinel(100).within_domain);
}

#[test]
fn bounded_lists_are_whole_or_empty() {
    assert_eq!(bound_or_empty(vec![1, 2, 3], 3), vec![1, 2, 3]);
    assert_eq!(bound_or_empty(vec![1, 2, 3], 2), Vec::<i32>::new());
}

#[test]
fn positions_skip_zero_balances_and_stop_at_bound() {
    let entries = vec![(0u128, 'a'), (100u128, 'b'), (0u128, 'c'), (5u128, 'd')];
    assert_eq!(account_positions(entries), vec![(100u128, 'b'), (5u128, 'd')]);
    let many: Vec<(u128, usize)> = (0..MAX_ACCOUNT_POSITIONS + 5).map(|i| (1u128, i)).collect();
    let out = account_positions(many);
    assert_eq!(out.len(), MAX_ACCOUNT_POSITIONS);
    assert_eq!(out[MAX_ACCOUNT_POSITIONS - 1].1, MAX_ACCOUNT_POSITIONS - 1);
    let mut list: Vec<(u128, u8)> = Vec::new();
    assert!(push_position(&mut list, 0, 1));
    assert!(list.is_empty());
    assert!(push_position(&mut list, 3, 1));
    assert_eq!(list, vec![(3, 1)]);
}

#[test]
fn cooldown_in_blocks() {
    assert_eq!(cooldown_blocks(0, None), 0);
    assert_eq!(cooldown_blocks(2, Some(100)), 200);
    assert_eq!(cooldown_blocks(2, None), u32::MAX);
    assert_eq!(cooldown_blocks(u32::MAX, Some(2)), u32::MAX);
}

#[test]
fn parameter_classes_map_to_proposal_classes() {
    assert_eq!(param_class(ParamClass::Param), ProposalClass::Param);
    assert_eq!(param_class(ParamClass::Treasury), ProposalClass::Treasury);
    assert_eq!(param_class(ParamClass::Meta), ProposalClass::Meta);
    assert_eq!(param_class(ParamClass::Const), ProposalClass::Constitutional);
    assert_eq!(param_class(ParamClass::Entrenched), ProposalClass::Constitutional);
    assert_eq!(param_class(ParamClass::MetaAndValues), ProposalClass::Constitutional);
}

#[test]
fn open_rounds_are_sorted_and_bounded() {
    let k = |component, epoch, spec_version| RoundKey { component, epoch, spec_version };
    let rounds = vec![(k(2, 1, 0), 'a'), (k(1, 5, 0), 'b'), (k(1, 2, 3), 'c'), (k(1, 2, 1), 'd')];
    let out = order_open_rounds(rounds);
    let tags: Vec<char> = out.iter().map(|r| r.1).collect();
    assert_eq!(tags, vec!['d', 'c', 'b', 'a']);
    let many: Vec<(RoundKey, u32)> =
        (0..(MAX_OPEN_ORACLE_ROUNDS as u32 + 8)).rev().map(|i| (k(i, 0, 0), i)).collect();
    let out = order_open_rounds(many);
    assert_eq!(out.len(), MAX_OPEN_ORACLE_ROUNDS);
    assert_eq!(out[0].1, 0);
    assert_eq!(out[MAX_OPEN_ORACLE_ROUNDS - 1].1, MAX_OPEN_ORACLE_ROUNDS as u32 - 1);
    assert!(order_open_rounds(Vec::<(RoundKey, u8)>::new()).is_empty());
}

#[test]
fn execution_queue_is_bounded_and_in_queue_order() {
    let vc = RuntimeVersionConstraint { spec_name: b"bleavit".to_vec(), spec_version: 1 };
    let mut g = ExecutionGuard::new(vc);
    assert!(execution_queue(&g).is_empty());
    for pid in 1..=(MAX_LIVE_PROPOSALS as u64) {
        g.enqueue(GuardOrigin::EpochDecision, queued(pid)).unwrap();
    }
    assert!(g.enqueue(GuardOrigin::EpochDecision, queued(99)).is_err());
    let q = execution_queue(&g);
    assert_eq!(q.len(), MAX_LIVE_PROPOSALS);
    assert_eq!(q[0].pid, 1);
    assert_eq!(q[MAX_LIVE_PROPOSALS - 1].pid, MAX_LIVE_PROPOSALS as u64);
}

fn stored(value: u128, max_delta: Option<u128>, class: ParamClass) -> StoredParam {
    StoredParam {
        value,
        min: 1,
        max: 1000,
        max_delta,
        cooldown_epochs: 3,
        last_change_block: 77,
        class,
    }
}

#[test]
fn params_skip_unknown_and_malformed_keys_in_request_order() {
    let a = [1u8; 16];
    let b = [2u8; 16];
    let c = [3u8; 16];
    let entries = vec![
        (b, Some(stored(20, Some(5), ParamClass::Treasury))),
        (c, None),
        (a, Some(stored(10, None, ParamClass::Param))),
        (b, Some(stored(20, Some(5), ParamClass::Treasury))),
    ];
    let views = params(&entries, Some(100));
    assert_eq!(views.len(), 2);
    assert_eq!(views[0].key, b);
    assert_eq!(views[0].value, 20);
    assert_eq!(views[0].max_delta, 5);
    assert_eq!(views[0].cooldown_blocks, 300);
    assert_eq!(views[0].last_change, 77);
    assert_eq!(views[0].class, ProposalClass::Treasury);
    assert_eq!(views[1], views[0]);
    assert_eq!(params(&entries, None)[0].cooldown_blocks, u32::MAX);
}

#[test]
fn nav_adds_both_liquidity_lines() {
    let parts = NavParts {
        total: 1000,
        main: 600,
        proposal_pol: 30,
        baseline_pol: 12,
        insurance: 5,
        keeper: 6,
        oracle: 7,
        rewards: 8,
        stream_remainders: 9,
        obligations: 10,
        haircut_flag: true,
        spendable_nav: 900,
        meter_utilization_bps: 250,
        class_floors: [1, 2, 3, 4],
    };
    let v = nav(parts);
    assert_eq!(v.pol, 42);
    assert_eq!(v.total, 1000);
    assert_eq!(v.insurance, 5);
    assert!(v.haircut_flag);
    assert_eq!(v.class_floors, [1, 2, 3, 4]);
    let saturated = nav(NavParts { proposal_pol: u128::MAX, baseline_pol: 1, ..parts });
    assert_eq!(saturated.pol, u128::MAX);
}

fn round(component: u32, epoch: u32, round: u32) -> OracleRound {
    OracleRound {
        component,
        epoch,
        spec_version: 1,
        round,
        reporter: [component as u8; 32],
        value: FixedU64(500),
        evidence_hash: [0; 32],
        bond: 10,
        challenge_deadline: 99,
        acks: 2,
    }
}

#[test]
fn oracle_rounds_are_sorted_and_marked_escalated() {
    let views = open_oracle_rounds(vec![round(3, 1, 1), round(1, 2, 2), round(1, 1, 1)]);
    let keys: Vec<(u32, u32)> = views.iter().map(|v| (v.component, v.epoch)).collect();
    assert_eq!(keys, vec![(1, 1), (1, 2), (3, 1)]);
    assert!(!views[0].escalated);
    assert!(views[1].escalated);
    assert_eq!(views[1].acked_by_watchtowers, 2);
    assert_eq!(views[1].value_1e9, FixedU64(500));
    let many: Vec<OracleRound> = (0..(MAX_OPEN_ORACLE_ROUNDS as u32 + 1)).map(|i| round(i, 0, 1)).collect();
    assert_eq!(open_oracle_rounds(many).len(), MAX_OPEN_ORACLE_ROUNDS);
}

#[test]
fn vault_state_is_first_matching_vault_or_open() {
    let proposals = vec![(42u64, 'p'), (42u64, 'q'), (7u64, 'r')];
    let baselines = vec![(3u32, 's')];
    assert_eq!(vault_state_for(VaultKey::Proposal(42), &proposals, &baselines, 'o'), 'p');
    assert_eq!(vault_state_for(VaultKey::Proposal(7), &proposals, &baselines, 'o'), 'r');
    assert_eq!(vault_state_for(VaultKey::Proposal(9), &proposals, &baselines, 'o'), 'o');
    assert_eq!(vault_state_for(VaultKey::Baseline(3), &proposals, &baselines, 'o'), 's');
    assert_eq!(vault_state_for(VaultKey::Baseline(42), &proposals, &baselines, 'o'), 'o');
}

#[test]
fn account_positions_assemble_proposals_then_baselines_in_key_order() {
    let proposals: Vec<(u64, char, Vec<(u32, u128)>)> = vec![
        (42, 'x', vec![(1, 100), (2, 0)]),
        (7, 'y', vec![(3, 5)]),
    ];
    let baselines: Vec<(u32, BaselineState<u64>, Vec<(u32, u128)>)> = vec![
        (9, BaselineState::Settled(300), vec![(4, 1)]),
        (2, BaselineState::Open, vec![(5, 2), (6, 0)]),
    ];
    let out = assemble_account_positions(proposals, baselines);
    assert_eq!(
        out,
        vec![
            (5, (3, ShownVaultState::Proposal('y'))),
            (100, (1, ShownVaultState::Proposal('x'))),
            (2, (5, ShownVaultState::Open)),
            (1, (4, ShownVaultState::ScalarSettled { winner: Branch::Accept, s: 300 })),
        ]
    );
    let many: Vec<(u64, char, Vec<(u32, u128)>)> =
        vec![(1, 'z', (0..(MAX_ACCOUNT_POSITIONS as u32 + 3)).map(|p| (p, 1u128)).collect())];
    let out = assemble_account_positions::<u32, char, u64>(many, Vec::new());
    assert_eq!(out.len(), MAX_ACCOUNT_POSITIONS);
}
