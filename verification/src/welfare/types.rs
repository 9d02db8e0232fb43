//! Data of the welfare pallet.

use vstd::prelude::*;
use crate::primitives::{EpochId, FixedU64, MetricId, MetricSpecVersion};

verus! {

/// Most metric specification sets that can be registered.
pub const MAX_METRIC_SPECS: usize = 16;
/// Most snapshots kept.
pub const MAX_SNAPSHOTS: usize = 20;
/// Most components of one specification set or snapshot.
pub const MAX_COMPONENTS_PER_SPEC: usize = 16;
/// Number of historical prior bounds of a metric.
pub const HISTORY_PRIORS: usize = 12;

/// Welfare pillar that a metric feeds.
#[derive(Clone, Copy, Debug, PartialEq, Eq, PartialOrd, Ord, Structural)]
pub enum Pillar {
    S,
    COnchain,
    CAttested,
    P,
    A,
}

/// Where a metric's value comes from.
#[derive(Clone, Copy, Debug, PartialEq, Eq, Structural)]
pub enum SourceClass {
    Onchain,
    RelayDerived,
    Attested,
}

/// Specification of one welfare metric component.
#[derive(Clone, Copy, Debug, PartialEq, Eq)]
pub struct MetricSpec {
    pub id: MetricId,
    pub version: MetricSpecVersion,
    pub pillar: Pillar,
    pub weight: FixedU64,
    pub epsilon_floor: FixedU64,
    pub activation_epoch: EpochId,
    pub source: SourceClass,
    pub formula_ref: [u8; 32],
    pub units: [u8; 16],
    pub repr: [u8; 16],
    pub cadence_blocks: u32,
    pub sanity_min: FixedU64,
    pub sanity_max: FixedU64,
    pub has_normalization_rule: bool,
    pub has_missing_data_rule: bool,
    pub has_gaming_vectors: bool,
    pub has_challenge_procedure: bool,
    pub prior_bounds: [FixedU64; 12],
}

/// Observed value of a metric component.
#[derive(Clone, Copy, Debug, PartialEq, Eq, Structural)]
pub struct ComponentValue {
    pub id: MetricId,
    pub value: FixedU64,
}

/// Welfare snapshot of an epoch under one specification version.
#[derive(Clone, Debug, PartialEq, Eq)]
pub struct Snapshot {
    pub epoch: EpochId,
    pub spec_version: MetricSpecVersion,
    pub s_pillar: FixedU64,
    pub c_onchain: FixedU64,
    pub c_attested: FixedU64,
    pub p_pillar: FixedU64,
    pub a_pillar: FixedU64,
    pub gate_s: FixedU64,
    pub gate_c: FixedU64,
    pub welfare: FixedU64,
    pub components: Vec<ComponentValue>,
}

/// Daily gate breaches of an epoch: whether each gate was breached on some
/// day, and a bitmap of the days with a breach.
#[derive(Clone, Copy, Debug, PartialEq, Eq)]
pub struct GateBreachFlags {
    pub s_breached: bool,
    pub c_breached: bool,
    pub day_bitmap: [u32; 2],
}

/// What the welfare pallet reports.
#[derive(Clone, Copy, Debug, PartialEq, Eq)]
pub enum Event {
    MetricSpecRegistered { version: MetricSpecVersion },
    SnapshotRecorded { epoch: EpochId, spec_version: MetricSpecVersion, welfare: FixedU64 },
    GateBreachRecorded { epoch: EpochId, day: u8, s_breached: bool, c_breached: bool },
    SettlementComputed { epoch: EpochId, spec_version: MetricSpecVersion, score: FixedU64 },
}

/// The welfare pallet's state.
#[derive(Clone, Debug, PartialEq, Eq)]
pub struct WelfareState {
    pub specs: Vec<(MetricSpecVersion, Vec<MetricSpec>)>,
    pub snapshots: Vec<Snapshot>,
    pub gate_flags: Vec<(EpochId, GateBreachFlags)>,
    pub events: Vec<Event>,
}

/// One power `x^w` of a nine-decimal base `0 < x < 1` and weight `0 < w`, as
/// the fixed-point library computes it (`1 / 2^(w log2(1/x))`, rounded down
/// to nine decimals), or `None` where that library overflows.
#[derive(Clone, Copy, Debug, PartialEq, Eq, Structural)]
pub struct PowerEntry {
    pub value_1e9: u64,
    pub weight_1e9: u64,
    pub result: Option<u64>,
}

/// Powers known to a welfare computation.
#[derive(Clone, Debug, PartialEq, Eq)]
pub struct PowerTable {
    pub entries: Vec<PowerEntry>,
}

/// Result of a computation that may need a power that its table lacks.
#[derive(Clone, Copy, Debug, PartialEq, Eq)]
pub enum Eval<T> {
    Done(T),
    NeedsPower { value_1e9: u64, weight_1e9: u64 },
}

/// The five pillars of a welfare observation.
#[derive(Clone, Copy, Debug, PartialEq, Eq, Structural)]
pub struct Pillars {
    pub s: FixedU64,
    pub c_onchain: FixedU64,
    pub c_attested: FixedU64,
    pub c_daily: FixedU64,
    pub c_settlement: FixedU64,
    pub p: FixedU64,
    pub a: FixedU64,
}

} // verus!
