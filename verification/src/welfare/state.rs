//! Operations of the welfare pallet.

use vstd::prelude::*;
use crate::primitives::{EpochId, FixedU64, MetricSpecVersion, WelfareView};
use crate::seq_util::{first_match, lemma_first_match};
use super::math::{
    gate, settlement_score, spec_gate, spec_settlement_score, Error, ONE, THETA_C_HI, THETA_C_LO,
    THETA_S_HI, THETA_S_LO,
};
use super::pillars::{compute_pillars, compute_welfare, spec_compute_pillars, spec_compute_welfare};
use super::register::{check_metrics, check_weights, set_check, sort_by_id, sort_specs_by_id};
use super::types::{
    ComponentValue, Eval, Event, GateBreachFlags, MetricSpec, PowerTable, Snapshot, WelfareState,
    MAX_COMPONENTS_PER_SPEC, MAX_METRIC_SPECS, MAX_SNAPSHOTS,
};

verus! {

/// The welfare pallet's state as mathematical values.
#[verifier::ext_equal]
pub struct WelfareModel {
    pub specs: Seq<(MetricSpecVersion, Seq<MetricSpec>)>,
    pub snapshots: Seq<Snapshot>,
    pub gate_flags: Seq<(EpochId, GateBreachFlags)>,
    pub events: Seq<Event>,
}

/// A specification set is active at `epoch`, and admits snapshots of it,
/// once it is non-empty and every metric's activation epoch has arrived.
pub open spec fn set_active(set: Seq<MetricSpec>, epoch: EpochId) -> bool {
    set.len() > 0 && forall|j: int| 0 <= j < set.len() ==> (#[trigger] set[j]).activation_epoch <= epoch
}

/// Whether a set is active at `epoch`.
pub fn is_active(set: &Vec<MetricSpec>, epoch: EpochId) -> (r: bool)
    ensures
        r == set_active(set@, epoch),
{
    if set.len() == 0 {
        return false;
    }
    let n = set.len();
    let mut i: usize = 0;
    while i < n
        invariant
            n == set@.len(),
            i <= n,
            forall|j: int| 0 <= j < i ==> (#[trigger] set@[j]).activation_epoch <= epoch,
        decreases n - i,
    {
        if set[i].activation_epoch > epoch {
            assert(!((set@[i as int]).activation_epoch <= epoch));
            return false;
        }
        i = i + 1;
    }
    true
}

/// Matches the specification set of a version.
pub open spec fn version_is(version: MetricSpecVersion) -> spec_fn(
    (MetricSpecVersion, Seq<MetricSpec>),
) -> bool {
    |e: (MetricSpecVersion, Seq<MetricSpec>)| e.0 == version
}

/// Matches the snapshot of an epoch under a version.
pub open spec fn snapshot_is(epoch: EpochId, version: MetricSpecVersion) -> spec_fn(Snapshot) -> bool {
    |s: Snapshot| s.epoch == epoch && s.spec_version == version
}

/// Matches the breach record of an epoch.
pub open spec fn flags_of(epoch: EpochId) -> spec_fn((EpochId, GateBreachFlags)) -> bool {
    |e: (EpochId, GateBreachFlags)| e.0 == epoch
}

/// Flags of an epoch with no recorded breach.
pub open spec fn no_breach() -> GateBreachFlags {
    GateBreachFlags { s_breached: false, c_breached: false, day_bitmap: [0u32, 0u32] }
}

/// `e + k`, saturated at `u32::MAX`.
pub open spec fn epoch_plus(e: EpochId, k: int) -> EpochId {
    if e + k > u32::MAX {
        u32::MAX
    } else {
        (e + k) as u32
    }
}

/// Flags after a day's observation: the day's bit is set on a breach, and
/// each breach flag accumulates.
pub open spec fn updated_flags(old: GateBreachFlags, day: u8, s_breach: bool, c_breach: bool) -> GateBreachFlags {
    let bitmap = if s_breach || c_breach {
        old.day_bitmap@.update(
            (day / 32) as int,
            old.day_bitmap@[(day / 32) as int] | (1u32 << ((day % 32) as u32)),
        )
    } else {
        old.day_bitmap@
    };
    GateBreachFlags {
        s_breached: old.s_breached || s_breach,
        c_breached: old.c_breached || c_breach,
        day_bitmap: [bitmap[0], bitmap[1]],
    }
}

/// The eight pillar, gate and welfare values of a snapshot are at most one.
pub open spec fn snapshot_in_range(s: Snapshot) -> bool {
    &&& s.s_pillar.0 <= ONE
    &&& s.c_onchain.0 <= ONE
    &&& s.c_attested.0 <= ONE
    &&& s.p_pillar.0 <= ONE
    &&& s.a_pillar.0 <= ONE
    &&& s.gate_s.0 <= ONE
    &&& s.gate_c.0 <= ONE
    &&& s.welfare.0 <= ONE
}

impl WelfareModel {
    /// What the state checks decide.
    pub open spec fn try_state(self) -> Result<(), Error> {
        if !(self.specs.len() <= MAX_METRIC_SPECS && self.snapshots.len() <= MAX_SNAPSHOTS) {
            Err(Error::TryStateViolation)
        } else if exists|i: int|
            0 <= i < self.specs.len() && (#[trigger] self.specs[i]).1.len() > MAX_COMPONENTS_PER_SPEC {
            Err(Error::TryStateViolation)
        } else if exists|i: int|
            0 <= i < self.snapshots.len() && !snapshot_in_range(#[trigger] self.snapshots[i]) {
            Err(Error::TryStateViolation)
        } else {
            Ok(())
        }
    }

    /// Registering a specification set.
    pub open spec fn register_metric_spec(
        self,
        current_epoch: EpochId,
        version: MetricSpecVersion,
        specs: Seq<MetricSpec>,
    ) -> (WelfareModel, Result<(), Error>) {
        if self.specs.len() >= MAX_METRIC_SPECS {
            (self, Err(Error::TooManyMetricSpecs))
        } else if first_match(self.specs, version_is(version)) is Some {
            (self, Err(Error::DuplicateSpecVersion))
        } else if specs.len() == 0 || specs.len() > MAX_COMPONENTS_PER_SPEC {
            (self, Err(Error::TooManyComponents))
        } else {
            match set_check(sort_by_id(specs), version, current_epoch) {
                Err(e) => (self, Err(e)),
                Ok(_) => (
                    WelfareModel {
                        specs: self.specs.push((version, sort_by_id(specs))),
                        events: self.events.push(Event::MetricSpecRegistered { version }),
                        ..self
                    },
                    Ok(()),
                ),
            }
        }
    }

    /// The specification set of a version.
    pub open spec fn spec_set(self, version: MetricSpecVersion) -> Result<Seq<MetricSpec>, Error> {
        match first_match(self.specs, version_is(version)) {
            Some(i) => Ok(self.specs[i].1),
            None => Err(Error::SpecNotFound),
        }
    }

    /// The snapshot of an epoch under a version.
    pub open spec fn snapshot(self, epoch: EpochId, version: MetricSpecVersion) -> Result<Snapshot, Error> {
        match first_match(self.snapshots, snapshot_is(epoch, version)) {
            Some(i) => Ok(self.snapshots[i]),
            None => Err(Error::MissingComponent),
        }
    }

    /// The breach record of an epoch, or an empty one.
    pub open spec fn flags(self, epoch: EpochId) -> GateBreachFlags {
        match first_match(self.gate_flags, flags_of(epoch)) {
            Some(i) => self.gate_flags[i].1,
            None => no_breach(),
        }
    }

    /// Recording the snapshot of an epoch.
    pub open spec fn record_snapshot(
        self,
        epoch: EpochId,
        spec_version: MetricSpecVersion,
        components: Vec<ComponentValue>,
        incident: FixedU64,
        table: PowerTable,
    ) -> (WelfareModel, Eval<Result<FixedU64, Error>>) {
        if self.snapshots.len() >= MAX_SNAPSHOTS {
            (self, Eval::Done(Err(Error::TooManySnapshots)))
        } else if components@.len() > MAX_COMPONENTS_PER_SPEC {
            (self, Eval::Done(Err(Error::TooManyComponents)))
        } else {
            match self.spec_set(spec_version) {
                Err(e) => (self, Eval::Done(Err(e))),
                Ok(specs) => if !set_active(specs, epoch) {
                    (self, Eval::Done(Err(Error::BadActivationEpoch)))
                } else {
                    match spec_compute_pillars(specs, components@, incident, table.entries@) {
                        Eval::NeedsPower { value_1e9, weight_1e9 } => (
                            self,
                            Eval::NeedsPower { value_1e9, weight_1e9 },
                        ),
                        Eval::Done(Err(e)) => (self, Eval::Done(Err(e))),
                        Eval::Done(Ok(p)) => match spec_compute_welfare(
                            p.s,
                            p.c_settlement,
                            p.p,
                            p.a,
                            table.entries@,
                        ) {
                            Eval::NeedsPower { value_1e9, weight_1e9 } => (
                                self,
                                Eval::NeedsPower { value_1e9, weight_1e9 },
                            ),
                            Eval::Done(Err(e)) => (self, Eval::Done(Err(e))),
                            Eval::Done(Ok(welfare)) => (
                                WelfareModel {
                                    snapshots: self.snapshots.push(
                                        Snapshot {
                                            epoch,
                                            spec_version,
                                            s_pillar: p.s,
                                            c_onchain: p.c_onchain,
                                            c_attested: p.c_attested,
                                            p_pillar: p.p,
                                            a_pillar: p.a,
                                            gate_s: FixedU64(
                                                spec_gate(p.s.0, THETA_S_LO, THETA_S_HI)->Ok_0,
                                            ),
                                            gate_c: FixedU64(
                                                spec_gate(p.c_settlement.0, THETA_C_LO, THETA_C_HI)->Ok_0,
                                            ),
                                            welfare,
                                            components,
                                        },
                                    ),
                                    events: self.events.push(
                                        Event::SnapshotRecorded { epoch, spec_version, welfare },
                                    ),
                                    ..self
                                },
                                Eval::Done(Ok(welfare)),
                            ),
                        },
                    }
                },
            }
        }
    }

    /// Recording a day's gate observation.
    pub open spec fn record_daily_gate(
        self,
        epoch: EpochId,
        day: u8,
        spec_version: MetricSpecVersion,
        components: Seq<ComponentValue>,
        table: PowerTable,
    ) -> (WelfareModel, Eval<Result<GateBreachFlags, Error>>) {
        if day >= 64 {
            (self, Eval::Done(Err(Error::ValueOutOfRange)))
        } else {
            match self.spec_set(spec_version) {
                Err(e) => (self, Eval::Done(Err(e))),
                Ok(specs) => match spec_compute_pillars(specs, components, FixedU64(ONE), table.entries@) {
                    Eval::NeedsPower { value_1e9, weight_1e9 } => (
                        self,
                        Eval::NeedsPower { value_1e9, weight_1e9 },
                    ),
                    Eval::Done(Err(e)) => (self, Eval::Done(Err(e))),
                    Eval::Done(Ok(p)) => {
                        let s_breach = p.s.0 < THETA_S_LO;
                        let c_breach = p.c_daily.0 < THETA_C_LO;
                        let flags = updated_flags(self.flags(epoch), day, s_breach, c_breach);
                        (
                            WelfareModel {
                                gate_flags: match first_match(self.gate_flags, flags_of(epoch)) {
                                    Some(i) => self.gate_flags.update(i, (epoch, flags)),
                                    None => self.gate_flags.push((epoch, flags)),
                                },
                                events: self.events.push(
                                    Event::GateBreachRecorded {
                                        epoch,
                                        day,
                                        s_breached: s_breach,
                                        c_breached: c_breach,
                                    },
                                ),
                                ..self
                            },
                            Eval::Done(Ok(flags)),
                        )
                    },
                },
            }
        }
    }

    /// Computing the settlement score of a cohort from the welfare of the two
    /// epochs after it.
    pub open spec fn compute_settlement(self, cohort_epoch: EpochId, spec_version: MetricSpecVersion) -> (
        WelfareModel,
        Result<FixedU64, Error>,
    ) {
        match self.snapshot(epoch_plus(cohort_epoch, 1), spec_version) {
            Err(e) => (self, Err(e)),
            Ok(s1) => match self.snapshot(epoch_plus(cohort_epoch, 2), spec_version) {
                Err(e) => (self, Err(e)),
                Ok(s2) => match spec_settlement_score(s1.welfare.0, s2.welfare.0) {
                    Err(e) => (self, Err(e)),
                    Ok(score) => (
                        WelfareModel {
                            events: self.events.push(
                                Event::SettlementComputed {
                                    epoch: cohort_epoch,
                                    spec_version,
                                    score: FixedU64(score),
                                },
                            ),
                            ..self
                        },
                        Ok(FixedU64(score)),
                    ),
                },
            },
        }
    }

    /// The view of an epoch's welfare.
    pub open spec fn current_view(self, epoch: EpochId, spec_version: MetricSpecVersion, reserve_flag: bool) -> Result<
        WelfareView,
        Error,
    > {
        match self.snapshot(epoch, spec_version) {
            Err(e) => Err(e),
            Ok(s) => Ok(
                WelfareView {
                    epoch,
                    spec_version,
                    s_pillar_1e9: s.s_pillar,
                    c_onchain_1e9: s.c_onchain,
                    c_attested_1e9: s.c_attested,
                    p_pillar_1e9: s.p_pillar,
                    a_pillar_1e9: s.a_pillar,
                    gate_s_1e9: s.gate_s,
                    gate_c_1e9: s.gate_c,
                    w_current_1e9: s.welfare,
                    s_breached: self.flags(epoch).s_breached,
                    c_breached: self.flags(epoch).c_breached,
                    reserve_flag,
                },
            ),
        }
    }
}

impl WelfareState {
    /// The state as mathematical values.
    pub open spec fn model(&self) -> WelfareModel {
        WelfareModel {
            specs: self.specs@.map_values(
                |e: (MetricSpecVersion, Vec<MetricSpec>)| (e.0, e.1@),
            ),
            snapshots: self.snapshots@,
            gate_flags: self.gate_flags@,
            events: self.events@,
        }
    }

    /// An empty welfare state.
    pub fn new() -> (r: WelfareState)
        ensures
            r.model() == (WelfareModel {
                specs: Seq::empty(),
                snapshots: Seq::empty(),
                gate_flags: Seq::empty(),
                events: Seq::empty(),
            }),
    {
        let r = WelfareState {
            specs: Vec::new(),
            snapshots: Vec::new(),
            gate_flags: Vec::new(),
            events: Vec::new(),
        };
        assert(r.model() =~= (WelfareModel {
            specs: Seq::empty(),
            snapshots: Seq::empty(),
            gate_flags: Seq::empty(),
            events: Seq::empty(),
        }));
        r
    }

    /// Position of the specification set of a version.
    fn spec_index(&self, version: MetricSpecVersion) -> (r: Option<usize>)
        ensures
            match r {
                Some(i) => first_match(self.model().specs, version_is(version)) == Some(i as int)
                    && i < self.specs@.len(),
                None => first_match(self.model().specs, version_is(version)) is None,
            },
    {
        let n = self.specs.len();
        let mut i: usize = 0;
        while i < n
            invariant
                n == self.specs@.len(),
                i <= n,
                forall|j: int| 0 <= j < i ==> !version_is(version)(#[trigger] self.model().specs[j]),
            decreases n - i,
        {
            if self.specs[i].0 == version {
                proof {
                    lemma_first_match(self.model().specs, version_is(version), i as int);
                }
                return Some(i);
            }
            i = i + 1;
        }
        proof {
            lemma_first_match(self.model().specs, version_is(version), n as int);
        }
        None
    }

    /// Position of the snapshot of an epoch under a version.
    fn snapshot_index(&self, epoch: EpochId, version: MetricSpecVersion) -> (r: Option<usize>)
        ensures
            match r {
                Some(i) => first_match(self.snapshots@, snapshot_is(epoch, version)) == Some(i as int)
                    && i < self.snapshots@.len(),
                None => first_match(self.snapshots@, snapshot_is(epoch, version)) is None,
            },
    {
        let n = self.snapshots.len();
        let mut i: usize = 0;
        while i < n
            invariant
                n == self.snapshots@.len(),
                i <= n,
                forall|j: int| 0 <= j < i ==> !snapshot_is(epoch, version)(#[trigger] self.snapshots@[j]),
            decreases n - i,
        {
            if self.snapshots[i].epoch == epoch && self.snapshots[i].spec_version == version {
                proof {
                    lemma_first_match(self.snapshots@, snapshot_is(epoch, version), i as int);
                }
                return Some(i);
            }
            i = i + 1;
        }
        proof {
            lemma_first_match(self.snapshots@, snapshot_is(epoch, version), n as int);
        }
        None
    }

    /// Position of the breach record of an epoch.
    fn flags_index(&self, epoch: EpochId) -> (r: Option<usize>)
        ensures
            match r {
                Some(i) => first_match(self.gate_flags@, flags_of(epoch)) == Some(i as int) && i
                    < self.gate_flags@.len(),
                None => first_match(self.gate_flags@, flags_of(epoch)) is None,
            },
    {
        let n = self.gate_flags.len();
        let mut i: usize = 0;
        while i < n
            invariant
                n == self.gate_flags@.len(),
                i <= n,
                forall|j: int| 0 <= j < i ==> !flags_of(epoch)(#[trigger] self.gate_flags@[j]),
            decreases n - i,
        {
            if self.gate_flags[i].0 == epoch {
                proof {
                    lemma_first_match(self.gate_flags@, flags_of(epoch), i as int);
                }
                return Some(i);
            }
            i = i + 1;
        }
        proof {
            lemma_first_match(self.gate_flags@, flags_of(epoch), n as int);
        }
        None
    }

    /// Registers the specification set of a version, ordered by metric id.
    pub fn register_metric_spec(
        &mut self,
        current_epoch: EpochId,
        version: MetricSpecVersion,
        specs: Vec<MetricSpec>,
    ) -> (r: Result<(), Error>)
        ensures
            (final(self).model(), r) == old(self).model().register_metric_spec(
                current_epoch,
                version,
                specs@,
            ),
    {
        if self.specs.len() >= MAX_METRIC_SPECS {
            return Err(Error::TooManyMetricSpecs);
        }
        if self.spec_index(version).is_some() {
            return Err(Error::DuplicateSpecVersion);
        }
        if specs.len() == 0 || specs.len() > MAX_COMPONENTS_PER_SPEC {
            return Err(Error::TooManyComponents);
        }
        let sorted = sort_specs_by_id(&specs);
        match check_metrics(&sorted, version, current_epoch) {
            Err(e) => {
                return Err(e);
            },
            Ok(()) => {},
        }
        match check_weights(&sorted) {
            Err(e) => {
                return Err(e);
            },
            Ok(()) => {},
        }
        let ghost old_model = self.model();
        self.specs.push((version, sorted));
        self.events.push(Event::MetricSpecRegistered { version });
        assert(self.model().specs =~= old_model.specs.push((version, sort_by_id(specs@))));
        Ok(())
    }

    /// Records the snapshot of an epoch under a specification set that is
    /// active at that epoch. When a power that `table` lacks is needed,
    /// nothing changes and the power is named.
    pub fn record_snapshot(
        &mut self,
        epoch: EpochId,
        spec_version: MetricSpecVersion,
        components: Vec<ComponentValue>,
        incident_multiplier: FixedU64,
        table: &PowerTable,
    ) -> (r: Eval<Result<FixedU64, Error>>)
        ensures
            (final(self).model(), r) == old(self).model().record_snapshot(
                epoch,
                spec_version,
                components,
                incident_multiplier,
                *table,
            ),
    {
        if self.snapshots.len() >= MAX_SNAPSHOTS {
            return Eval::Done(Err(Error::TooManySnapshots));
        }
        if components.len() > MAX_COMPONENTS_PER_SPEC {
            return Eval::Done(Err(Error::TooManyComponents));
        }
        let k = match self.spec_index(spec_version) {
            Some(k) => k,
            None => {
                return Eval::Done(Err(Error::SpecNotFound));
            },
        };
        if !is_active(&self.specs[k].1, epoch) {
            return Eval::Done(Err(Error::BadActivationEpoch));
        }
        let pillars = match compute_pillars(&self.specs[k].1, &components, incident_multiplier, table) {
            Eval::Done(Ok(p)) => p,
            Eval::Done(Err(e)) => {
                return Eval::Done(Err(e));
            },
            Eval::NeedsPower { value_1e9, weight_1e9 } => {
                return Eval::NeedsPower { value_1e9, weight_1e9 };
            },
        };
        let welfare = match compute_welfare(
            pillars.s,
            pillars.c_settlement,
            pillars.p,
            pillars.a,
            table,
        ) {
            Eval::Done(Ok(w)) => w,
            Eval::Done(Err(e)) => {
                return Eval::Done(Err(e));
            },
            Eval::NeedsPower { value_1e9, weight_1e9 } => {
                return Eval::NeedsPower { value_1e9, weight_1e9 };
            },
        };
        let gate_s = match gate(pillars.s, FixedU64(THETA_S_LO), FixedU64(THETA_S_HI)) {
            Ok(g) => g,
            Err(e) => {
                return Eval::Done(Err(e));
            },
        };
        let gate_c = match gate(pillars.c_settlement, FixedU64(THETA_C_LO), FixedU64(THETA_C_HI)) {
            Ok(g) => g,
            Err(e) => {
                return Eval::Done(Err(e));
            },
        };
        self.snapshots.push(
            Snapshot {
                epoch,
                spec_version,
                s_pillar: pillars.s,
                c_onchain: pillars.c_onchain,
                c_attested: pillars.c_attested,
                p_pillar: pillars.p,
                a_pillar: pillars.a,
                gate_s,
                gate_c,
                welfare,
                components,
            },
        );
        self.events.push(Event::SnapshotRecorded { epoch, spec_version, welfare });
        Eval::Done(Ok(welfare))
    }

    /// Records a day's gate observation of an epoch. When a power that
    /// `table` lacks is needed, nothing changes and the power is named.
    pub fn record_daily_gate(
        &mut self,
        epoch: EpochId,
        day: u8,
        spec_version: MetricSpecVersion,
        components: Vec<ComponentValue>,
        table: &PowerTable,
    ) -> (r: Eval<Result<GateBreachFlags, Error>>)
        ensures
            (final(self).model(), r) == old(self).model().record_daily_gate(
                epoch,
                day,
                spec_version,
                components@,
                *table,
            ),
    {
        if day >= 64 {
            return Eval::Done(Err(Error::ValueOutOfRange));
        }
        let k = match self.spec_index(spec_version) {
            Some(k) => k,
            None => {
                return Eval::Done(Err(Error::SpecNotFound));
            },
        };
        let pillars = match compute_pillars(&self.specs[k].1, &components, FixedU64(ONE), table) {
            Eval::Done(Ok(p)) => p,
            Eval::Done(Err(e)) => {
                return Eval::Done(Err(e));
            },
            Eval::NeedsPower { value_1e9, weight_1e9 } => {
                return Eval::NeedsPower { value_1e9, weight_1e9 };
            },
        };
        let s_breach = pillars.s.0 < THETA_S_LO;
        let c_breach = pillars.c_daily.0 < THETA_C_LO;
        let idx = self.flags_index(epoch);
        let mut flags = match idx {
            Some(i) => self.gate_flags[i].1,
            None => GateBreachFlags { s_breached: false, c_breached: false, day_bitmap: [0, 0] },
        };
        let ghost before = flags;
        if s_breach || c_breach {
            let w: usize = (day / 32) as usize;
            let bit: u32 = 1u32 << ((day % 32) as u32);
            let cur = flags.day_bitmap[w];
            flags.day_bitmap[w] = cur | bit;
        }
        flags.s_breached = flags.s_breached || s_breach;
        flags.c_breached = flags.c_breached || c_breach;
        assert(flags.day_bitmap =~= updated_flags(before, day, s_breach, c_breach).day_bitmap);
        let ghost old_flags = self.gate_flags@;
        match idx {
            Some(i) => {
                self.gate_flags.set(i, (epoch, flags));
            },
            None => {
                self.gate_flags.push((epoch, flags));
            },
        }
        self.events.push(
            Event::GateBreachRecorded { epoch, day, s_breached: s_breach, c_breached: c_breach },
        );
        Eval::Done(Ok(flags))
    }

    /// Computes and reports the settlement score of a cohort.
    pub fn compute_settlement(&mut self, cohort_epoch: EpochId, spec_version: MetricSpecVersion) -> (r:
        Result<FixedU64, Error>)
        ensures
            (final(self).model(), r) == old(self).model().compute_settlement(cohort_epoch, spec_version),
    {
        let e1 = cohort_epoch.saturating_add(1);
        let e2 = cohort_epoch.saturating_add(2);
        let i1 = match self.snapshot_index(e1, spec_version) {
            Some(i) => i,
            None => {
                return Err(Error::MissingComponent);
            },
        };
        let w1 = self.snapshots[i1].welfare;
        let i2 = match self.snapshot_index(e2, spec_version) {
            Some(i) => i,
            None => {
                return Err(Error::MissingComponent);
            },
        };
        let w2 = self.snapshots[i2].welfare;
        let score = match settlement_score(w1, w2) {
            Ok(s) => s,
            Err(e) => {
                return Err(e);
            },
        };
        self.events.push(Event::SettlementComputed { epoch: cohort_epoch, spec_version, score });
        Ok(score)
    }

    /// The view of an epoch's welfare under a version.
    pub fn current_view(&self, epoch: EpochId, spec_version: MetricSpecVersion, reserve_flag: bool) -> (r:
        Result<WelfareView, Error>)
        ensures
            r == self.model().current_view(epoch, spec_version, reserve_flag),
    {
        let i = match self.snapshot_index(epoch, spec_version) {
            Some(i) => i,
            None => {
                return Err(Error::MissingComponent);
            },
        };
        let s = &self.snapshots[i];
        let flags = match self.flags_index(epoch) {
            Some(j) => self.gate_flags[j].1,
            None => GateBreachFlags { s_breached: false, c_breached: false, day_bitmap: [0, 0] },
        };
        Ok(
            WelfareView {
                epoch,
                spec_version,
                s_pillar_1e9: s.s_pillar,
                c_onchain_1e9: s.c_onchain,
                c_attested_1e9: s.c_attested,
                p_pillar_1e9: s.p_pillar,
                a_pillar_1e9: s.a_pillar,
                gate_s_1e9: s.gate_s,
                gate_c_1e9: s.gate_c,
                w_current_1e9: s.welfare,
                s_breached: flags.s_breached,
                c_breached: flags.c_breached,
                reserve_flag,
            },
        )
    }

    /// Checks the state's bounds: set and snapshot counts, components per
    /// set, and every snapshot value at most one.
    pub fn try_state(&self) -> (r: Result<(), Error>)
        ensures
            r == self.model().try_state(),
    {
        if !(self.specs.len() <= MAX_METRIC_SPECS && self.snapshots.len() <= MAX_SNAPSHOTS) {
            return Err(Error::TryStateViolation);
        }
        let n = self.specs.len();
        let mut i: usize = 0;
        while i < n
            invariant
                n == self.specs@.len(),
                i <= n,
                forall|j: int| 0 <= j < i ==> (#[trigger] self.model().specs[j]).1.len() <= MAX_COMPONENTS_PER_SPEC,
            decreases n - i,
        {
            if self.specs[i].1.len() > MAX_COMPONENTS_PER_SPEC {
                assert(self.model().specs[i as int].1.len() > MAX_COMPONENTS_PER_SPEC);
                return Err(Error::TryStateViolation);
            }
            i = i + 1;
        }
        let m = self.snapshots.len();
        let mut k: usize = 0;
        while k < m
            invariant
                m == self.snapshots@.len(),
                k <= m,
                forall|j: int| 0 <= j < k ==> snapshot_in_range(#[trigger] self.snapshots@[j]),
            decreases m - k,
        {
            let s = &self.snapshots[k];
            if !(s.s_pillar.0 <= ONE && s.c_onchain.0 <= ONE && s.c_attested.0 <= ONE && s.p_pillar.0
                <= ONE && s.a_pillar.0 <= ONE && s.gate_s.0 <= ONE && s.gate_c.0 <= ONE
                && s.welfare.0 <= ONE) {
                assert(!snapshot_in_range(self.snapshots@[k as int]));
                return Err(Error::TryStateViolation);
            }
            k = k + 1;
        }
        Ok(())
    }
}

impl Default for WelfareState {
    /// An empty welfare state.
    fn default() -> (r: WelfareState)
        ensures
            r.model() == (WelfareModel {
                specs: Seq::empty(),
                snapshots: Seq::empty(),
                gate_flags: Seq::empty(),
                events: Seq::empty(),
            }),
    {
        WelfareState::new()
    }
}

/// Benchmark entry point of the welfare pallet.
pub fn benchmark_stub() -> (r: bool)
    ensures
        r,
{
    true
}

} // verus!
