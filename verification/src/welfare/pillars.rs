//! The pillars of a welfare observation and the welfare value: component
//! lookup, weighted geometric means and the gated welfare product.

use vstd::prelude::*;
use crate::primitives::{FixedU64, MetricId};
use super::math::{
    gate, mul_down, spec_gate, spec_mul_down, Error, ONE, THETA_C_HI, THETA_C_LO, THETA_S_HI,
    THETA_S_LO, W_A, W_P,
};
use super::types::{ComponentValue, Eval, MetricSpec, Pillar, Pillars, PowerEntry, PowerTable};

verus! {

/// Scans the components for `id`: its value once found, refusing a second
/// occurrence or a value above one.
pub open spec fn value_scan(comps: Seq<ComponentValue>, id: MetricId, found: Option<FixedU64>) -> Result<
    FixedU64,
    Error,
>
    decreases comps.len(),
{
    if comps.len() == 0 {
        match found {
            Some(v) => Ok(v),
            None => Err(Error::MissingComponent),
        }
    } else if comps[0].id == id {
        if found is Some {
            Err(Error::DuplicateComponent)
        } else if comps[0].value.0 > ONE {
            Err(Error::ValueOutOfRange)
        } else {
            value_scan(comps.drop_first(), id, Some(comps[0].value))
        }
    } else {
        value_scan(comps.drop_first(), id, found)
    }
}

/// The value of component `id`.
pub open spec fn spec_value_for(comps: Seq<ComponentValue>, id: MetricId) -> Result<FixedU64, Error> {
    value_scan(comps, id, None)
}

/// Looks up the value of component `id`, refusing a missing, repeated or
/// out-of-range component.
pub fn value_for(id: MetricId, components: &Vec<ComponentValue>) -> (r: Result<FixedU64, Error>)
    ensures
        r == spec_value_for(components@, id),
{
    let n = components.len();
    let mut found: Option<FixedU64> = None;
    let mut i: usize = 0;
    assert(components@.subrange(0, n as int) =~= components@);
    while i < n
        invariant
            n == components@.len(),
            i <= n,
            spec_value_for(components@, id) == value_scan(
                components@.subrange(i as int, n as int),
                id,
                found,
            ),
        decreases n - i,
    {
        let ghost rest = components@.subrange(i as int, n as int);
        assert(rest[0] == components@[i as int]);
        assert(rest.drop_first() =~= components@.subrange(i + 1, n as int));
        let c = components[i];
        if c.id == id {
            if found.is_some() {
                return Err(Error::DuplicateComponent);
            }
            if c.value.0 > ONE {
                return Err(Error::ValueOutOfRange);
            }
            found = Some(c.value);
        }
        i = i + 1;
    }
    match found {
        Some(v) => Ok(v),
        None => Err(Error::MissingComponent),
    }
}

/// The first table entry for `(value, weight)`, if any.
pub open spec fn power_lookup(entries: Seq<PowerEntry>, value: u64, weight: u64) -> Option<
    Option<u64>,
>
    decreases entries.len(),
{
    if entries.len() == 0 {
        None
    } else if entries[0].value_1e9 == value && entries[0].weight_1e9 == weight {
        Some(entries[0].result)
    } else {
        power_lookup(entries.drop_first(), value, weight)
    }
}

/// `value^weight` for nine-decimal numbers: one for a zero weight or a value
/// of at least one, zero for a zero value, and otherwise the tabled power.
pub open spec fn spec_pow_unit(value: u64, weight: u64, table: Seq<PowerEntry>) -> Eval<
    Result<FixedU64, Error>,
> {
    if weight == 0 || value >= ONE {
        Eval::Done(Ok(FixedU64(ONE)))
    } else if value == 0 {
        Eval::Done(Ok(FixedU64(0)))
    } else {
        match power_lookup(table, value, weight) {
            None => Eval::NeedsPower { value_1e9: value, weight_1e9: weight },
            Some(Some(x)) => Eval::Done(Ok(FixedU64(x))),
            Some(None) => Eval::Done(Err(Error::ArithmeticOverflow)),
        }
    }
}

/// Raises a nine-decimal value to a nine-decimal weight.
pub fn pow_unit(value_1e9: u64, weight_1e9: u64, table: &PowerTable) -> (r: Eval<
    Result<FixedU64, Error>,
>)
    ensures
        r == spec_pow_unit(value_1e9, weight_1e9, table.entries@),
{
    if weight_1e9 == 0 || value_1e9 >= ONE {
        return Eval::Done(Ok(FixedU64(ONE)));
    }
    if value_1e9 == 0 {
        return Eval::Done(Ok(FixedU64(0)));
    }
    let n = table.entries.len();
    let mut i: usize = 0;
    assert(table.entries@.subrange(0, n as int) =~= table.entries@);
    while i < n
        invariant
            n == table.entries@.len(),
            i <= n,
            weight_1e9 != 0,
            0 < value_1e9 < ONE,
            power_lookup(table.entries@, value_1e9, weight_1e9) == power_lookup(
                table.entries@.subrange(i as int, n as int),
                value_1e9,
                weight_1e9,
            ),
        decreases n - i,
    {
        let ghost rest = table.entries@.subrange(i as int, n as int);
        assert(rest[0] == table.entries@[i as int]);
        assert(rest.drop_first() =~= table.entries@.subrange(i + 1, n as int));
        let e = table.entries[i];
        if e.value_1e9 == value_1e9 && e.weight_1e9 == weight_1e9 {
            return match e.result {
                Some(x) => Eval::Done(Ok(FixedU64(x))),
                None => Eval::Done(Err(Error::ArithmeticOverflow)),
            };
        }
        i = i + 1;
    }
    Eval::NeedsPower { value_1e9, weight_1e9 }
}

/// Folds `out * (max(v, epsilon) ^ weight)` over the metrics of `pillar`, in
/// order, rounding each product down.
pub open spec fn geo_scan(
    specs: Seq<MetricSpec>,
    comps: Seq<ComponentValue>,
    pillar: Pillar,
    out: FixedU64,
    table: Seq<PowerEntry>,
) -> Eval<Result<FixedU64, Error>>
    decreases specs.len(),
{
    if specs.len() == 0 {
        Eval::Done(Ok(out))
    } else if specs[0].pillar != pillar {
        geo_scan(specs.drop_first(), comps, pillar, out, table)
    } else {
        match spec_value_for(comps, specs[0].id) {
            Err(e) => Eval::Done(Err(e)),
            Ok(v) => {
                let base = if v.0 > specs[0].epsilon_floor.0 {
                    v.0
                } else {
                    specs[0].epsilon_floor.0
                };
                match spec_pow_unit(base, specs[0].weight.0, table) {
                    Eval::NeedsPower { value_1e9, weight_1e9 } => Eval::NeedsPower {
                        value_1e9,
                        weight_1e9,
                    },
                    Eval::Done(Err(e)) => Eval::Done(Err(e)),
                    Eval::Done(Ok(p)) => geo_scan(
                        specs.drop_first(),
                        comps,
                        pillar,
                        FixedU64(spec_mul_down(out.0, p.0)),
                        table,
                    ),
                }
            },
        }
    }
}

/// Weighted geometric mean of the components of a pillar.
pub open spec fn spec_weighted_geo(
    specs: Seq<MetricSpec>,
    comps: Seq<ComponentValue>,
    pillar: Pillar,
    table: Seq<PowerEntry>,
) -> Eval<Result<FixedU64, Error>> {
    geo_scan(specs, comps, pillar, FixedU64(ONE), table)
}

/// Computes the weighted geometric mean of the components of a pillar. An
/// empty pillar yields one whether or not `empty_one` is set.
pub fn weighted_geo(
    specs: &Vec<MetricSpec>,
    components: &Vec<ComponentValue>,
    pillar: Pillar,
    empty_one: bool,
    table: &PowerTable,
) -> (r: Eval<Result<FixedU64, Error>>)
    ensures
        r == spec_weighted_geo(specs@, components@, pillar, table.entries@),
{
    let mut out = FixedU64(ONE);
    let mut found = false;
    let n = specs.len();
    let mut i: usize = 0;
    assert(specs@.subrange(0, n as int) =~= specs@);
    while i < n
        invariant
            n == specs@.len(),
            i <= n,
            spec_weighted_geo(specs@, components@, pillar, table.entries@) == geo_scan(
                specs@.subrange(i as int, n as int),
                components@,
                pillar,
                out,
                table.entries@,
            ),
            !found ==> out == FixedU64(ONE),
        decreases n - i,
    {
        let ghost rest = specs@.subrange(i as int, n as int);
        assert(rest[0] == specs@[i as int]);
        assert(rest.drop_first() =~= specs@.subrange(i + 1, n as int));
        let m = specs[i];
        if m.pillar == pillar {
            found = true;
            let v = match value_for(m.id, components) {
                Ok(v) => v,
                Err(e) => {
                    return Eval::Done(Err(e));
                },
            };
            let base = if v.0 > m.epsilon_floor.0 {
                v.0
            } else {
                m.epsilon_floor.0
            };
            let p = match pow_unit(base, m.weight.0, table) {
                Eval::Done(Ok(p)) => p,
                Eval::Done(Err(e)) => {
                    return Eval::Done(Err(e));
                },
                Eval::NeedsPower { value_1e9, weight_1e9 } => {
                    return Eval::NeedsPower { value_1e9, weight_1e9 };
                },
            };
            out = match mul_down(out, p) {
                Ok(x) => x,
                Err(e) => {
                    return Eval::Done(Err(e));
                },
            };
        }
        i = i + 1;
    }
    if found || empty_one {
        Eval::Done(Ok(out))
    } else {
        Eval::Done(Ok(FixedU64(ONE)))
    }
}

/// Minimum of `acc` and the components of the security pillar, in order.
pub open spec fn s_scan(specs: Seq<MetricSpec>, comps: Seq<ComponentValue>, acc: FixedU64) -> Result<
    FixedU64,
    Error,
>
    decreases specs.len(),
{
    if specs.len() == 0 {
        Ok(acc)
    } else if specs[0].pillar != Pillar::S {
        s_scan(specs.drop_first(), comps, acc)
    } else {
        match spec_value_for(comps, specs[0].id) {
            Err(e) => Err(e),
            Ok(v) => s_scan(
                specs.drop_first(),
                comps,
                if acc.0 < v.0 {
                    acc
                } else {
                    FixedU64(v.0)
                },
            ),
        }
    }
}

/// The security pillar: the least of its components, and one when it has none.
pub fn security_pillar(specs: &Vec<MetricSpec>, components: &Vec<ComponentValue>) -> (r: Result<
    FixedU64,
    Error,
>)
    ensures
        r == s_scan(specs@, components@, FixedU64(ONE)),
{
    let mut acc = FixedU64(ONE);
    let n = specs.len();
    let mut i: usize = 0;
    assert(specs@.subrange(0, n as int) =~= specs@);
    while i < n
        invariant
            n == specs@.len(),
            i <= n,
            s_scan(specs@, components@, FixedU64(ONE)) == s_scan(
                specs@.subrange(i as int, n as int),
                components@,
                acc,
            ),
        decreases n - i,
    {
        let ghost rest = specs@.subrange(i as int, n as int);
        assert(rest[0] == specs@[i as int]);
        assert(rest.drop_first() =~= specs@.subrange(i + 1, n as int));
        let m = specs[i];
        if m.pillar == Pillar::S {
            let v = match value_for(m.id, components) {
                Ok(v) => v,
                Err(e) => {
                    return Err(e);
                },
            };
            acc = if acc.0 < v.0 {
                acc
            } else {
                FixedU64(v.0)
            };
        }
        i = i + 1;
    }
    Ok(acc)
}

/// The pillars of an observation: the security minimum, the on-chain and
/// attested compliance means (the attested one scaled by the incident
/// multiplier, the settlement compliance their product), and the
/// prosperity and adoption means.
pub open spec fn spec_compute_pillars(
    specs: Seq<MetricSpec>,
    comps: Seq<ComponentValue>,
    incident: FixedU64,
    table: Seq<PowerEntry>,
) -> Eval<Result<Pillars, Error>> {
    match s_scan(specs, comps, FixedU64(ONE)) {
        Err(e) => Eval::Done(Err(e)),
        Ok(s) => match spec_weighted_geo(specs, comps, Pillar::COnchain, table) {
            Eval::NeedsPower { value_1e9, weight_1e9 } => Eval::NeedsPower { value_1e9, weight_1e9 },
            Eval::Done(Err(e)) => Eval::Done(Err(e)),
            Eval::Done(Ok(c_onchain)) => match spec_weighted_geo(
                specs,
                comps,
                Pillar::CAttested,
                table,
            ) {
                Eval::NeedsPower { value_1e9, weight_1e9 } => Eval::NeedsPower {
                    value_1e9,
                    weight_1e9,
                },
                Eval::Done(Err(e)) => Eval::Done(Err(e)),
                Eval::Done(Ok(c_geo)) => match spec_weighted_geo(specs, comps, Pillar::P, table) {
                    Eval::NeedsPower { value_1e9, weight_1e9 } => Eval::NeedsPower {
                        value_1e9,
                        weight_1e9,
                    },
                    Eval::Done(Err(e)) => Eval::Done(Err(e)),
                    Eval::Done(Ok(p)) => match spec_weighted_geo(specs, comps, Pillar::A, table) {
                        Eval::NeedsPower { value_1e9, weight_1e9 } => Eval::NeedsPower {
                            value_1e9,
                            weight_1e9,
                        },
                        Eval::Done(Err(e)) => Eval::Done(Err(e)),
                        Eval::Done(Ok(a)) => {
                            let c_attested = FixedU64(spec_mul_down(incident.0, c_geo.0));
                            Eval::Done(
                                Ok(
                                    Pillars {
                                        s,
                                        c_onchain,
                                        c_attested,
                                        c_daily: c_onchain,
                                        c_settlement: FixedU64(
                                            spec_mul_down(c_onchain.0, c_attested.0),
                                        ),
                                        p,
                                        a,
                                    },
                                ),
                            )
                        },
                    },
                },
            },
        },
    }
}

/// Computes the pillars of an observation.
pub fn compute_pillars(
    specs: &Vec<MetricSpec>,
    components: &Vec<ComponentValue>,
    incident: FixedU64,
    table: &PowerTable,
) -> (r: Eval<Result<Pillars, Error>>)
    ensures
        r == spec_compute_pillars(specs@, components@, incident, table.entries@),
{
    let s = match security_pillar(specs, components) {
        Ok(s) => s,
        Err(e) => {
            return Eval::Done(Err(e));
        },
    };
    let c_onchain = match weighted_geo(specs, components, Pillar::COnchain, true, table) {
        Eval::Done(Ok(x)) => x,
        Eval::Done(Err(e)) => {
            return Eval::Done(Err(e));
        },
        Eval::NeedsPower { value_1e9, weight_1e9 } => {
            return Eval::NeedsPower { value_1e9, weight_1e9 };
        },
    };
    let c_daily = c_onchain;
    let c_geo = match weighted_geo(specs, components, Pillar::CAttested, false, table) {
        Eval::Done(Ok(x)) => x,
        Eval::Done(Err(e)) => {
            return Eval::Done(Err(e));
        },
        Eval::NeedsPower { value_1e9, weight_1e9 } => {
            return Eval::NeedsPower { value_1e9, weight_1e9 };
        },
    };
    let c_attested = match mul_down(incident, c_geo) {
        Ok(x) => x,
        Err(e) => {
            return Eval::Done(Err(e));
        },
    };
    let c_settlement = match mul_down(c_onchain, c_attested) {
        Ok(x) => x,
        Err(e) => {
            return Eval::Done(Err(e));
        },
    };
    let p = match weighted_geo(specs, components, Pillar::P, true, table) {
        Eval::Done(Ok(x)) => x,
        Eval::Done(Err(e)) => {
            return Eval::Done(Err(e));
        },
        Eval::NeedsPower { value_1e9, weight_1e9 } => {
            return Eval::NeedsPower { value_1e9, weight_1e9 };
        },
    };
    let a = match weighted_geo(specs, components, Pillar::A, true, table) {
        Eval::Done(Ok(x)) => x,
        Eval::Done(Err(e)) => {
            return Eval::Done(Err(e));
        },
        Eval::NeedsPower { value_1e9, weight_1e9 } => {
            return Eval::NeedsPower { value_1e9, weight_1e9 };
        },
    };
    Eval::Done(Ok(Pillars { s, c_onchain, c_attested, c_daily, c_settlement, p, a }))
}

/// Welfare from its pillars: the security and compliance gates times the
/// prosperity and adoption pillars raised to their weights.
pub open spec fn spec_compute_welfare(
    s: FixedU64,
    c: FixedU64,
    p: FixedU64,
    a: FixedU64,
    table: Seq<PowerEntry>,
) -> Eval<Result<FixedU64, Error>> {
    match spec_gate(s.0, THETA_S_LO, THETA_S_HI) {
        Err(e) => Eval::Done(Err(e)),
        Ok(gs) => match spec_gate(c.0, THETA_C_LO, THETA_C_HI) {
            Err(e) => Eval::Done(Err(e)),
            Ok(gc) => match spec_pow_unit(p.0, W_P, table) {
                Eval::NeedsPower { value_1e9, weight_1e9 } => Eval::NeedsPower {
                    value_1e9,
                    weight_1e9,
                },
                Eval::Done(Err(e)) => Eval::Done(Err(e)),
                Eval::Done(Ok(pp)) => match spec_pow_unit(a.0, W_A, table) {
                    Eval::NeedsPower { value_1e9, weight_1e9 } => Eval::NeedsPower {
                        value_1e9,
                        weight_1e9,
                    },
                    Eval::Done(Err(e)) => Eval::Done(Err(e)),
                    Eval::Done(Ok(pa)) => Eval::Done(
                        Ok(FixedU64(spec_mul_down(spec_mul_down(gs, gc), spec_mul_down(pp.0, pa.0)))),
                    ),
                },
            },
        },
    }
}

/// Computes the welfare value from its pillars.
pub fn compute_welfare(s: FixedU64, c: FixedU64, p: FixedU64, a: FixedU64, table: &PowerTable) -> (r:
    Eval<Result<FixedU64, Error>>)
    ensures
        r == spec_compute_welfare(s, c, p, a, table.entries@),
{
    let gs = match gate(s, FixedU64(THETA_S_LO), FixedU64(THETA_S_HI)) {
        Ok(x) => x,
        Err(e) => {
            return Eval::Done(Err(e));
        },
    };
    let gc = match gate(c, FixedU64(THETA_C_LO), FixedU64(THETA_C_HI)) {
        Ok(x) => x,
        Err(e) => {
            return Eval::Done(Err(e));
        },
    };
    let pp = match pow_unit(p.0, W_P, table) {
        Eval::Done(Ok(x)) => x,
        Eval::Done(Err(e)) => {
            return Eval::Done(Err(e));
        },
        Eval::NeedsPower { value_1e9, weight_1e9 } => {
            return Eval::NeedsPower { value_1e9, weight_1e9 };
        },
    };
    let pa = match pow_unit(a.0, W_A, table) {
        Eval::Done(Ok(x)) => x,
        Eval::Done(Err(e)) => {
            return Eval::Done(Err(e));
        },
        Eval::NeedsPower { value_1e9, weight_1e9 } => {
            return Eval::NeedsPower { value_1e9, weight_1e9 };
        },
    };
    let prod = match mul_down(pp, pa) {
        Ok(x) => x,
        Err(e) => {
            return Eval::Done(Err(e));
        },
    };
    let g = match mul_down(gs, gc) {
        Ok(x) => x,
        Err(e) => {
            return Eval::Done(Err(e));
        },
    };
    match mul_down(g, prod) {
        Ok(x) => Eval::Done(Ok(x)),
        Err(e) => Eval::Done(Err(e)),
    }
}

} // verus!
