//! Fixed-point arithmetic of the welfare metric: the smooth gate, rounding
//! multiplication, conversions to and from 64.64 fixed point, the integer
//! square root and the settlement score.

use vstd::prelude::*;
use crate::primitives::FixedU64;

verus! {

/// One, with nine decimal places.
pub const ONE: u64 = 1_000_000_000;
/// Floor of a welfare value in the settlement score.
pub const EPSILON: u64 = 1;
/// Floor of a pillar component value.
pub const EPSILON_PILLAR: u64 = 10_000_000;
/// Lower threshold of the security gate.
pub const THETA_S_LO: u64 = 900_000_000;
/// Upper threshold of the security gate.
pub const THETA_S_HI: u64 = 980_000_000;
/// Lower threshold of the compliance gate.
pub const THETA_C_LO: u64 = 850_000_000;
/// Upper threshold of the compliance gate.
pub const THETA_C_HI: u64 = 950_000_000;
/// Weight of the prosperity pillar in the welfare product.
pub const W_P: u64 = 600_000_000;
/// Weight of the adoption pillar in the welfare product.
pub const W_A: u64 = 400_000_000;

/// `2^64`, one in 64.64 fixed point.
pub open spec fn q64_one() -> int {
    0x1_0000_0000_0000_0000
}

/// Unsigned 64.64 fixed-point number, held by its raw 128-bit representation.
#[derive(Clone, Copy, Debug, PartialEq, Eq, Structural)]
pub struct FixedU64x64(pub u128);

impl FixedU64x64 {
    /// The raw representation.
    pub fn raw(self) -> (r: u128)
        ensures
            r == self.0,
    {
        self.0
    }

    /// The number with the given raw representation.
    pub fn from_raw(raw: u128) -> (r: FixedU64x64)
        ensures
            r.0 == raw,
    {
        FixedU64x64(raw)
    }
}

/// Why a welfare computation is refused.
#[derive(Clone, Copy, Debug, PartialEq, Eq, Structural)]
pub enum Error {
    BadOrigin,
    TooManyMetricSpecs,
    TooManySnapshots,
    TooManyComponents,
    DuplicateSpecVersion,
    SpecNotFound,
    BadActivationEpoch,
    MissingMetricDiscipline,
    BadWeightSum,
    ValueOutOfRange,
    MissingComponent,
    DuplicateComponent,
    ArithmeticOverflow,
    TryStateViolation,
}

/// Product of two nine-decimal numbers, rounded down and truncated to 64 bits.
pub open spec fn spec_mul_down(a: u64, b: u64) -> u64 {
    ((a * b) / (ONE as int)) as u64
}

/// Multiplies two nine-decimal numbers, rounding down.
pub fn mul_down(a: FixedU64, b: FixedU64) -> (r: Result<FixedU64, Error>)
    ensures
        r == Ok::<FixedU64, Error>(FixedU64(spec_mul_down(a.0, b.0))),
{
    assert((a.0 as int) * (b.0 as int) <= u128::MAX) by (nonlinear_arith)
        requires
            a.0 <= u64::MAX,
            b.0 <= u64::MAX,
    ;
    let p: u128 = (a.0 as u128) * (b.0 as u128);
    let q: u128 = p / (ONE as u128);
    Ok(FixedU64(#[verifier::truncate] (q as u64)))
}

/// Nine-decimal number to 64.64 fixed point, rounding down.
pub open spec fn spec_q64_from_1e9(v: u64) -> u128 {
    ((v * q64_one()) / (ONE as int)) as u128
}

/// Converts a nine-decimal number to 64.64 fixed point, rounding down.
pub fn q64_from_1e9(v: u64) -> (r: Result<FixedU64x64, Error>)
    ensures
        r == Ok::<FixedU64x64, Error>(FixedU64x64(spec_q64_from_1e9(v))),
{
    let shifted: u128 = (v as u128) << 64u32;
    assert(shifted == v * q64_one()) by (bit_vector)
        requires
            shifted == (v as u128) << 64u32,
    ;
    let r: u128 = shifted / (ONE as u128);
    Ok(FixedU64x64::from_raw(r))
}

/// 64.64 fixed point to a nine-decimal number, rounding down.
pub open spec fn spec_q64_to_1e9_down(raw: u128) -> u64 {
    ((raw * ONE) / q64_one()) as u64
}

/// Converts a 64.64 fixed-point number to nine decimals, rounding down.
pub fn q64_to_1e9_down(v: FixedU64x64) -> (r: Result<FixedU64, Error>)
    requires
        v.0 * ONE <= u128::MAX,
    ensures
        r == Ok::<FixedU64, Error>(FixedU64(spec_q64_to_1e9_down(v.0))),
{
    let m: u128 = v.raw() * (ONE as u128);
    let s: u128 = m >> 64u32;
    assert(s == m / 0x1_0000_0000_0000_0000u128) by (bit_vector)
        requires
            s == m >> 64u32,
    ;
    Ok(FixedU64(s as u64))
}

/// The smooth gate: zero at or below `lo`, one at or above `hi`, and the
/// smoothstep `t^2 (3 - 2t)` of `t = (x - lo) / (hi - lo)` between, each step
/// rounded down.
pub open spec fn spec_gate(x: u64, lo: u64, hi: u64) -> Result<u64, Error> {
    if !(lo < hi && hi <= ONE && x <= ONE) {
        Err(Error::ValueOutOfRange)
    } else if x <= lo {
        Ok(0)
    } else if x >= hi {
        Ok(ONE)
    } else {
        let t = (x - lo) * ONE / ((hi - lo) as int);
        let t2 = t * t / (ONE as int);
        let three_minus_2t = 3 * ONE - 2 * t;
        Ok((t2 * three_minus_2t / (ONE as int)) as u64)
    }
}

pub proof fn lemma_gate_bounds(x: u64, lo: u64, hi: u64)
    requires
        lo < hi <= ONE,
        lo < x < hi,
    ensures
        0 <= (x - lo) * ONE / ((hi - lo) as int) < ONE,
        ({
            let t = (x - lo) * ONE / ((hi - lo) as int);
            let t2 = t * t / (ONE as int);
            &&& 0 <= t2 <= t
            &&& 0 <= t2 * (3 * ONE - 2 * t) / (ONE as int) <= ONE
        }),
{
    let d = (hi - lo) as int;
    let n = (x - lo) as int;
    assert(0 < n < d);
    assert(0 <= n * ONE / d < ONE) by (nonlinear_arith)
        requires
            0 < n < d,
    ;
    let t = n * ONE / d;
    assert(0 <= t * t / (ONE as int) <= t) by (nonlinear_arith)
        requires
            0 <= t < ONE,
    ;
    let t2 = t * t / (ONE as int);
    assert(t2 * ONE <= t * t) by (nonlinear_arith)
        requires
            t2 == t * t / (ONE as int),
            t >= 0,
    ;
    assert(t2 * (3 * ONE - 2 * t) <= ONE * ONE) by (nonlinear_arith)
        requires
            t2 * ONE <= t * t,
            0 <= t < ONE,
            0 <= t2,
    ;
    assert(0 <= t2 * (3 * ONE - 2 * t) / (ONE as int) <= ONE) by (nonlinear_arith)
        requires
            0 <= t2 * (3 * ONE - 2 * t) <= ONE * ONE,
    ;
}

/// Evaluates the smooth gate of `x` between `lo` and `hi`.
pub fn gate(x: FixedU64, lo: FixedU64, hi: FixedU64) -> (r: Result<FixedU64, Error>)
    ensures
        match spec_gate(x.0, lo.0, hi.0) {
            Ok(v) => r == Ok::<FixedU64, Error>(FixedU64(v)),
            Err(e) => r == Err::<FixedU64, Error>(e),
        },
{
    if !(lo.0 < hi.0 && hi.0 <= ONE && x.0 <= ONE) {
        return Err(Error::ValueOutOfRange);
    }
    if x.0 <= lo.0 {
        return Ok(FixedU64(0));
    }
    if x.0 >= hi.0 {
        return Ok(FixedU64(ONE));
    }
    proof {
        lemma_gate_bounds(x.0, lo.0, hi.0);
    }
    let t: u64 = (((x.0 - lo.0) as u128) * (ONE as u128) / ((hi.0 - lo.0) as u128)) as u64;
    let t2: u64 = ((t as u128) * (t as u128) / (ONE as u128)) as u64;
    let three_minus_2t: u64 = 3 * ONE - 2 * t;
    proof {
        assert((t2 as int) * (three_minus_2t as int) <= 3 * ONE * ONE) by (nonlinear_arith)
            requires
                0 <= t2 <= ONE,
                0 <= three_minus_2t <= 3 * ONE,
        ;
    }
    let v: u64 = ((t2 as u128) * (three_minus_2t as u128) / (ONE as u128)) as u64;
    Ok(FixedU64(v))
}

/// The square of `m`, saturated at `u128::MAX`.
pub open spec fn sat_sq(m: int) -> int {
    if m * m > u128::MAX {
        u128::MAX as int
    } else {
        m * m
    }
}

/// The saturated square grows with its argument.
pub proof fn lemma_sat_sq_monotone(a: int, b: int)
    requires
        0 <= a <= b,
    ensures
        sat_sq(a) <= sat_sq(b),
{
    assert(a * a <= b * b) by (nonlinear_arith)
        requires
            0 <= a <= b,
    ;
}

/// Largest `m` in `[0, 2^64]` whose saturated square is at most `target`:
/// the integer square root, and `2^64` for `target == u128::MAX`.
pub open spec fn is_sqrt_floor(m: int, target: int) -> bool {
    &&& 0 <= m <= q64_one()
    &&& sat_sq(m) <= target
    &&& (m == q64_one() || sat_sq(m + 1) > target)
}

/// Square root of a 64.64 number, rounded down: the integer square root of
/// the raw value, shifted back to 64.64.
pub fn sqrt_floor(x: FixedU64x64) -> (r: FixedU64x64)
    ensures
        is_sqrt_floor(spec_isqrt(x.0 as int), x.0 as int),
        r.0 == spec_isqrt(x.0 as int) * 0x1_0000_0000,
{
    let mut lo: u128 = 0;
    let mut hi: u128 = 1u128 << 64u32;
    assert(hi == q64_one()) by (bit_vector)
        requires
            hi == 1u128 << 64u32,
    ;
    let target = x.raw();
    while lo < hi
        invariant
            0 <= lo <= hi <= q64_one(),
            sat_sq(lo as int) <= target,
            hi == q64_one() || sat_sq(hi + 1) > target,
            target == x.0,
        decreases hi - lo,
    {
        let mid: u128 = (lo + hi + 1) / 2;
        assert(lo < mid <= hi);
        let sq: u128 = match mid.checked_mul(mid) {
            Some(v) => v,
            None => u128::MAX,
        };
        assert(sq == sat_sq(mid as int));
        if sq <= target {
            lo = mid;
        } else {
            proof {
                lemma_sat_sq_monotone(mid as int, hi as int);
            }
            hi = mid - 1;
        }
    }
    proof {
        assert(is_sqrt_floor(lo as int, target as int));
        lemma_sqrt_floor_unique(lo as int, spec_isqrt(target as int), target as int);
    }
    assert((lo as int) * 0x1_0000_0000 <= u128::MAX) by (nonlinear_arith)
        requires
            lo <= 0x1_0000_0000_0000_0000,
    ;
    let shifted: u128 = lo << 32u32;
    assert(shifted == lo * 0x1_0000_0000) by (bit_vector)
        requires
            shifted == lo << 32u32,
            lo <= 0x1_0000_0000_0000_0000,
    ;
    FixedU64x64::from_raw(shifted)
}

/// The integer square root in the sense of `is_sqrt_floor`.
pub open spec fn spec_isqrt(target: int) -> int {
    choose|m: int| is_sqrt_floor(m, target)
}

/// There is only one integer square root.
pub proof fn lemma_sqrt_floor_unique(m1: int, m2: int, target: int)
    requires
        is_sqrt_floor(m1, target),
        is_sqrt_floor(m2, target),
    ensures
        m1 == m2,
{
    if m1 < m2 {
        lemma_sat_sq_monotone(m1 + 1, m2);
    } else if m2 < m1 {
        lemma_sat_sq_monotone(m2 + 1, m1);
    }
}

/// Product of two 64.64 numbers, rounded down; refused beyond 128 bits.
pub open spec fn spec_q64_mul(a: u128, b: u128) -> Result<u128, Error> {
    let p = (a * b) / q64_one();
    if p > u128::MAX {
        Err(Error::ArithmeticOverflow)
    } else {
        Ok(p as u128)
    }
}

impl FixedU64x64 {
    /// Multiplies two 64.64 numbers, rounding down, or refuses on overflow.
    pub fn checked_mul(self, other: FixedU64x64) -> (r: Result<FixedU64x64, Error>)
        ensures
            match spec_q64_mul(self.0, other.0) {
                Ok(v) => r == Ok::<FixedU64x64, Error>(FixedU64x64(v)),
                Err(e) => r == Err::<FixedU64x64, Error>(e),
            },
    {
        let a = self.0;
        let b = other.0;
        let k: u128 = 0x1_0000_0000_0000_0000;
        let ah: u128 = a / k;
        let al: u128 = a % k;
        let bh: u128 = b / k;
        let bl: u128 = b % k;
        proof {
            vstd::arithmetic::div_mod::lemma_fundamental_div_mod(a as int, k as int);
            vstd::arithmetic::div_mod::lemma_fundamental_div_mod(b as int, k as int);
            assert(ah < k && bh < k) by (nonlinear_arith)
                requires
                    ah == a / k,
                    bh == b / k,
                    a <= u128::MAX,
                    b <= u128::MAX,
                    k == 0x1_0000_0000_0000_0000,
            ;
            assert(ah * bh <= u128::MAX && ah * bl <= u128::MAX && al * bh <= u128::MAX && al * bl
                <= u128::MAX) by (nonlinear_arith)
                requires
                    ah < k,
                    bh < k,
                    al < k,
                    bl < k,
                    k == 0x1_0000_0000_0000_0000,
            ;
        }
        let hh: u128 = ah * bh;
        let hl: u128 = ah * bl;
        let lh: u128 = al * bh;
        let ll: u128 = (al * bl) / k;
        let ghost x: int = (al * bl) as int;
        let ghost j: int = hh * k + hl + lh;
        proof {
            assert(a * b == x + j * k) by (nonlinear_arith)
                requires
                    a == k * ah + al,
                    b == k * bh + bl,
                    hh == ah * bh,
                    hl == ah * bl,
                    lh == al * bh,
                    x == al * bl,
                    j == hh * k + hl + lh,
            ;
            vstd::arithmetic::div_mod::lemma_hoist_over_denominator(x, j, k as nat);
            assert((a * b) / q64_one() == ll + hh * k + hl + lh);
        }
        if hh >= k {
            proof {
                assert(hh * k >= k * k) by (nonlinear_arith)
                    requires
                        hh >= k,
                        k > 0,
                ;
            }
            return Err(Error::ArithmeticOverflow);
        }
        proof {
            assert(hh * k <= u128::MAX) by (nonlinear_arith)
                requires
                    hh < k,
                    k == 0x1_0000_0000_0000_0000,
            ;
        }
        let acc: u128 = hh * k;
        let acc = match acc.checked_add(hl) {
            Some(v) => v,
            None => {
                return Err(Error::ArithmeticOverflow);
            },
        };
        let acc = match acc.checked_add(lh) {
            Some(v) => v,
            None => {
                return Err(Error::ArithmeticOverflow);
            },
        };
        let acc = match acc.checked_add(ll) {
            Some(v) => v,
            None => {
                return Err(Error::ArithmeticOverflow);
            },
        };
        Ok(FixedU64x64(acc))
    }
}

/// Geometric mean of two welfare values, each floored at `EPSILON`, computed
/// in 64.64 fixed point and rounded down to nine decimals.
pub open spec fn spec_settlement_score(w1: u64, w2: u64) -> Result<u64, Error> {
    let a = if w1 > EPSILON { w1 } else { EPSILON };
    let b = if w2 > EPSILON { w2 } else { EPSILON };
    match spec_q64_mul(spec_q64_from_1e9(a), spec_q64_from_1e9(b)) {
        Err(e) => Err(e),
        Ok(p) => Ok(spec_q64_to_1e9_down((spec_isqrt(p as int) * 0x1_0000_0000) as u128)),
    }
}

/// The settlement score of a cohort from its two welfare observations.
pub fn settlement_score(w1: FixedU64, w2: FixedU64) -> (r: Result<FixedU64, Error>)
    ensures
        match spec_settlement_score(w1.0, w2.0) {
            Ok(v) => r == Ok::<FixedU64, Error>(FixedU64(v)),
            Err(e) => r == Err::<FixedU64, Error>(e),
        },
{
    let a = if w1.0 > EPSILON { w1.0 } else { EPSILON };
    let b = if w2.0 > EPSILON { w2.0 } else { EPSILON };
    let qa = match q64_from_1e9(a) {
        Ok(v) => v,
        Err(e) => {
            return Err(e);
        },
    };
    let qb = match q64_from_1e9(b) {
        Ok(v) => v,
        Err(e) => {
            return Err(e);
        },
    };
    let p = match qa.checked_mul(qb) {
        Ok(v) => v,
        Err(e) => {
            return Err(e);
        },
    };
    let root = sqrt_floor(p);
    proof {
        assert(spec_isqrt(p.0 as int) * 0x1_0000_0000 * ONE <= u128::MAX) by (nonlinear_arith)
            requires
                0 <= spec_isqrt(p.0 as int) <= q64_one(),
        ;
    }
    q64_to_1e9_down(root)
}

} // verus!
