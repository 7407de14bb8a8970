//! Value mapping: clamped linear range mapping between pixel spans and value
//! spans, exact rational proportions in place of floating-point percentages,
//! and an integer power-law skew for one axis.

use vstd::prelude::*;
use vstd::arithmetic::div_mod::{
    lemma_div_denominator,
    lemma_div_is_ordered,
    lemma_div_multiples_vanish,
    lemma_div_pos_is_pos,
    lemma_div_of0,
};
use vstd::arithmetic::mul::{
    lemma_mul_is_associative,
    lemma_mul_strictly_positive,
};
use vstd::arithmetic::mul::{
    lemma_mul_inequality,
    lemma_mul_is_commutative,
    lemma_mul_nonnegative,
    lemma_mul_upper_bound,
};

verus! {

/// Bound on every pixel coordinate, dimension and value unit the library
/// accepts: keeps every intermediate product within `i64`.
pub const MAX_UNIT: i64 = 0x4000_0000;

/// The coordinate or value `v` is small enough for the library's arithmetic.
pub open spec fn in_unit_range(v: i64) -> bool {
    -MAX_UNIT <= v <= MAX_UNIT
}

/// What `clamp` returns.
pub open spec fn clamp_spec(v: int, lo: int, hi: int) -> int {
    if v < lo {
        lo
    } else if v > hi {
        hi
    } else {
        v
    }
}

/// Clamp `v` into `[lo, hi]`.
pub fn clamp(v: i64, lo: i64, hi: i64) -> (r: i64)
    requires
        lo <= hi,
    ensures
        r == clamp_spec(v as int, lo as int, hi as int),
{
    if v < lo {
        lo
    } else if v > hi {
        hi
    } else {
        v
    }
}

/// An exact proportion `num / den` of a span: the integer stand-in for a
/// floating-point percentage, so that range mapping stays exact.  A
/// well-formed proportion lies in `[0, 1]`.
#[derive(Clone, Copy, Debug, PartialEq, Eq, Structural)]
pub struct Frac {
    pub num: i64,
    pub den: i64,
}

/// Well-formedness of a proportion: within `[0, 1]` and bounded.
pub open spec fn frac_wf(f: Frac) -> bool {
    &&& 0 <= f.num <= f.den
    &&& 0 < f.den <= 2 * MAX_UNIT
}

/// The rational order `a <= b`, by cross multiplication.
pub open spec fn frac_le_spec(a: Frac, b: Frac) -> bool {
    a.num * b.den <= b.num * a.den
}

/// Compare two proportions exactly.
pub fn frac_le(a: Frac, b: Frac) -> (r: bool)
    requires
        frac_wf(a),
        frac_wf(b),
    ensures
        r == frac_le_spec(a, b),
{
    proof {
        lemma_mul_upper_bound(a.num as int, 2 * MAX_UNIT as int, b.den as int, 2 * MAX_UNIT as int);
        lemma_mul_upper_bound(b.num as int, 2 * MAX_UNIT as int, a.den as int, 2 * MAX_UNIT as int);
        lemma_mul_nonnegative(a.num as int, b.den as int);
        lemma_mul_nonnegative(b.num as int, a.den as int);
    }
    (a.num as i128) * (b.den as i128) <= (b.num as i128) * (a.den as i128)
}

/// Where `v` stands within the span from `lo` to `hi`, as an exact
/// proportion of the span.  The direction is free: when `lo > hi` the
/// proportion grows toward `hi`, which is how a screen axis that grows
/// downward maps to a value axis that grows upward.
pub open spec fn percentage_spec(v: int, lo: int, hi: int) -> Frac {
    if lo < hi {
        Frac { num: (v - lo) as i64, den: (hi - lo) as i64 }
    } else {
        Frac { num: (lo - v) as i64, den: (lo - hi) as i64 }
    }
}

/// Exact proportion of `v` within the span from `lo` to `hi`.
pub fn percentage(v: i64, lo: i64, hi: i64) -> (r: Frac)
    requires
        lo != hi,
        in_unit_range(lo),
        in_unit_range(hi),
        lo < hi ==> lo <= v <= hi,
        hi < lo ==> hi <= v <= lo,
    ensures
        r == percentage_spec(v as int, lo as int, hi as int),
        frac_wf(r),
{
    if lo < hi {
        Frac { num: v - lo, den: hi - lo }
    } else {
        Frac { num: lo - v, den: lo - hi }
    }
}

/// What `frac_map` returns: the point of the span from `to_lo` to `to_hi`
/// that the proportion `f` picks, rounded toward `to_lo`.
pub open spec fn frac_map_spec(f: Frac, to_lo: int, to_hi: int) -> int {
    if to_lo <= to_hi {
        to_lo + f.num as int * (to_hi - to_lo) / f.den as int
    } else {
        to_lo - f.num as int * (to_lo - to_hi) / f.den as int
    }
}

/// Map the proportion `f` onto the span from `to_lo` to `to_hi`.  The
/// direction is free: `to_lo > to_hi` flips the axis.
pub fn frac_map(f: Frac, to_lo: i64, to_hi: i64) -> (r: i64)
    requires
        frac_wf(f),
        -2 * MAX_UNIT <= to_lo <= 2 * MAX_UNIT,
        -2 * MAX_UNIT <= to_hi <= 2 * MAX_UNIT,
    ensures
        r == frac_map_spec(f, to_lo as int, to_hi as int),
        to_lo <= to_hi ==> to_lo <= r <= to_hi,
        to_hi <= to_lo ==> to_hi <= r <= to_lo,
{
    if to_lo <= to_hi {
        let diff: i64 = to_hi - to_lo;
        let part: i64 = mul_div(f.num, diff, f.den);
        to_lo + part
    } else {
        let diff: i64 = to_lo - to_hi;
        let part: i64 = mul_div(f.num, diff, f.den);
        to_lo - part
    }
}

/// `num * diff / den` for a proportion's numerator and denominator: the
/// share of `diff` that the proportion picks.
fn mul_div(num: i64, diff: i64, den: i64) -> (r: i64)
    requires
        0 <= num <= den,
        0 < den <= 2 * MAX_UNIT,
        0 <= diff <= 4 * MAX_UNIT,
    ensures
        r == num as int * diff as int / den as int,
        0 <= r <= diff,
{
    proof {
        lemma_mul_upper_bound(num as int, 2 * MAX_UNIT as int, diff as int, 4 * MAX_UNIT as int);
        lemma_mul_nonnegative(num as int, diff as int);
        lemma_mul_inequality(num as int, den as int, diff as int);
        lemma_div_is_ordered(num as int * diff as int, den as int * diff as int, den as int);
        lemma_mul_is_commutative(den as int, diff as int);
        lemma_div_multiples_vanish(diff as int, den as int);
        lemma_div_pos_is_pos(num as int * diff as int, den as int);
    }
    let prod: i128 = (num as i128) * (diff as i128);
    let q: i128 = prod / (den as i128);
    proof {
        assert(q == num as int * diff as int / den as int);
    }
    q as i64
}

/// Linear range mapping: where `v` stands within the span from `from_lo` to
/// `from_hi`, carried onto the span from `to_lo` to `to_hi`.  Both spans may
/// run in either direction.
pub fn map_range(v: i64, from_lo: i64, from_hi: i64, to_lo: i64, to_hi: i64) -> (r: i64)
    requires
        from_lo != from_hi,
        in_unit_range(from_lo),
        in_unit_range(from_hi),
        -2 * MAX_UNIT <= to_lo <= 2 * MAX_UNIT,
        -2 * MAX_UNIT <= to_hi <= 2 * MAX_UNIT,
        from_lo < from_hi ==> from_lo <= v <= from_hi,
        from_hi < from_lo ==> from_hi <= v <= from_lo,
    ensures
        r == frac_map_spec(
            percentage_spec(v as int, from_lo as int, from_hi as int),
            to_lo as int,
            to_hi as int,
        ),
        to_lo <= to_hi ==> to_lo <= r <= to_hi,
        to_hi <= to_lo ==> to_hi <= r <= to_lo,
{
    let f = percentage(v, from_lo, from_hi);
    frac_map(f, to_lo, to_hi)
}

/// Truncating fixed-point power: the value of `(num / den)` raised to `k`,
/// scaled by `den` (so a result of `den` stands for one), rounding toward
/// zero at each of the `k` steps.
pub open spec fn pow_frac_spec(num: int, den: int, k: nat) -> int
    decreases k,
{
    if k == 0 {
        den
    } else {
        pow_frac_spec(num, den, (k - 1) as nat) * num / den
    }
}

/// The truncating power of a proportion stays a proportion.
pub proof fn lemma_pow_frac_bounds(num: int, den: int, k: nat)
    requires
        0 <= num <= den,
        0 < den,
    ensures
        0 <= pow_frac_spec(num, den, k) <= den,
    decreases k,
{
    if k > 0 {
        lemma_pow_frac_bounds(num, den, (k - 1) as nat);
        let p = pow_frac_spec(num, den, (k - 1) as nat);
        lemma_mul_nonnegative(p, num);
        lemma_div_pos_is_pos(p * num, den);
        lemma_mul_upper_bound(p, den, num, den);
        lemma_mul_inequality(p, den, num);
        lemma_mul_is_commutative(den, num);
        lemma_div_is_ordered(p * num, num * den, den);
        lemma_div_multiples_vanish(num, den);
    }
}

/// Raising a proportion to the power one leaves it unchanged.
pub proof fn lemma_pow_frac_one(num: int, den: int)
    requires
        0 <= num <= den,
        0 < den,
    ensures
        pow_frac_spec(num, den, 1) == num,
{
    assert(pow_frac_spec(num, den, 0) == den);
    assert(pow_frac_spec(num, den, 1) == den * num / den);
    lemma_div_multiples_vanish(num, den);
}

/// Raising the zero proportion to a positive power gives zero.
pub proof fn lemma_pow_frac_zero(den: int, k: nat)
    requires
        0 < den,
        k >= 1,
    ensures
        pow_frac_spec(0, den, k) == 0,
{
    let p = pow_frac_spec(0, den, (k - 1) as nat);
    lemma_pow_frac_bounds(0, den, (k - 1) as nat);
    assert(p * 0 == 0) by (nonlinear_arith);
    lemma_div_of0(den);
}

/// Compute the truncating fixed-point power of a proportion.
fn pow_frac(num: i64, den: i64, k: u32) -> (r: i64)
    requires
        0 <= num <= den,
        0 < den <= 2 * MAX_UNIT,
    ensures
        r == pow_frac_spec(num as int, den as int, k as nat),
        0 <= r <= den,
{
    let mut acc: i64 = den;
    let mut i: u32 = 0;
    while i < k
        invariant
            0 <= i <= k,
            0 <= acc <= den,
            0 <= num <= den,
            0 < den <= 2 * MAX_UNIT,
            acc == pow_frac_spec(num as int, den as int, i as nat),
        decreases k - i,
    {
        acc = mul_div(acc, num, den);
        i = i + 1;
    }
    acc
}

/// Apply the power-law skew to a proportion: raise it to the exponent `k`.
/// An exponent of one leaves the proportion unchanged.
pub fn skew_apply(f: Frac, k: u32) -> (r: Frac)
    requires
        frac_wf(f),
        k >= 1,
    ensures
        r.den == f.den,
        r.num == pow_frac_spec(f.num as int, f.den as int, k as nat),
        frac_wf(r),
        k == 1 ==> r == f,
{
    proof {
        lemma_pow_frac_bounds(f.num as int, f.den as int, k as nat);
        if k == 1 {
            lemma_pow_frac_one(f.num as int, f.den as int);
        }
    }
    let num = pow_frac(f.num, f.den, k);
    Frac { num, den: f.den }
}

/// The largest scaled numerator `c` at most `c0` whose `k`-th truncating
/// power does not exceed `num`.
pub open spec fn root_search_spec(num: int, den: int, k: nat, c0: nat) -> int
    decreases c0,
{
    if c0 == 0 {
        0
    } else if pow_frac_spec(c0 as int, den, k) <= num {
        c0 as int
    } else {
        root_search_spec(num, den, k, (c0 - 1) as nat)
    }
}

/// What `skew_unapply` returns: the largest proportion of the same
/// denominator whose `k`-th truncating power does not exceed `f`.
pub open spec fn skew_unapply_spec(f: Frac, k: nat) -> Frac {
    Frac { num: root_search_spec(f.num as int, f.den as int, k, f.den as nat) as i64, den: f.den }
}

/// Undo the power-law skew on a proportion: the largest proportion of the
/// same denominator whose `k`-th truncating power does not exceed `f`.
/// An exponent of one leaves the proportion unchanged.
pub fn skew_unapply(f: Frac, k: u32) -> (r: Frac)
    requires
        frac_wf(f),
        k >= 1,
    ensures
        r == skew_unapply_spec(f, k as nat),
        r.den == f.den,
        frac_wf(r),
        pow_frac_spec(r.num as int, r.den as int, k as nat) <= f.num,
        forall|m: int|
            r.num < m <= f.den ==> pow_frac_spec(m, f.den as int, k as nat) > f.num,
        k == 1 ==> r == f,
{
    let mut c: i64 = f.den;
    loop
        invariant
            0 <= c <= f.den,
            frac_wf(f),
            k >= 1,
            forall|m: int|
                c < m <= f.den ==> pow_frac_spec(m, f.den as int, k as nat) > f.num,
            root_search_spec(f.num as int, f.den as int, k as nat, f.den as nat)
                == root_search_spec(f.num as int, f.den as int, k as nat, c as nat),
        decreases c,
    {
        let p = pow_frac(c, f.den, k);
        if p <= f.num {
            proof {
                if k == 1 {
                    lemma_pow_frac_one(c as int, f.den as int);
                    if c < f.num {
                        lemma_pow_frac_one(f.num as int, f.den as int);
                    }
                }
            }
            return Frac { num: c, den: f.den };
        }
        proof {
            if c == 0 {
                lemma_pow_frac_zero(f.den as int, k as nat);
            }
        }
        c = c - 1;
    }
}

/// A mapped proportion lands between the target span's endpoints.
pub proof fn lemma_frac_map_bounds(f: Frac, to_lo: int, to_hi: int)
    requires
        frac_wf(f),
    ensures
        to_lo <= to_hi ==> to_lo <= frac_map_spec(f, to_lo, to_hi) <= to_hi,
        to_hi <= to_lo ==> to_hi <= frac_map_spec(f, to_lo, to_hi) <= to_lo,
{
    if to_lo <= to_hi {
        let d = to_hi - to_lo;
        lemma_mul_nonnegative(f.num as int, d);
        lemma_div_pos_is_pos(f.num * d, f.den as int);
        lemma_mul_inequality(f.num as int, f.den as int, d);
        lemma_mul_is_commutative(f.den as int, d);
        lemma_div_is_ordered(f.num * d, f.den * d, f.den as int);
        lemma_div_multiples_vanish(d, f.den as int);
    } else {
        let d = to_lo - to_hi;
        lemma_mul_nonnegative(f.num as int, d);
        lemma_div_pos_is_pos(f.num * d, f.den as int);
        lemma_mul_inequality(f.num as int, f.den as int, d);
        lemma_mul_is_commutative(f.den as int, d);
        lemma_div_is_ordered(f.num * d, f.den * d, f.den as int);
        lemma_div_multiples_vanish(d, f.den as int);
    }
}

/// Ordering carries over cross-denominator division: if `xn / xd` is at
/// most `yn / yd` as a rational, the integer quotients are ordered too.
pub proof fn lemma_div_cross_ordered(xn: int, xd: int, yn: int, yd: int)
    requires
        0 <= xn,
        0 <= yn,
        0 < xd,
        0 < yd,
        xn * yd <= yn * xd,
    ensures
        xn / xd <= yn / yd,
{
    lemma_mul_nonnegative(xn, yd);
    lemma_mul_nonnegative(yn, xd);
    lemma_mul_strictly_positive(xd, yd);
    lemma_mul_strictly_positive(yd, xd);
    lemma_div_multiples_vanish(xn, yd);
    lemma_mul_is_commutative(yd, xn);
    lemma_div_denominator(xn * yd, yd, xd);
    assert(xn / xd == (xn * yd) / (yd * xd));
    lemma_div_multiples_vanish(yn, xd);
    lemma_mul_is_commutative(xd, yn);
    lemma_div_denominator(yn * xd, xd, yd);
    assert(yn / yd == (yn * xd) / (xd * yd));
    lemma_mul_is_commutative(xd, yd);
    lemma_div_is_ordered(xn * yd, yn * xd, yd * xd);
}

/// Ordered proportions map to ordered points of the target span:
/// `frac_map` is monotone in the proportion, and antitone when the span is
/// flipped.
pub proof fn lemma_frac_map_ordered(a: Frac, b: Frac, to_lo: int, to_hi: int)
    requires
        frac_wf(a),
        frac_wf(b),
        frac_le_spec(a, b),
    ensures
        to_lo <= to_hi ==> frac_map_spec(a, to_lo, to_hi) <= frac_map_spec(b, to_lo, to_hi),
        to_hi <= to_lo ==> frac_map_spec(b, to_lo, to_hi) <= frac_map_spec(a, to_lo, to_hi),
{
    if to_lo == to_hi {
        assert(a.num * 0 == 0);
        assert(b.num * 0 == 0);
        lemma_div_of0(a.den as int);
        lemma_div_of0(b.den as int);
    } else if to_lo <= to_hi {
        let d = to_hi - to_lo;
        lemma_mul_inequality(a.num * b.den, b.num * a.den, d);
        lemma_mul_is_associative(a.num as int, b.den as int, d);
        lemma_mul_is_associative(b.num as int, a.den as int, d);
        lemma_mul_is_commutative(b.den as int, d);
        lemma_mul_is_commutative(a.den as int, d);
        lemma_mul_is_associative(a.num as int, d, b.den as int);
        lemma_mul_is_associative(b.num as int, d, a.den as int);
        lemma_mul_nonnegative(a.num as int, d);
        lemma_mul_nonnegative(b.num as int, d);
        lemma_div_cross_ordered(a.num * d, a.den as int, b.num * d, b.den as int);
    } else {
        let d = to_lo - to_hi;
        lemma_mul_inequality(a.num * b.den, b.num * a.den, d);
        lemma_mul_is_associative(a.num as int, b.den as int, d);
        lemma_mul_is_associative(b.num as int, a.den as int, d);
        lemma_mul_is_commutative(b.den as int, d);
        lemma_mul_is_commutative(a.den as int, d);
        lemma_mul_is_associative(a.num as int, d, b.den as int);
        lemma_mul_is_associative(b.num as int, d, a.den as int);
        lemma_mul_nonnegative(a.num as int, d);
        lemma_mul_nonnegative(b.num as int, d);
        lemma_div_cross_ordered(a.num * d, a.den as int, b.num * d, b.den as int);
    }
}

/// Law: mapping a value to its proportion of a span and back onto the same
/// span returns the value unchanged, in both axis directions.
pub proof fn lemma_map_round_trip(v: int, lo: int, hi: int)
    requires
        lo != hi,
        -MAX_UNIT <= lo <= MAX_UNIT,
        -MAX_UNIT <= hi <= MAX_UNIT,
        lo < hi ==> lo <= v <= hi,
        hi < lo ==> hi <= v <= lo,
    ensures
        frac_map_spec(percentage_spec(v, lo, hi), lo, hi) == v,
{
    if lo < hi {
        let f = percentage_spec(v, lo, hi);
        assert(f.num == v - lo && f.den == hi - lo);
        lemma_mul_is_commutative(f.num as int, f.den as int);
        lemma_div_multiples_vanish(f.num as int, f.den as int);
        assert(f.num * (hi - lo) / f.den as int == v - lo);
    } else {
        let f = percentage_spec(v, lo, hi);
        assert(f.num == lo - v && f.den == lo - hi);
        lemma_mul_is_commutative(f.num as int, f.den as int);
        lemma_div_multiples_vanish(f.num as int, f.den as int);
        assert(f.num * (lo - hi) / f.den as int == lo - v);
    }
}

} // verus!
