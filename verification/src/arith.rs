//! Truncating division over mathematical integers and its executable form.
//!
//! Ghost `/` in Verus is Euclidean division, while the engine's outputs are
//! defined by truncation toward zero (integer pixel output, signed fractional
//! remainder). `div_trunc` is the truncating quotient for a positive divisor;
//! the lemmas here give its remainder bounds and a magnitude bound, which the
//! accelerator uses to prove its carry invariant and absence of overflow.

use vstd::prelude::*;

verus! {

use vstd::arithmetic::div_mod::{
    lemma_fundamental_div_mod, lemma_div_is_ordered, lemma_div_pos_is_pos,
    lemma_mod_division_less_than_divisor, lemma_div_multiples_vanish, lemma_div_of0,
};

/// Quotient of `a` by `b` rounded toward zero, for `b > 0`.
pub open spec fn div_trunc(a: int, b: int) -> int
    recommends
        b > 0,
{
    if a >= 0 {
        a / b
    } else {
        -((-a) / b)
    }
}

/// Remainder of the truncating division: same sign as `a`, magnitude below `b`.
pub open spec fn rem_trunc(a: int, b: int) -> int
    recommends
        b > 0,
{
    a - b * div_trunc(a, b)
}

/// Quotient of `a` by `b` rounded up, for `a >= 0` and `b > 0`.
pub open spec fn div_up(a: int, b: int) -> int
    recommends
        a >= 0,
        b > 0,
{
    (a + b - 1) / b
}

/// The truncating quotient and remainder decompose `a`, the remainder keeps
/// the sign of `a` and stays strictly below `b` in magnitude, and the quotient
/// keeps the sign of `a`.
pub proof fn lemma_div_trunc_decomposition(a: int, b: int)
    requires
        b > 0,
    ensures
        a == b * div_trunc(a, b) + rem_trunc(a, b),
        a >= 0 ==> 0 <= rem_trunc(a, b) < b && div_trunc(a, b) >= 0,
        a <= 0 ==> -b < rem_trunc(a, b) <= 0 && div_trunc(a, b) <= 0,
{
    if a >= 0 {
        lemma_fundamental_div_mod(a, b);
        lemma_mod_division_less_than_divisor(a, b);
        lemma_div_pos_is_pos(a, b);
        if a == 0 {
            lemma_div_of0(b);
        }
    } else {
        lemma_fundamental_div_mod(-a, b);
        lemma_mod_division_less_than_divisor(-a, b);
        lemma_div_pos_is_pos(-a, b);
        let q = (-a) / b;
        assert(-a == b * q + (-a) % b);
        assert(div_trunc(a, b) == -q);
        assert(b * (-q) == -(b * q)) by (nonlinear_arith);
        assert(rem_trunc(a, b) == -((-a) % b));
    }
}

/// A bound on the dividend gives the same bound on the truncating quotient.
pub proof fn lemma_div_trunc_bounded(a: int, b: int, m: int)
    requires
        b > 0,
        m >= 0,
        -(b * m) <= a <= b * m,
    ensures
        -m <= div_trunc(a, b) <= m,
{
    if a >= 0 {
        lemma_div_is_ordered(a, b * m, b);
        lemma_div_multiples_vanish(m, b);
        lemma_div_pos_is_pos(a, b);
    } else {
        lemma_div_is_ordered(-a, b * m, b);
        lemma_div_multiples_vanish(m, b);
        lemma_div_pos_is_pos(-a, b);
    }
}

/// Truncating division returns the exact quotient on exact multiples.
pub proof fn lemma_div_trunc_exact(q: int, b: int)
    requires
        b > 0,
    ensures
        div_trunc(q * b, b) == q,
{
    lemma_div_trunc_decomposition(q * b, b);
    let dq = div_trunc(q * b, b);
    let r = rem_trunc(q * b, b);
    assert(q * b == b * dq + r);
    assert((q - dq) * b == r) by (nonlinear_arith)
        requires
            q * b == b * dq + r,
    ;
    if q != dq {
        assert(r >= b || r <= -b) by (nonlinear_arith)
            requires
                (q - dq) * b == r,
                b > 0,
                q != dq,
        ;
    }
}

/// Truncating division, computed on `i128`.
pub fn div_trunc_i128(a: i128, b: i128) -> (q: i128)
    requires
        b > 0,
        a > i128::MIN,
    ensures
        q == div_trunc(a as int, b as int),
{
    proof {
        lemma_div_trunc_decomposition(a as int, b as int);
    }
    if a >= 0 {
        ((a as u128) / (b as u128)) as i128
    } else {
        -((((-a) as u128) / (b as u128)) as i128)
    }
}

/// Rounding-up division, computed on `i64` for non-negative dividends.
pub fn div_up_i64(a: i64, b: i64) -> (q: i64)
    requires
        0 <= a,
        0 < b,
        a + b - 1 <= i64::MAX,
    ensures
        q == div_up(a as int, b as int),
{
    let t: i64 = (a - 1) + b;
    proof {
        lemma_div_pos_is_pos(t as int, b as int);
        lemma_div_is_ordered(t as int, t as int, b as int);
    }
    ((t as u64) / (b as u64)) as i64
}

} // verus!
