//! Facts about integer (floor) division used by the risk arithmetic.

use vstd::prelude::*;
use vstd::arithmetic::div_mod::{lemma_fundamental_div_mod, lemma_fundamental_div_mod_converse};

verus! {

/// A floor quotient reaches `c` exactly when the dividend reaches `c`
/// denominators.
pub proof fn lemma_div_ge_iff(a: int, v: int, c: int)
    requires
        v > 0,
    ensures
        a / v >= c <==> a >= v * c,
{
    lemma_fundamental_div_mod(a, v);
    assert(a == v * (a / v) + a % v);
    if a / v >= c {
        assert(v * (a / v) >= v * c) by (nonlinear_arith)
            requires
                v > 0,
                a / v >= c,
        ;
    }
    if a >= v * c {
        assert(a / v >= c) by (nonlinear_arith)
            requires
                v > 0,
                a >= v * c,
                a == v * (a / v) + a % v,
                0 <= a % v < v,
        ;
    }
}

/// A floor quotient stays below `c` exactly when the dividend stays below
/// `c` denominators.
pub proof fn lemma_div_lt_iff(a: int, v: int, c: int)
    requires
        v > 0,
    ensures
        a / v < c <==> a < v * c,
{
    lemma_div_ge_iff(a, v, c);
}

/// Floor division of a negated non-negative dividend is the negated ceiling
/// quotient of the dividend.
pub proof fn lemma_div_of_negated(m: int, v: int)
    requires
        m >= 0,
        v > 0,
    ensures
        (-m) / v == -((m + v - 1) / v),
{
    let d = m / v;
    let r = m % v;
    lemma_fundamental_div_mod(m, v);
    assert(m == v * d + r);
    if r == 0 {
        assert(m + v - 1 == d * v + (v - 1) && -m == (-d) * v + 0) by (nonlinear_arith)
            requires
                m == v * d + r,
                r == 0,
        ;
        lemma_fundamental_div_mod_converse(m + v - 1, v, d, v - 1);
        lemma_fundamental_div_mod_converse(-m, v, -d, 0);
    } else {
        assert(m + v - 1 == (d + 1) * v + (r - 1) && -m == (-(d + 1)) * v + (v - r))
            by (nonlinear_arith)
            requires
                m == v * d + r,
        ;
        lemma_fundamental_div_mod_converse(m + v - 1, v, d + 1, r - 1);
        lemma_fundamental_div_mod_converse(-m, v, -(d + 1), v - r);
    }
}

} // verus!

