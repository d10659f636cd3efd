//! Integer helpers shared by the simulation: truncating division, absolute
//! value, clamping, and an exact integer square root.
use vstd::prelude::*;

verus! {

/// Division truncating toward zero (the behaviour of `/` on machine
/// integers), defined for positive divisors.
pub open spec fn div_trunc(a: int, b: int) -> int
    recommends
        b > 0,
{
    if a >= 0 {
        a / b
    } else {
        -((-a) / b)
    }
}

/// Absolute value, as an `int`.
pub open spec fn abs_int(a: int) -> int {
    if a >= 0 {
        a
    } else {
        -a
    }
}

/// `v` pulled into the interval `[-limit, limit]`.
pub open spec fn clamp_int(v: int, limit: int) -> int
    recommends
        limit >= 0,
{
    if v < -limit {
        -limit
    } else if v > limit {
        limit
    } else {
        v
    }
}

/// The integer square root: the greatest `r` with `r * r <= n`.
pub open spec fn sqrt_floor(n: nat) -> nat
    decreases n,
{
    if n == 0 {
        0
    } else {
        let r = sqrt_floor((n - 1) as nat);
        if (r + 1) * (r + 1) <= n {
            (r + 1) as nat
        } else {
            r
        }
    }
}

/// `sqrt_floor` is exactly the floor of the square root: it squares to at
/// most `n`, and the next integer squares past `n`.
pub proof fn lemma_sqrt_floor_bounds(n: nat)
    ensures
        sqrt_floor(n) * sqrt_floor(n) <= n,
        n < (sqrt_floor(n) + 1) * (sqrt_floor(n) + 1),
    decreases n,
{
    if n == 0 {
        assert(n < (sqrt_floor(n) + 1) * (sqrt_floor(n) + 1)) by (nonlinear_arith)
            requires
                sqrt_floor(n) == 0,
                n == 0,
        ;
    } else {
        let m = (n - 1) as nat;
        lemma_sqrt_floor_bounds(m);
        let r = sqrt_floor(m);
        if (r + 1) * (r + 1) <= n {
            assert(sqrt_floor(n) == r + 1);
            assert(n <= (r + 1) * (r + 1)) by {
                assert(m < (r + 1) * (r + 1));
            }
            assert(n < (r + 2) * (r + 2)) by (nonlinear_arith)
                requires
                    n <= (r + 1) * (r + 1),
                    r >= 0,
            ;
        } else {
            assert(sqrt_floor(n) == r);
            assert(r * r <= m);
        }
    }
}

/// Any `r` whose square does not exceed `n` is at most `sqrt_floor(n)`.
pub proof fn lemma_sqrt_floor_at_least(n: nat, r: int)
    requires
        r >= 0,
        r * r <= n,
    ensures
        sqrt_floor(n) >= r,
{
    lemma_sqrt_floor_bounds(n);
    let s = sqrt_floor(n);
    if s < r {
        assert((s + 1) * (s + 1) <= r * r) by (nonlinear_arith)
            requires
                0 <= s,
                s + 1 <= r,
        ;
    }
}

/// Any `r` with `n < (r + 1) * (r + 1)` is at least `sqrt_floor(n)`.
pub proof fn lemma_sqrt_floor_at_most(n: nat, r: int)
    requires
        r >= 0,
        n < (r + 1) * (r + 1),
    ensures
        sqrt_floor(n) <= r,
{
    lemma_sqrt_floor_bounds(n);
    let s = sqrt_floor(n);
    if r < s {
        assert((r + 1) * (r + 1) <= s * s) by (nonlinear_arith)
            requires
                0 <= r,
                r + 1 <= s,
        ;
    }
}

/// `sqrt_floor(n)` is the one value that squares to at most `n` while its
/// successor squares past `n`.
pub proof fn lemma_sqrt_floor_unique(n: nat, r: int)
    requires
        r >= 0,
        r * r <= n,
        n < (r + 1) * (r + 1),
    ensures
        r == sqrt_floor(n),
{
    lemma_sqrt_floor_at_least(n, r);
    lemma_sqrt_floor_at_most(n, r);
}

/// Truncating division on machine integers, for a positive divisor.
pub fn div_i64(a: i64, b: i64) -> (r: i64)
    requires
        b > 0,
        a > i64::MIN,
    ensures
        r == div_trunc(a as int, b as int),
{
    if a >= 0 {
        a / b
    } else {
        -((-a) / b)
    }
}

/// `div_trunc` is antisymmetric in its dividend.
pub proof fn lemma_div_trunc_neg(a: int, b: int)
    requires
        b > 0,
    ensures
        div_trunc(-a, b) == -div_trunc(a, b),
{
}

/// Truncating division keeps the sign of its dividend and never grows it.
pub proof fn lemma_div_trunc_bound(t: int, d: int, m: int)
    requires
        d >= 1,
        m >= 0,
        abs_int(t) <= d * m,
    ensures
        abs_int(div_trunc(t, d)) <= m,
{
    if t >= 0 {
        vstd::arithmetic::div_mod::lemma_div_pos_is_pos(t, d);
        vstd::arithmetic::div_mod::lemma_div_is_ordered(t, d * m, d);
        vstd::arithmetic::div_mod::lemma_div_multiples_vanish(m, d);
    } else {
        vstd::arithmetic::div_mod::lemma_div_pos_is_pos(-t, d);
        vstd::arithmetic::div_mod::lemma_div_is_ordered(-t, d * m, d);
        vstd::arithmetic::div_mod::lemma_div_multiples_vanish(m, d);
    }
}

/// Dividing a smaller nonnegative dividend gives a result at most as large.
pub proof fn lemma_div_trunc_ordered(x: int, y: int, d: int)
    requires
        0 <= x <= y,
        d >= 1,
    ensures
        0 <= div_trunc(x, d) <= div_trunc(y, d),
{
    vstd::arithmetic::div_mod::lemma_div_pos_is_pos(x, d);
    vstd::arithmetic::div_mod::lemma_div_is_ordered(x, y, d);
}

/// Exact integer square root of `n`, by binary search.
pub fn isqrt(n: u64) -> (r: u64)
    requires
        n < 9_000_000_000_000_000_000,
    ensures
        r == sqrt_floor(n as nat),
        r <= 3_000_000_000,
{
    let mut lo: u64 = 0;
    let mut hi: u64 = 3_000_000_000;
    assert(9_000_000_000_000_000_000 == 3_000_000_000u64 * 3_000_000_000u64) by (nonlinear_arith);
    while lo + 1 < hi
        invariant
            lo < hi <= 3_000_000_000,
            lo * lo <= n,
            n < hi * hi,
        decreases hi - lo,
    {
        let mid: u64 = lo + (hi - lo) / 2;
        assert(mid * mid <= 3_000_000_000u64 * 3_000_000_000u64) by (nonlinear_arith)
            requires
                mid <= 3_000_000_000u64,
        ;
        if mid * mid <= n {
            lo = mid;
        } else {
            hi = mid;
        }
    }
    proof {
        lemma_sqrt_floor_unique(n as nat, lo as int);
    }
    lo
}

} // verus!
