//! The quadratic credit calculator: a token balance becomes voting credits
//! through the integer square root.

use vstd::prelude::*;

verus! {

/// `r` is the integer square root of `t`: the largest `r` with `r * r <= t`.
pub open spec fn is_floor_sqrt(t: int, r: int) -> bool {
    0 <= r && r * r <= t && t < (r + 1) * (r + 1)
}

/// The integer square root of `t`.
pub open spec fn floor_sqrt(t: int) -> int {
    choose|r: int| is_floor_sqrt(t, r)
}

/// At most one value is the integer square root of `t`.
pub proof fn lemma_floor_sqrt_unique(t: int, a: int, b: int)
    requires
        is_floor_sqrt(t, a),
        is_floor_sqrt(t, b),
    ensures
        a == b,
{
    if a < b {
        assert((a + 1) * (a + 1) <= b * b) by (nonlinear_arith)
            requires
                0 <= a,
                a + 1 <= b,
        ;
    } else if b < a {
        assert((b + 1) * (b + 1) <= a * a) by (nonlinear_arith)
            requires
                0 <= b,
                b + 1 <= a,
        ;
    }
}

/// A value with the integer square root property is `floor_sqrt(t)`.
pub proof fn lemma_floor_sqrt_is(t: int, r: int)
    requires
        is_floor_sqrt(t, r),
    ensures
        floor_sqrt(t) == r,
{
    let s = floor_sqrt(t);
    assert(is_floor_sqrt(t, s));
    lemma_floor_sqrt_unique(t, r, s);
}

/// One Newton step never falls below the integer square root: if
/// `(x + 1)^2 > t`, the step `(x + t / x) / 2` keeps that property.
proof fn lemma_step_stays_above(t: int, x: int)
    requires
        0 <= t,
        1 <= x,
        t < (x + 1) * (x + 1),
    ensures
        t < ((x + t / x) / 2 + 1) * ((x + t / x) / 2 + 1),
{
    let q = t / x;
    let y = (x + q) / 2;
    assert(t < (q + 1) * x) by (nonlinear_arith)
        requires
            q == t / x,
            1 <= x,
            0 <= t,
    ;
    assert(4 * (q + 1) * x <= (x + q + 1) * (x + q + 1)) by (nonlinear_arith);
    assert(x + q + 1 <= 2 * (y + 1));
    assert(0 <= x + q + 1);
    assert((x + q + 1) * (x + q + 1) <= (2 * (y + 1)) * (2 * (y + 1))) by (nonlinear_arith)
        requires
            0 <= x + q + 1,
            x + q + 1 <= 2 * (y + 1),
    ;
    assert(t < (y + 1) * (y + 1)) by (nonlinear_arith)
        requires
            t < (q + 1) * x,
            4 * (q + 1) * x <= (x + q + 1) * (x + q + 1),
            (x + q + 1) * (x + q + 1) <= (2 * (y + 1)) * (2 * (y + 1)),
    ;
}

/// Once a Newton step no longer decreases, the estimate squared fits in `t`.
proof fn lemma_no_progress_means_below(t: int, x: int)
    requires
        0 <= t,
        1 <= x,
        x <= (x + t / x) / 2,
    ensures
        x * x <= t,
{
    let q = t / x;
    assert(x <= q);
    assert(x * q <= t) by (nonlinear_arith)
        requires
            q == t / x,
            1 <= x,
            0 <= t,
    ;
    assert(x * x <= x * q) by (nonlinear_arith)
        requires
            x <= q,
            1 <= x,
    ;
}

/// The sum in a Newton step fits in a `u64` once the estimate is at most `(t + 1) / 2`.
proof fn lemma_step_sum_bounded(t: int, x: int)
    requires
        t <= u64::MAX,
        1 <= x,
        2 * x <= t + 1,
        t < (x + 1) * (x + 1),
    ensures
        x + t / x <= u64::MAX,
{
    if x == 1 {
        assert(t < 4) by (nonlinear_arith)
            requires
                x == 1,
                t < (x + 1) * (x + 1),
        ;
        assert(t / 1 == t);
    } else {
        assert(t / x <= t / 2) by (nonlinear_arith)
            requires
                2 <= x,
                0 <= t,
        {
            vstd::arithmetic::div_mod::lemma_div_is_ordered_by_denominator(t, 2, x);
        }
    }
}

/// Integer square root of a token balance by Newton's method: the credits
/// that the balance is worth. Total over `u64` and free of overflow.
pub fn quadratic_sqrt(tokens: u64) -> (r: u64)
    ensures
        is_floor_sqrt(tokens as int, r as int),
        r == floor_sqrt(tokens as int),
{
    if tokens == 0 {
        assert(is_floor_sqrt(0, 0)) by (nonlinear_arith);
        proof {
            lemma_floor_sqrt_is(0, 0);
        }
        return 0;
    }
    let t = tokens;
    let mut x: u64 = t;
    // (x + 1) / 2, written so that it cannot overflow at u64::MAX
    let mut y: u64 = x / 2 + x % 2;
    assert(t < (t as int + 1) * (t as int + 1)) by (nonlinear_arith)
        requires
            t >= 1,
    ;
    while y < x
        invariant
            1 <= x <= t,
            y as int == (x + t as int / x as int) / 2,
            t < (x + 1) * (x + 1),
        decreases x,
    {
        proof {
            lemma_step_stays_above(t as int, x as int);
            assert(2 * y <= t + 1) by (nonlinear_arith)
                requires
                    y as int == (x + t as int / x as int) / 2,
                    1 <= x <= t,
            {
                assert(t as int / x as int <= t) by {
                    vstd::arithmetic::div_mod::lemma_div_is_ordered_by_denominator(t as int, 1, x as int);
                }
            }
        }
        proof {
            lemma_step_stays_above(t as int, x as int);
            if y == 0 {
                assert(t < (y + 1) * (y + 1));
                assert(t < 1) by (nonlinear_arith)
                    requires
                        y == 0,
                        t < (y + 1) * (y + 1),
                ;
            }
        }
        x = y;
        proof {
            lemma_step_sum_bounded(t as int, x as int);
        }
        y = (x + t / x) / 2;
    }
    proof {
        lemma_no_progress_means_below(t as int, x as int);
        lemma_floor_sqrt_is(t as int, x as int);
    }
    x
}

} // verus!
