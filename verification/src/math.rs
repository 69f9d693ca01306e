//! Integer square root, and the arithmetic facts the pool's proofs rest on.

use vstd::prelude::*;
use crate::types::Balance;

verus! {

/// `z` is the integer square root of `y`: the greatest `z` with `z * z <= y`.
pub open spec fn is_isqrt(y: int, z: int) -> bool {
    0 <= z && z * z <= y && y < (z + 1) * (z + 1)
}

/// The integer square root of `y`: the floor of its real square root.
pub open spec fn isqrt(y: int) -> int {
    choose|z: int| is_isqrt(y, z)
}

/// At most one number is the integer square root of `y`.
pub proof fn lemma_isqrt_unique(y: int, a: int, b: int)
    requires
        is_isqrt(y, a),
        is_isqrt(y, b),
    ensures
        a == b,
{
    if a < b {
        assert((a + 1) * (a + 1) <= b * b) by (nonlinear_arith)
            requires
                0 <= a,
                a + 1 <= b,
        ;
    }
    if b < a {
        assert((b + 1) * (b + 1) <= a * a) by (nonlinear_arith)
            requires
                0 <= b,
                b + 1 <= a,
        ;
    }
}

/// A number that squares to at most `y`, and whose successor squares to more,
/// is `isqrt(y)`.
pub proof fn lemma_isqrt_is(y: int, z: int)
    requires
        is_isqrt(y, z),
    ensures
        isqrt(y) == z,
{
    lemma_isqrt_unique(y, z, isqrt(y));
}

/// One step of Newton's iteration from any positive `x` lands at or above the
/// integer square root of `y`.
proof fn lemma_newton_step_above(y: int, x: int)
    requires
        0 <= y,
        0 < x,
    ensures
        ({
            let n = (y / x + x) / 2;
            0 <= n && y < (n + 1) * (n + 1)
        }),
{
    let q = y / x;
    let r = y % x;
    let n = (q + x) / 2;
    vstd::arithmetic::div_mod::lemma_fundamental_div_mod(y, x);
    vstd::arithmetic::div_mod::lemma_mod_bound(y, x);
    vstd::arithmetic::div_mod::lemma_div_pos_is_pos(y, x);
    assert(y == x * q + r);
    assert(0 <= r < x);
    assert(0 <= q);
    assert(2 * (n + 1) >= q + x + 1);
    assert(y < x * (q + 1)) by (nonlinear_arith)
        requires
            y == x * q + r,
            r < x,
    ;
    assert((q + x + 1) * (q + x + 1) >= 4 * (x * (q + 1))) by (nonlinear_arith)
        requires
            0 <= q,
            0 < x,
    ;
    assert((2 * (n + 1)) * (2 * (n + 1)) >= (q + x + 1) * (q + x + 1)) by (nonlinear_arith)
        requires
            2 * (n + 1) >= q + x + 1,
            q + x + 1 >= 0,
    ;
    assert((2 * (n + 1)) * (2 * (n + 1)) == 4 * ((n + 1) * (n + 1))) by (nonlinear_arith);
}

/// Where Newton's iteration stops falling, the square of the current value is
/// at most `y`.
proof fn lemma_newton_stop(y: int, x: int)
    requires
        0 <= y,
        0 < x,
        (y / x + x) / 2 >= x,
    ensures
        x * x <= y,
{
    let q = y / x;
    vstd::arithmetic::div_mod::lemma_fundamental_div_mod(y, x);
    vstd::arithmetic::div_mod::lemma_mod_bound(y, x);
    assert(q >= x);
    assert(x * x <= x * q) by (nonlinear_arith)
        requires
            0 < x,
            x <= q,
    ;
}

/// A number whose successor squares to more than `y >= 4` is at least 2.
proof fn lemma_root_at_least_two(y: int, n: int)
    requires
        4 <= y,
        0 <= n,
        y < (n + 1) * (n + 1),
    ensures
        2 <= n,
{
    if n <= 1 {
        assert((n + 1) * (n + 1) <= 4) by (nonlinear_arith)
            requires
                0 <= n <= 1,
        ;
    }
}

/// A product of two natural numbers is positive exactly when both are.
pub proof fn lemma_product_positive(a: int, b: int)
    requires
        0 <= a,
        0 <= b,
    ensures
        a * b > 0 <==> (a > 0 && b > 0),
        a * b >= 0,
{
    assert(a * b > 0 <==> (a > 0 && b > 0)) by (nonlinear_arith)
        requires
            0 <= a,
            0 <= b,
    ;
    assert(a * b >= 0) by (nonlinear_arith)
        requires
            0 <= a,
            0 <= b,
    ;
}

/// The price of some of a pool's shares against one reserve: it is at most
/// the reserve; all the shares cost the whole reserve; fewer shares leave
/// some of a reserve that is not empty.
pub proof fn lemma_cost_bounds(reserve: int, shares: int, total: int)
    requires
        0 <= reserve,
        0 <= shares <= total,
        0 < total,
    ensures
        0 <= (reserve * shares) / total <= reserve,
        shares == total ==> (reserve * shares) / total == reserve,
        shares < total && reserve > 0 ==> (reserve * shares) / total < reserve,
{
    let n = reserve * shares;
    lemma_product_positive(reserve, shares);
    vstd::arithmetic::div_mod::lemma_fundamental_div_mod(n, total);
    vstd::arithmetic::div_mod::lemma_mod_bound(n, total);
    vstd::arithmetic::div_mod::lemma_div_pos_is_pos(n, total);
    let c = n / total;
    assert(n == total * c + n % total);
    assert(n <= reserve * total) by (nonlinear_arith)
        requires
            n == reserve * shares,
            0 <= reserve,
            shares <= total,
    ;
    if c > reserve {
        assert(total * c >= total * (reserve + 1)) by (nonlinear_arith)
            requires
                c >= reserve + 1,
                total > 0,
        ;
        assert(total * (reserve + 1) == reserve * total + total) by (nonlinear_arith);
    }
    if shares == total {
        assert((reserve + 1) * total == reserve * total + total) by (nonlinear_arith);
        lemma_quotient_is(n, total, reserve);
    }
    if shares < total && reserve > 0 && c >= reserve {
        assert(total * c >= total * reserve) by (nonlinear_arith)
            requires
                c >= reserve,
                total > 0,
        ;
        assert(reserve * shares < reserve * total) by (nonlinear_arith)
            requires
                shares < total,
                reserve > 0,
        ;
        assert(reserve * total == total * reserve) by (nonlinear_arith);
    }
}

/// The quotient is the only number between whose multiple of `d` and the
/// next one `n` lies.
pub proof fn lemma_quotient_is(n: int, d: int, q: int)
    requires
        0 < d,
        q * d <= n < (q + 1) * d,
    ensures
        n / d == q,
{
    assert((q + 1) * d == q * d + d) by (nonlinear_arith);
    vstd::arithmetic::div_mod::lemma_fundamental_div_mod_converse(n, d, q, n - q * d);
}

/// Pricing shares against a reserve that was just raised by their price
/// gives the same price again.
pub proof fn lemma_cost_repeats(reserve: int, shares: int, total: int)
    requires
        0 <= reserve,
        0 <= shares,
        0 < total,
    ensures
        ((reserve + (reserve * shares) / total) * shares) / (total + shares) == (reserve * shares)
            / total,
{
    let n = reserve * shares;
    let c = n / total;
    vstd::arithmetic::div_mod::lemma_fundamental_div_mod(n, total);
    vstd::arithmetic::div_mod::lemma_mod_bound(n, total);
    let rem = n % total;
    assert(n == total * c + rem);
    assert(0 <= n) by (nonlinear_arith)
        requires
            n == reserve * shares,
            0 <= reserve,
            0 <= shares,
    ;
    vstd::arithmetic::div_mod::lemma_div_pos_is_pos(n, total);
    assert((reserve + c) * shares == n + c * shares) by (nonlinear_arith)
        requires
            n == reserve * shares,
    ;
    assert(c * (total + shares) == total * c + c * shares) by (nonlinear_arith);
    assert((c + 1) * (total + shares) == total * c + c * shares + total + shares)
        by (nonlinear_arith);
    lemma_quotient_is((reserve + c) * shares, total + shares, c);
}

/// Integer square root of `y` by Newton's iteration: starts at `y / 2 + 1`
/// and follows `x -> (y / x + x) / 2` until the value stops falling. Inputs
/// up to 3 are answered directly: `0` for `0`, else `1`.
pub fn sqrt(y: Balance) -> (z: Balance)
    ensures
        is_isqrt(y as int, z as int),
        z as int == isqrt(y as int),
{
    if y > 3 {
        let mut z: Balance = y;
        let mut x: Balance = y / 2 + 1;
        proof {
            assert(((x + 1) as int) * ((x + 1) as int) > y) by (nonlinear_arith)
                requires
                    2 * x >= y,
                    x >= 0,
            ;
            assert(((z + 1) as int) * ((z + 1) as int) > z) by (nonlinear_arith)
                requires
                    z >= 0,
            ;
        }
        while x < z
            invariant
                y > 3,
                2 <= x <= y / 2 + 1,
                z <= y,
                (y as int) < (x as int + 1) * (x as int + 1),
                (y as int) < (z as int + 1) * (z as int + 1),
                x >= z ==> (z as int) * (z as int) <= y,
            decreases z,
        {
            proof {
                lemma_newton_step_above(y as int, x as int);
                vstd::arithmetic::div_mod::lemma_div_is_ordered_by_denominator(
                    y as int,
                    2,
                    x as int,
                );
                let n = (y as int / x as int + x as int) / 2;
                lemma_root_at_least_two(y as int, n);
                if n >= x as int {
                    lemma_newton_stop(y as int, x as int);
                }
            }
            z = x;
            x = (y / x + x) / 2;
        }
        proof {
            lemma_isqrt_is(y as int, z as int);
        }
        z
    } else if y != 0 {
        proof {
            assert(is_isqrt(y as int, 1)) by (nonlinear_arith)
                requires
                    1 <= y <= 3,
            ;
            lemma_isqrt_is(y as int, 1);
        }
        1
    } else {
        proof {
            assert(is_isqrt(0, 0)) by (nonlinear_arith);
            lemma_isqrt_is(0, 0);
        }
        0
    }
}

} // verus!
