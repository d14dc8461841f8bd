//! Monetary amounts are whole cents. Rounding to the cent is half away from
//! zero, which for amounts that are not negative is the usual half-up rule.

use vstd::prelude::*;

verus! {

/// Absolute value of an integer.
pub open spec fn abs(n: int) -> int {
    if n < 0 {
        -n
    } else {
        n
    }
}

/// The quotient `n / d` rounded to the nearest integer, a tie going away from
/// zero. Only meaningful for `d != 0`.
pub open spec fn round_div(n: int, d: int) -> int
    recommends
        d != 0,
{
    let q = (2 * abs(n) + abs(d)) / (2 * abs(d));
    if (n < 0) != (d < 0) {
        -q
    } else {
        q
    }
}

/// `round_div(n, d)` is the integer nearest to the exact quotient: twice its
/// distance from `n / d`, measured in units of `1 / d`, is at most `|d|`, and a
/// tie is resolved away from zero.
pub proof fn lemma_round_div_is_nearest(n: int, d: int)
    requires
        d != 0,
    ensures
        abs(2 * (round_div(n, d) * d - n)) <= abs(d),
        abs(round_div(n, d) * d) >= abs(n) || abs(2 * (round_div(n, d) * d - n)) < abs(d),
{
    let a = abs(n);
    let b = abs(d);
    let q = (2 * a + b) / (2 * b);
    let r = (2 * a + b) % (2 * b);
    assert((2 * a + b) == (2 * b) * q + r && 0 <= r < 2 * b) by {
        vstd::arithmetic::div_mod::lemma_fundamental_div_mod(2 * a + b, 2 * b);
        vstd::arithmetic::div_mod::lemma_mod_bound(2 * a + b, 2 * b);
    }
    assert(q >= 0) by {
        vstd::arithmetic::div_mod::lemma_div_pos_is_pos(2 * a + b, 2 * b);
    }
    assert(2 * (q * b - a) == b - r) by (nonlinear_arith)
        requires
            (2 * a + b) == (2 * b) * q + r,
    ;
    let rd = round_div(n, d);
    assert(abs(rd * d) == q * b && abs(2 * (rd * d - n)) == abs(2 * (q * b - a)))
        by (nonlinear_arith)
        requires
            a == abs(n),
            b == abs(d),
            q >= 0,
            d != 0,
            rd == (if (n < 0) != (d < 0) {
                -q
            } else {
                q
            }),
    ;
}

/// The largest magnitude that `rounded_quotient` takes.
pub const ROUNDING_LIMIT: i128 = 0x1000_0000_0000_0000_0000_0000_0000_0000;

/// Whether `rounded_quotient` can round `n / d`: the divisor is not zero, and
/// both numbers are below the limit in magnitude.
pub open spec fn can_round(n: int, d: int) -> bool {
    &&& d != 0
    &&& -ROUNDING_LIMIT < n < ROUNDING_LIMIT
    &&& -ROUNDING_LIMIT < d < ROUNDING_LIMIT
}

/// Rounds `n / d` to the nearest integer, ties away from zero; `None` where
/// the divisor is zero or a number is beyond the limit.
pub fn rounded_quotient(n: i128, d: i128) -> (q: Option<i128>)
    ensures
        q == if can_round(n as int, d as int) {
            Some(round_div(n as int, d as int) as i128)
        } else {
            None
        },
        can_round(n as int, d as int) ==> i128::MIN <= round_div(n as int, d as int) <= i128::MAX,
{
    if d == 0 || n <= -ROUNDING_LIMIT || n >= ROUNDING_LIMIT || d <= -ROUNDING_LIMIT || d
        >= ROUNDING_LIMIT {
        None
    } else {
        Some(rounded(n, d))
    }
}

/// Rounds `n / d` to the nearest integer, ties away from zero.
pub(crate) fn rounded(n: i128, d: i128) -> (q: i128)
    requires
        can_round(n as int, d as int),
    ensures
        q == round_div(n as int, d as int),
{
    let a: i128 = if n < 0 {
        -n
    } else {
        n
    };
    let b: i128 = if d < 0 {
        -d
    } else {
        d
    };
    let q: i128 = (2 * a + b) / (2 * b);
    if (n < 0) != (d < 0) {
        -q
    } else {
        q
    }
}

} // verus!
