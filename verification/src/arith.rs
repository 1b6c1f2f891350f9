//! The mathematical model behind the calculator: two's-complement
//! wrap-around of an unbounded integer into `i32`, and division of unbounded
//! integers that truncates toward zero.

use vstd::arithmetic::div_mod::{
    lemma_div_is_ordered_by_denominator, lemma_div_pos_is_pos, lemma_fundamental_div_mod,
    lemma_mod_bound,
};
use vstd::prelude::*;

verus! {

/// The `i32` that the integer `x` wraps to: the only value in
/// `i32::MIN ..= i32::MAX` that differs from `x` by a multiple of 2^32.
pub open spec fn wrap(x: int) -> i32 {
    ((x + 0x8000_0000) % 0x1_0000_0000 - 0x8000_0000) as i32
}

/// `wrap(x)` differs from `x` by a multiple of 2^32, and it is the only
/// `i32` that does.
pub proof fn lemma_wrap_is_the_residue(x: int, y: i32)
    ensures
        (wrap(x) - x) % 0x1_0000_0000 == 0,
        (y - x) % 0x1_0000_0000 == 0 ==> y == wrap(x),
{
}

/// The distance of `x` from zero.
#[verifier::inline]
pub open spec fn magnitude(x: int) -> int {
    if x < 0 {
        -x
    } else {
        x
    }
}

/// The quotient of `a` by `b` rounded toward zero: the magnitude is the
/// floor of `|a| / |b|`, and the sign is negative exactly when the signs of
/// `a` and `b` differ.
pub open spec fn trunc_div(a: int, b: int) -> int
    recommends
        b != 0,
{
    let quotient = magnitude(a) / magnitude(b);
    if (a < 0) == (b < 0) {
        quotient
    } else {
        -quotient
    }
}

/// What is left of `a` once `trunc_div(a, b)` copies of `b` are taken away.
pub open spec fn trunc_rem(a: int, b: int) -> int
    recommends
        b != 0,
{
    a - trunc_div(a, b) * b
}

/// `trunc_div` is division that truncates toward zero: the remainder is
/// smaller in magnitude than the divisor and never has the sign opposite to
/// the dividend's.
pub proof fn lemma_trunc_div_truncates(a: int, b: int)
    requires
        b != 0,
    ensures
        a == trunc_div(a, b) * b + trunc_rem(a, b),
        magnitude(trunc_rem(a, b)) < magnitude(b),
        a >= 0 ==> trunc_rem(a, b) >= 0,
        a <= 0 ==> trunc_rem(a, b) <= 0,
{
    let n = magnitude(a);
    let d = magnitude(b);
    lemma_fundamental_div_mod(n, d);
    lemma_mod_bound(n, d);
    let m = n / d;
    assert(n == d * m + n % d);
    assert(trunc_div(a, b) * b == (if a < 0 { -(d * m) } else { d * m })) by (nonlinear_arith)
        requires
            b != 0,
            d == (if b < 0 { -b } else { b }),
            trunc_div(a, b) == (if (a < 0) == (b < 0) { m } else { -m }),
    ;
}

/// The truncated quotient of two `i32` values fits in an `i32`, with one
/// exception: `i32::MIN / -1`, which is 2^31.
pub proof fn lemma_trunc_div_fits(a: i32, b: i32)
    requires
        b != 0,
    ensures
        !(a == i32::MIN && b == -1) ==> i32::MIN <= trunc_div(a as int, b as int) <= i32::MAX,
        a == i32::MIN && b == -1 ==> trunc_div(a as int, b as int) == 0x8000_0000,
{
    let n = magnitude(a as int);
    let d = magnitude(b as int);
    lemma_div_pos_is_pos(n, d);
    lemma_div_is_ordered_by_denominator(n, 1, d);
    if d >= 2 {
        lemma_div_is_ordered_by_denominator(n, 2, d);
    }
}

/// Euclidean division by a negative divisor: the quotient changes sign with
/// the divisor.
proof fn lemma_div_by_negated(x: int, d: int)
    requires
        d > 0,
    ensures
        x / (-d) == -(x / d),
{
    let q = x / d;
    let r = x % d;
    let q_neg = x / (-d);
    let r_neg = x % (-d);
    assert(x == d * q + r && 0 <= r < d) by (nonlinear_arith)
        requires
            d > 0,
            q == x / d,
            r == x % d,
    ;
    assert(x == (-d) * q_neg + r_neg && 0 <= r_neg < d) by (nonlinear_arith)
        requires
            d > 0,
            q_neg == x / (-d),
            r_neg == x % (-d),
    ;
    assert(q_neg == -q) by (nonlinear_arith)
        requires
            d > 0,
            d * q + r == (-d) * q_neg + r_neg,
            0 <= r < d,
            0 <= r_neg < d,
    ;
}

/// `trunc_div` written with Euclidean division, which is what `/` means on
/// `int`: the two agree on a dividend that is not negative, and a negative
/// dividend is negated before and after.
pub proof fn lemma_trunc_div_as_euclidean(a: int, b: int)
    requires
        b != 0,
    ensures
        trunc_div(a, b) == (if a >= 0 {
            a / b
        } else {
            -((-a) / b)
        }),
{
    if b < 0 {
        lemma_div_by_negated(magnitude(a), -b);
    }
}

} // verus!
