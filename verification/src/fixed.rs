//! Fixed-point scalars: an `i64` that counts millionths.
//!
//! A pixel coordinate of `12.5` is held as `12_500_000`, a factor of `0.2` as
//! `200_000`. Whenever a quotient has to land on that grid again it is rounded
//! to the nearest unit, a tie going upward; [`nearest`] is that rule, and the
//! lemmas below are what the rest of the crate knows about it.
use vstd::prelude::*;

verus! {

/// The fixed-point value of `1.0`.
pub const ONE: i64 = 1_000_000;

/// The largest magnitude of a coordinate that the crate accepts or produces:
/// a billion pixels either side of the origin.
pub const COORD_MAX: i64 = 1_000_000_000_000_000;

/// The largest magnitude of a cell origin that a target quad is built on.
/// It leaves room below [`COORD_MAX`] for the quad's own extent.
pub const ORIGIN_MAX: i64 = 900_000_000_000_000;

/// The largest viewport side, padding or font metric: a million pixels.
pub const SPAN_MAX: i64 = 1_000_000_000_000;

/// The largest side of a cell: ten thousand pixels.
pub const CELL_MAX: i64 = 10_000_000_000;

/// The largest line or column index of a grid point.
pub const GRID_MAX: usize = 65_535;

/// The largest magnitude of a thickness ratio: a thousand cell widths.
pub const RATIO_MAX: i64 = 1_000_000_000;

/// Whether `x` is a coordinate the crate can work with.
pub open spec fn in_range(x: int) -> bool {
    -COORD_MAX <= x <= COORD_MAX
}

/// The integer nearest to the exact quotient `n / d`, for a positive `d`.
/// Where two integers are equally near, the larger one is taken.
pub open spec fn nearest(n: int, d: int) -> int {
    (2 * n + d) / (2 * d)
}

/// `x` held to the interval from `lo` to `hi`.
pub open spec fn clamp(x: int, lo: int, hi: int) -> int {
    if x < lo {
        lo
    } else if x > hi {
        hi
    } else {
        x
    }
}

/// The magnitude of `x`.
pub open spec fn abs(x: int) -> int {
    if x < 0 {
        -x
    } else {
        x
    }
}

/// `nearest(n, d)` is the one integer `q` with `q - 1/2 <= n / d < q + 1/2`.
pub proof fn lemma_nearest_bounds(n: int, d: int)
    requires
        d > 0,
    ensures
        (2 * nearest(n, d) - 1) * d <= 2 * n,
        2 * n < (2 * nearest(n, d) + 1) * d,
{
    let q = nearest(n, d);
    vstd::arithmetic::div_mod::lemma_fundamental_div_mod(2 * n + d, 2 * d);
    vstd::arithmetic::div_mod::lemma_mod_bound(2 * n + d, 2 * d);
    assert((2 * d) * q == 2 * q * d) by (nonlinear_arith);
    assert((2 * q - 1) * d == 2 * q * d - d) by (nonlinear_arith);
    assert((2 * q + 1) * d == 2 * q * d + d) by (nonlinear_arith);
}

/// Any integer within half a unit of the exact quotient is the nearest one.
pub proof fn lemma_nearest_unique(n: int, d: int, q: int)
    requires
        d > 0,
        (2 * q - 1) * d <= 2 * n,
        2 * n < (2 * q + 1) * d,
    ensures
        nearest(n, d) == q,
{
    let r = 2 * n + d - q * (2 * d);
    assert((2 * q - 1) * d == q * (2 * d) - d) by (nonlinear_arith);
    assert((2 * q + 1) * d == q * (2 * d) + d) by (nonlinear_arith);
    vstd::arithmetic::div_mod::lemma_fundamental_div_mod_converse(2 * n + d, 2 * d, q, r);
}

/// An exact multiple rounds to its factor.
pub proof fn lemma_nearest_exact(k: int, d: int)
    requires
        d > 0,
    ensures
        nearest(k * d, d) == k,
{
    assert((2 * k - 1) * d <= 2 * (k * d) < (2 * k + 1) * d) by (nonlinear_arith)
        requires
            d > 0,
    ;
    lemma_nearest_unique(k * d, d, k);
}

/// Whole multiples of the divisor pass through the rounding.
pub proof fn lemma_nearest_shift(n: int, k: int, d: int)
    requires
        d > 0,
    ensures
        nearest(n + k * d, d) == k + nearest(n, d),
{
    let q = nearest(n, d);
    lemma_nearest_bounds(n, d);
    assert((2 * (k + q) - 1) * d == (2 * q - 1) * d + 2 * (k * d)) by (nonlinear_arith);
    assert((2 * (k + q) + 1) * d == (2 * q + 1) * d + 2 * (k * d)) by (nonlinear_arith);
    lemma_nearest_unique(n + k * d, d, k + q);
}

/// Rounding keeps the order of the numerators.
pub proof fn lemma_nearest_monotone(a: int, b: int, d: int)
    requires
        d > 0,
        a <= b,
    ensures
        nearest(a, d) <= nearest(b, d),
{
    vstd::arithmetic::div_mod::lemma_div_is_ordered(2 * a + d, 2 * b + d, 2 * d);
}

/// A quotient is no larger in magnitude than a bound that its numerator
/// keeps to, in units of the divisor.
pub proof fn lemma_nearest_magnitude(n: int, d: int, bound: int)
    requires
        d > 0,
        -(bound * d) <= n <= bound * d,
    ensures
        -bound <= nearest(n, d) <= bound,
{
    assert((-bound) * d == -(bound * d)) by (nonlinear_arith);
    lemma_nearest_exact(-bound, d);
    lemma_nearest_exact(bound, d);
    lemma_nearest_monotone(-(bound * d), n, d);
    lemma_nearest_monotone(n, bound * d, d);
}

/// A common positive factor of numerator and divisor does not change the
/// rounded quotient.
pub proof fn lemma_nearest_cancel(n: int, d: int, c: int)
    requires
        d > 0,
        c > 0,
    ensures
        nearest(n * c, d * c) == nearest(n, d),
{
    let q = nearest(n, d);
    lemma_nearest_bounds(n, d);
    assert(d * c > 0) by (nonlinear_arith)
        requires
            d > 0,
            c > 0,
    ;
    assert((2 * q - 1) * (d * c) <= 2 * (n * c)) by (nonlinear_arith)
        requires
            (2 * q - 1) * d <= 2 * n,
            c > 0,
    ;
    assert(2 * (n * c) < (2 * q + 1) * (d * c)) by (nonlinear_arith)
        requires
            2 * n < (2 * q + 1) * d,
            c > 0,
    ;
    lemma_nearest_unique(n * c, d * c, q);
}

/// The floor of `n / d` for a positive `d`, also where `n` is negative.
pub fn div_floor(n: i128, d: i128) -> (q: i128)
    requires
        d > 0,
    ensures
        q == n as int / d as int,
{
    if n >= 0 {
        n / d
    } else {
        // -(n + 1) is the magnitude of `n` less one, which cannot overflow.
        let m: i128 = -(n + 1);
        let q: i128 = -(m / d) - 1;
        proof {
            let mi = m as int;
            let di = d as int;
            vstd::arithmetic::div_mod::lemma_fundamental_div_mod(mi, di);
            vstd::arithmetic::div_mod::lemma_mod_bound(mi, di);
            let r = di - 1 - mi % di;
            assert((-(mi / di) - 1) * di == -(di * (mi / di)) - di) by (nonlinear_arith);
            vstd::arithmetic::div_mod::lemma_fundamental_div_mod_converse(
                n as int,
                di,
                -(mi / di) - 1,
                r,
            );
        }
        q
    }
}

/// `n / d` rounded to the nearest integer, a tie going upward.
pub fn div_nearest(n: i128, d: i128) -> (q: i128)
    requires
        0 < d,
        2 * d <= i128::MAX,
        i128::MIN <= 2 * n,
        2 * n + d <= i128::MAX,
    ensures
        q == nearest(n as int, d as int),
{
    div_floor(2 * n + d, 2 * d)
}

} // verus!
