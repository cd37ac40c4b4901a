//! Integer plane geometry: points, squared distances and integer square
//! roots, the arithmetic every other module builds on.

use vstd::prelude::*;

verus! {

/// A position on the canvas, in integer pixel coordinates.
#[derive(Clone, Copy, Debug, PartialEq, Eq, Structural)]
pub struct Point {
    pub x: i64,
    pub y: i64,
}

impl Point {
    pub fn new(x: i64, y: i64) -> (p: Point)
        ensures
            p == (Point { x, y }),
    {
        Point { x, y }
    }
}

/// Largest magnitude a coordinate may have when a squared distance is
/// taken: differences of two such coordinates can be squared and summed
/// in an `i64` without overflow.
pub const DIST_LIMIT: i64 = 1_000_000_000;

/// Largest value `isqrt` accepts; it is exactly the largest squared
/// distance of two points whose coordinates stay within `DIST_LIMIT`.
pub const SQUARE_LIMIT: i64 = 8_000_000_000_000_000_000;

/// True when both coordinates of `p` lie within `limit` of the origin.
pub open spec fn in_range(p: Point, limit: int) -> bool {
    -limit <= p.x <= limit && -limit <= p.y <= limit
}

/// The squared Euclidean distance between two points.
pub open spec fn dist_sq(a: Point, b: Point) -> int {
    (a.x - b.x) * (a.x - b.x) + (a.y - b.y) * (a.y - b.y)
}

/// Squares are monotone over the non-negative integers.
pub proof fn lemma_square_mono(a: int, b: int)
    requires
        0 <= a <= b,
    ensures
        a * a <= b * b,
{
    assert(a * a <= b * b) by (nonlinear_arith)
        requires
            0 <= a <= b,
    ;
}

/// A number bounded in magnitude has a bounded, non-negative square.
pub proof fn lemma_square_bound(x: int, b: int)
    requires
        -b <= x <= b,
    ensures
        0 <= x * x <= b * b,
{
    assert(0 <= x * x <= b * b) by (nonlinear_arith)
        requires
            -b <= x <= b,
    ;
}

/// The squared distance between two points, computed exactly.
pub fn dist_sq_i64(a: Point, b: Point) -> (r: i64)
    requires
        in_range(a, DIST_LIMIT as int),
        in_range(b, DIST_LIMIT as int),
    ensures
        r == dist_sq(a, b),
        0 <= r <= SQUARE_LIMIT,
{
    proof {
        lemma_square_bound(a.x - b.x, 2 * DIST_LIMIT as int);
        lemma_square_bound(a.y - b.y, 2 * DIST_LIMIT as int);
        assert((2 * DIST_LIMIT as int) * (2 * DIST_LIMIT as int)
            == 4_000_000_000_000_000_000) by (nonlinear_arith);
    }
    let dx: i64 = a.x - b.x;
    let dy: i64 = a.y - b.y;
    dx * dx + dy * dy
}

/// The integer square root: the greatest `r` with `r * r <= n`
/// (and `0` for non-positive `n`).
pub open spec fn sqrt_floor(n: int) -> int
    decreases n,
{
    if n <= 0 {
        0
    } else {
        let r = sqrt_floor(n - 1);
        if (r + 1) * (r + 1) <= n {
            r + 1
        } else {
            r
        }
    }
}

/// `sqrt_floor(n)` brackets `n` between consecutive squares.
pub proof fn lemma_sqrt_floor(n: int)
    requires
        0 <= n,
    ensures
        0 <= sqrt_floor(n),
        sqrt_floor(n) * sqrt_floor(n) <= n,
        n < (sqrt_floor(n) + 1) * (sqrt_floor(n) + 1),
    decreases n,
{
    if n == 0 {
        assert(sqrt_floor(0) == 0);
    } else {
        lemma_sqrt_floor(n - 1);
        let r = sqrt_floor(n - 1);
        if (r + 1) * (r + 1) <= n {
            assert((r + 2) * (r + 2) > n) by (nonlinear_arith)
                requires
                    0 <= r,
                    n - 1 < (r + 1) * (r + 1),
                    (r + 1) * (r + 1) <= n,
            ;
        }
    }
}

/// Any `r` bracketing `n` between `r * r` and `(r + 1) * (r + 1)` is the
/// integer square root.
pub proof fn lemma_sqrt_floor_unique(n: int, r: int)
    requires
        0 <= r,
        r * r <= n,
        n < (r + 1) * (r + 1),
    ensures
        r == sqrt_floor(n),
{
    lemma_sqrt_floor(n);
    let s = sqrt_floor(n);
    if s < r {
        lemma_square_mono(s + 1, r);
    }
    if r < s {
        lemma_square_mono(r + 1, s);
    }
}

/// Taking the square root never exceeds the (non-negative) number whose
/// square bounds `n` from above.
pub proof fn lemma_sqrt_floor_le(n: int, b: int)
    requires
        0 <= n,
        0 <= b,
        n <= b * b,
    ensures
        sqrt_floor(n) <= b,
{
    lemma_sqrt_floor(n);
    let s = sqrt_floor(n);
    if b < s {
        lemma_square_mono(b + 1, s);
        assert((b + 1) * (b + 1) > b * b) by (nonlinear_arith)
            requires
                0 <= b,
        ;
    }
}

/// A coordinate whose square is at most `n` is at most `sqrt_floor(n)`.
pub proof fn lemma_sqrt_floor_ge(n: int, m: int)
    requires
        0 <= m,
        m * m <= n,
    ensures
        m <= sqrt_floor(n),
{
    lemma_sqrt_floor(n);
    let s = sqrt_floor(n);
    if s < m {
        lemma_square_mono(s + 1, m);
    }
}

/// The integer square root, by bisection.
pub fn isqrt(n: i64) -> (r: i64)
    requires
        0 <= n <= SQUARE_LIMIT,
    ensures
        r == sqrt_floor(n as int),
        0 <= r <= 2_900_000_000,
{
    if n == 0 {
        proof {
            lemma_sqrt_floor_unique(0, 0);
        }
        return 0;
    }
    let mut lo: i64 = 0;
    let mut hi: i64 = 2_900_000_000;
    proof {
        assert(2_900_000_000int * 2_900_000_000 > SQUARE_LIMIT as int) by (nonlinear_arith);
    }
    while lo + 1 < hi
        invariant
            0 <= lo < hi <= 2_900_000_000,
            lo * lo <= n,
            n < hi * hi,
        decreases hi - lo,
    {
        let mid: i64 = lo + (hi - lo) / 2;
        proof {
            lemma_square_bound(mid as int, 2_900_000_000int);
            assert(2_900_000_000int * 2_900_000_000 < i64::MAX as int) by (nonlinear_arith);
        }
        if mid * mid <= n {
            lo = mid;
        } else {
            hi = mid;
        }
    }
    proof {
        lemma_sqrt_floor_unique(n as int, lo as int);
    }
    lo
}

/// Halving rounded toward zero, as `/ 2` behaves on the machine
/// integers.
pub open spec fn half_toward_zero(a: int) -> int {
    if a >= 0 {
        a / 2
    } else {
        -((-a) / 2)
    }
}

/// Division rounded to the nearest integer, ties away from zero, for a
/// positive divisor.
pub open spec fn round_div(a: int, b: int) -> int
    recommends
        0 < b,
{
    if a >= 0 {
        (2 * a + b) / (2 * b)
    } else {
        -((2 * (-a) + b) / (2 * b))
    }
}

/// Largest magnitude `round_div_i64` accepts for either operand.
pub const ROUND_DIV_LIMIT: i64 = 2_000_000_000_000_000_000;

pub fn round_div_i64(a: i64, b: i64) -> (r: i64)
    requires
        0 < b <= ROUND_DIV_LIMIT,
        -ROUND_DIV_LIMIT <= a <= ROUND_DIV_LIMIT,
    ensures
        r == round_div(a as int, b as int),
{
    if a >= 0 {
        (2 * a + b) / (2 * b)
    } else {
        -((2 * (-a) + b) / (2 * b))
    }
}

/// The rounded quotient differs from the true quotient by at most one,
/// so its magnitude is bounded by the magnitude of `a / b` plus one.
pub proof fn lemma_round_div_bound(a: int, b: int, m: int)
    requires
        0 < b,
        -(m * b) <= a <= m * b,
        0 <= m,
    ensures
        -(m + 1) <= round_div(a, b) <= m + 1,
{
    if a >= 0 {
        assert(2 * a + b <= (2 * m + 1) * b) by (nonlinear_arith)
            requires
                a <= m * b,
                0 < b,
        ;
        assert((2 * a + b) / (2 * b) <= m) by (nonlinear_arith)
            requires
                0 < b,
                0 <= a,
                2 * a + b <= (2 * m + 1) * b,
                0 <= m,
        ;
        assert(0 <= (2 * a + b) / (2 * b)) by (nonlinear_arith)
            requires
                0 < b,
                0 <= a,
        ;
    } else {
        assert(2 * (-a) + b <= (2 * m + 1) * b) by (nonlinear_arith)
            requires
                -(m * b) <= a,
                a < 0,
                0 < b,
        ;
        assert((2 * (-a) + b) / (2 * b) <= m) by (nonlinear_arith)
            requires
                0 < b,
                a < 0,
                2 * (-a) + b <= (2 * m + 1) * b,
                0 <= m,
        ;
        assert(0 <= (2 * (-a) + b) / (2 * b)) by (nonlinear_arith)
            requires
                0 < b,
                a < 0,
        ;
    }
}

} // verus!
