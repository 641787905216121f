//! Integer geometry shared by the canvas, the graph and the widgets.
//!
//! Every coordinate handled by this crate is a whole number of units. Values
//! handed in by a caller are 32 bits wide; positions that the crate computes
//! are 64 bits wide, so that sums and interpolations of caller values never
//! wrap.

use vstd::prelude::*;
use vstd::arithmetic::div_mod::lemma_fundamental_div_mod;
use vstd::arithmetic::div_mod::lemma_fundamental_div_mod_converse;

verus! {

/// A position or an extent supplied by the caller.
#[derive(Clone, Copy, Debug, PartialEq, Eq)]
pub struct Vec2 {
    pub x: i32,
    pub y: i32,
}

/// A position computed by the crate, in the world space of the canvas.
#[derive(Clone, Copy, Debug, PartialEq, Eq)]
pub struct WorldPoint {
    pub x: i64,
    pub y: i64,
}

/// The most that a computed coordinate may be in size where the crate goes on
/// to offset it: far beyond any canvas, and with room left in 64 bits.
pub const REACH: i64 = 0x6000_0000_0000_0000;

impl WorldPoint {
    /// The point with the given coordinates.
    pub open spec fn at(x: int, y: int) -> WorldPoint {
        WorldPoint { x: x as i64, y: y as i64 }
    }

    /// Whether both coordinates are at most [`REACH`] in size.
    pub open spec fn in_reach(self) -> bool {
        &&& -REACH <= self.x <= REACH
        &&& -REACH <= self.y <= REACH
    }
}

/// Shorthand for building a [`Vec2`].
pub fn vec2(x: i32, y: i32) -> (v: Vec2)
    ensures
        v == (Vec2 { x, y }),
{
    Vec2 { x, y }
}

impl Vec2 {
    /// The same position in the wide representation.
    pub open spec fn widen(self) -> WorldPoint {
        WorldPoint { x: self.x as i64, y: self.y as i64 }
    }

    /// The same position in the wide representation.
    pub fn to_world(self) -> (p: WorldPoint)
        ensures
            p == self.widen(),
    {
        WorldPoint { x: self.x as i64, y: self.y as i64 }
    }
}

/// Half of `v`, rounded towards zero.
pub open spec fn half(v: int) -> int {
    if v >= 0 {
        v / 2
    } else {
        -((-v) / 2)
    }
}

/// Whether the two edges of a box along one axis, half of `size` on either
/// side of `center`, are 32-bit coordinates.
pub open spec fn edges_fit(center: int, size: int) -> bool {
    &&& i32::MIN <= center - half(size) <= i32::MAX
    &&& i32::MIN <= center + half(size) <= i32::MAX
}

/// Whether the four edges of the box of the given centre and size are 32-bit
/// coordinates.
pub fn box_fits(center: Vec2, size: Vec2) -> (fits: bool)
    ensures
        fits == (edges_fit(center.x as int, size.x as int) && edges_fit(
            center.y as int,
            size.y as int,
        )),
{
    let low: i64 = i32::MIN as i64;
    let high: i64 = i32::MAX as i64;
    let half_width: i64 = (size.x / 2) as i64;
    let half_height: i64 = (size.y / 2) as i64;
    let x: i64 = center.x as i64;
    let y: i64 = center.y as i64;
    low <= x - half_width && x - half_width <= high && low <= x + half_width && x + half_width
        <= high && low <= y - half_height && y - half_height <= high && low <= y + half_height && y
        + half_height <= high
}

/// The quotient of `x` by a positive `n`, rounded down to a whole number.
pub open spec fn floor_div(x: int, n: int) -> int {
    if x >= 0 {
        x / n
    } else {
        -((n - 1 - x) / n)
    }
}

/// Rounding down is what `/` does where the divisor is positive.
pub proof fn lemma_floor_div(x: int, n: int)
    requires
        n > 0,
    ensures
        floor_div(x, n) == x / n,
        n * floor_div(x, n) <= x < n * floor_div(x, n) + n,
{
    lemma_fundamental_div_mod(x, n);
    vstd::arithmetic::div_mod::lemma_mod_bound(x, n);
    if x < 0 {
        let y = n - 1 - x;
        lemma_fundamental_div_mod(y, n);
        vstd::arithmetic::div_mod::lemma_mod_bound(y, n);
        let q = y / n;
        let r = y % n;
        assert(x == (-q) * n + (n - 1 - r)) by (nonlinear_arith)
            requires
                y == n * q + r,
                y == n - 1 - x,
        ;
        lemma_fundamental_div_mod_converse(x, n, -q, n - 1 - r);
    }
    assert(n * (x / n) <= x < n * (x / n) + n);
}

/// The affine image of `val` when `[min1, max1]` is laid onto `[min2, max2]`:
/// `(val - min1) / (max1 - min1) * (max2 - min2) + min2`, computed exactly and
/// then rounded down to a whole number. Meaningful only for `min1 != max1`.
pub open spec fn map_value(val: int, min1: int, max1: int, min2: int, max2: int) -> int {
    if max1 > min1 {
        floor_div((val - min1) * (max2 - min2), max1 - min1) + min2
    } else {
        floor_div((min1 - val) * (max2 - min2), min1 - max1) + min2
    }
}

/// Quotient of `n` by a positive `d`, rounded down.
pub(crate) fn div_floor(n: i128, d: i128) -> (q: i128)
    requires
        d > 0,
        n > i128::MIN,
    ensures
        q == floor_div(n as int, d as int),
{
    proof {
        lemma_floor_div(n as int, d as int);
    }
    let t: i128 = n / d;
    let m: i128 = n % d;
    proof {
        if n >= 0 {
            assert(t == n / d);
            assert(m >= 0);
        } else {
            let p: int = -n;
            lemma_fundamental_div_mod(p, d as int);
            assert(0 <= p % (d as int) < d) by {
                vstd::arithmetic::div_mod::lemma_mod_bound(p, d as int);
            }
            assert(p / (d as int) >= 0) by {
                vstd::arithmetic::div_mod::lemma_div_pos_is_pos(p, d as int);
            }
            assert(p / (d as int) <= p) by {
                vstd::arithmetic::div_mod::lemma_div_nonincreasing(p, d as int);
            }
            assert(t == -(p / (d as int)));
            assert(m == -(p % (d as int)));
            if p % (d as int) == 0 {
                assert(n == (-(p / (d as int))) * d + 0) by (nonlinear_arith)
                    requires
                        p == d * (p / (d as int)) + p % (d as int),
                        p % (d as int) == 0,
                        n == -p,
                ;
                lemma_fundamental_div_mod_converse(n as int, d as int, -(p / (d as int)), 0);
            } else {
                let r: int = d - p % (d as int);
                assert(n == (-(p / (d as int)) - 1) * d + r) by (nonlinear_arith)
                    requires
                        p == d * (p / (d as int)) + p % (d as int),
                        r == d - p % (d as int),
                        n == -p,
                ;
                lemma_fundamental_div_mod_converse(n as int, d as int, -(p / (d as int)) - 1, r);
            }
        }
    }
    if m < 0 {
        t - 1
    } else {
        t
    }
}

/// [`map`](crate::map) for any arguments: the image is returned 128 bits wide,
/// which holds it wherever `val` lies.
pub fn map_wide(val: i32, min1: i32, max1: i32, min2: i32, max2: i32) -> (r: i128)
    requires
        min1 != max1,
    ensures
        r == map_value(val as int, min1 as int, max1 as int, min2 as int, max2 as int),
{
    let span: i128 = max2 as i128 - min2 as i128;
    let (offset, width): (i128, i128) = if max1 > min1 {
        (val as i128 - min1 as i128, max1 as i128 - min1 as i128)
    } else {
        (min1 as i128 - val as i128, min1 as i128 - max1 as i128)
    };
    assert(-0x1_0000_0000_0000_0000 <= offset * span <= 0x1_0000_0000_0000_0000)
        by (nonlinear_arith)
        requires
            -0x1_0000_0000 <= offset <= 0x1_0000_0000,
            -0x1_0000_0000 <= span <= 0x1_0000_0000,
    ;
    let product: i128 = offset * span;
    let q: i128 = div_floor(product, width);
    proof {
        lemma_floor_quotient_bound(product as int, width as int, 0x1_0000_0000_0000_0000);
    }
    q + min2 as i128
}

/// Whether the image of `val` fits the 64-bit result of [`map`].
pub open spec fn map_fits(val: int, min1: int, max1: int, min2: int, max2: int) -> bool {
    i64::MIN <= map_value(val, min1, max1, min2, max2) <= i64::MAX
}

/// The image of `val` is no further from `min2` than the product of the
/// distance of `val` from `min1` and the length of the target range.
pub proof fn lemma_map_bound(val: int, min1: int, max1: int, min2: int, max2: int, u: int, s: int)
    requires
        min1 != max1,
        -u <= val - min1 <= u,
        -s <= max2 - min2 <= s,
    ensures
        min2 - u * s <= map_value(val, min1, max1, min2, max2) <= min2 + u * s,
{
    let n = if max1 > min1 { max1 - min1 } else { min1 - max1 };
    let o = if max1 > min1 { val - min1 } else { min1 - val };
    let x = o * (max2 - min2);
    assert(-(u * s) <= x <= u * s) by (nonlinear_arith)
        requires
            x == o * (max2 - min2),
            -u <= o <= u,
            -s <= max2 - min2 <= s,
    ;
    lemma_floor_quotient_bound(x, n, u * s);
}

/// Rounding a quotient by a positive divisor down brings it no further from
/// zero than the dividend was.
pub proof fn lemma_floor_quotient_bound(x: int, n: int, bound: int)
    requires
        n >= 1,
        -bound <= x <= bound,
    ensures
        -bound <= floor_div(x, n) <= bound,
{
    lemma_floor_div(x, n);
    let q = floor_div(x, n);
    assert(-bound <= q <= bound) by (nonlinear_arith)
        requires
            n * q <= x < n * q + n,
            n >= 1,
            -bound <= x <= bound,
    ;
}

/// The start of the source range is sent to the start of the target range.
pub proof fn lemma_map_start(min1: int, max1: int, min2: int, max2: int)
    requires
        min1 != max1,
    ensures
        map_value(min1, min1, max1, min2, max2) == min2,
{
    let n = if max1 > min1 { max1 - min1 } else { min1 - max1 };
    assert(0 * (max2 - min2) == 0);
    assert(0int / n == 0) by (nonlinear_arith)
        requires
            n >= 1,
    ;
    lemma_floor_div(0, n);
}

/// The end of the source range is sent to the end of the target range.
pub proof fn lemma_map_end(min1: int, max1: int, min2: int, max2: int)
    requires
        min1 != max1,
    ensures
        map_value(max1, min1, max1, min2, max2) == max2,
{
    let n = if max1 > min1 { max1 - min1 } else { min1 - max1 };
    let s = max2 - min2;
    lemma_floor_div(n * s, n);
    assert(floor_div(n * s, n) == s) by (nonlinear_arith)
        requires
            n * floor_div(n * s, n) <= n * s < n * floor_div(n * s, n) + n,
            n >= 1,
    ;
}

/// A value within the source range is sent into the target range, whichever
/// way either range runs.
pub proof fn lemma_map_in_range(val: int, min1: int, max1: int, min2: int, max2: int)
    requires
        min1 != max1,
        min1 <= val <= max1 || max1 <= val <= min1,
    ensures
        min2 <= map_value(val, min1, max1, min2, max2) <= max2 || max2 <= map_value(
            val,
            min1,
            max1,
            min2,
            max2,
        ) <= min2,
        min2 <= max2 ==> min2 <= map_value(val, min1, max1, min2, max2) <= max2,
        max2 <= min2 ==> max2 <= map_value(val, min1, max1, min2, max2) <= min2,
{
    let n = if max1 > min1 { max1 - min1 } else { min1 - max1 };
    let o = if max1 > min1 { val - min1 } else { min1 - val };
    let s = max2 - min2;
    let x = o * s;
    lemma_floor_div(x, n);
    let q = floor_div(x, n);
    if s >= 0 {
        assert(0 <= q <= s) by (nonlinear_arith)
            requires
                x == o * s,
                0 <= o <= n,
                s >= 0,
                n >= 1,
                n * q <= x < n * q + n,
        ;
    } else {
        assert(s <= q <= 0) by (nonlinear_arith)
            requires
                x == o * s,
                0 <= o <= n,
                s < 0,
                n >= 1,
                n * q <= x < n * q + n,
        ;
    }
}

/// Whether the image of `val` is the exact one, with nothing rounded off: it
/// divides the target range in the ratio in which `val` divides the source
/// range.
pub open spec fn map_is_exact(val: int, min1: int, max1: int, min2: int, max2: int) -> bool {
    (map_value(val, min1, max1, min2, max2) - min2) * (max1 - min1) == (val - min1) * (max2
        - min2)
}

/// Mapping a value onto another range and back returns it where its image is
/// exact. Where the image was rounded, the result differs from the value by
/// at most the length of the first range divided by that of the second,
/// rounded up; where the second range is at least as long as the first, that
/// is at most 1.
pub proof fn lemma_map_round_trip(val: int, min1: int, max1: int, min2: int, max2: int)
    requires
        min1 != max1,
        min2 != max2,
    ensures
        ({
            let there = map_value(val, min1, max1, min2, max2);
            let back = map_value(there, min2, max2, min1, max1);
            let n = if max1 > min1 { max1 - min1 } else { min1 - max1 };
            let m = if max2 > min2 { max2 - min2 } else { min2 - max2 };
            let slack = (n + m - 1) / m;
            &&& map_is_exact(val, min1, max1, min2, max2) ==> back == val
            &&& val - slack <= back <= val + slack
            &&& m >= n ==> slack == 1
        }),
{
    let n = if max1 > min1 { max1 - min1 } else { min1 - max1 };
    let m = if max2 > min2 { max2 - min2 } else { min2 - max2 };
    let slack = (n + m - 1) / m;
    lemma_fundamental_div_mod(n + m - 1, m);
    vstd::arithmetic::div_mod::lemma_mod_bound(n + m - 1, m);
    assert(n <= m * slack <= n + m - 1) by (nonlinear_arith)
        requires
            n + m - 1 == m * slack + (n + m - 1) % m,
            0 <= (n + m - 1) % m < m,
    ;
    if m >= n {
        assert(slack == 1) by (nonlinear_arith)
            requires
                n <= m * slack <= n + m - 1,
                1 <= n <= m,
        ;
    }
    let o = if max1 > min1 { val - min1 } else { min1 - val };
    let x1 = o * (max2 - min2);
    let w = floor_div(x1, n);
    lemma_floor_div(x1, n);
    let there = map_value(val, min1, max1, min2, max2);
    assert(there == w + min2);
    let o2 = if max2 > min2 { there - min2 } else { min2 - there };
    let x2 = o2 * (max1 - min1);
    let b = floor_div(x2, m);
    lemma_floor_div(x2, m);
    let back = map_value(there, min2, max2, min1, max1);
    assert(back == b + min1);
    if map_is_exact(val, min1, max1, min2, max2) {
        assert(x2 == m * (val - min1)) by (nonlinear_arith)
            requires
                (there - min2) * (max1 - min1) == (val - min1) * (max2 - min2),
                x2 == o2 * (max1 - min1),
                o2 == if max2 > min2 { there - min2 } else { min2 - there },
                m == if max2 > min2 { max2 - min2 } else { min2 - max2 },
                m >= 1,
        ;
        assert(b == val - min1) by (nonlinear_arith)
            requires
                m * b <= x2 < m * b + m,
                x2 == m * (val - min1),
                m >= 1,
        ;
    }
    if max1 > min1 && max2 > min2 {
        assert(val - min1 - slack <= b <= val - min1) by (nonlinear_arith)
            requires
                n * w <= x1 < n * w + n,
                m * b <= x2 < m * b + m,
                x1 == (val - min1) * m,
                x2 == w * n,
                n <= m * slack,
                n >= 1,
                m >= 1,
        ;
    } else if max1 > min1 && max2 < min2 {
        assert(val - min1 <= b <= val - min1 + slack) by (nonlinear_arith)
            requires
                n * w <= x1 < n * w + n,
                m * b <= x2 < m * b + m,
                x1 == (val - min1) * (-m),
                x2 == (-w) * n,
                n <= m * slack,
                n >= 1,
                m >= 1,
        ;
    } else if max1 < min1 && max2 > min2 {
        assert(val - min1 <= b <= val - min1 + slack) by (nonlinear_arith)
            requires
                n * w <= x1 < n * w + n,
                m * b <= x2 < m * b + m,
                x1 == (min1 - val) * m,
                x2 == w * (-n),
                n <= m * slack,
                n >= 1,
                m >= 1,
        ;
    } else {
        assert(val - min1 - slack <= b <= val - min1) by (nonlinear_arith)
            requires
                n * w <= x1 < n * w + n,
                m * b <= x2 < m * b + m,
                x1 == (min1 - val) * (-m),
                x2 == (-w) * (-n),
                n <= m * slack,
                n >= 1,
                m >= 1,
        ;
    }
}

/// With 32-bit arguments and a target range no longer than 2^31, the image
/// fits the result of [`map`](crate::map).
pub proof fn lemma_map_fits(val: i32, min1: i32, max1: i32, min2: i32, max2: i32)
    requires
        min1 != max1,
        -0x8000_0000 <= max2 - min2 <= 0x8000_0000,
    ensures
        map_fits(val as int, min1 as int, max1 as int, min2 as int, max2 as int),
{
    lemma_map_bound(
        val as int,
        min1 as int,
        max1 as int,
        min2 as int,
        max2 as int,
        0xffff_ffff,
        0x8000_0000,
    );
}

} // verus!
