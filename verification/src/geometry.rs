//! Integer geometry of the play field: points, squared distances, integer
//! square roots and straight-line movement toward a waypoint.
//!
//! Positions are integers in field units. A movement step is a distance in
//! the same units. All arithmetic is exact: distances are compared by their
//! squares, and the only rounding is the one spelled out in
//! [`axis_advance`].

use vstd::arithmetic::div_mod::lemma_fundamental_div_mod;
use vstd::arithmetic::div_mod::lemma_multiply_divide_lt;
use vstd::prelude::*;

verus! {

/// A position on the play field, in integer field units.
#[derive(Clone, Copy, Debug, PartialEq, Eq, Structural)]
pub struct Point {
    pub x: i32,
    pub y: i32,
}

/// The square of the Euclidean distance between two points.
pub open spec fn distance_squared(a: Point, b: Point) -> int {
    (b.x - a.x) * (b.x - a.x) + (b.y - a.y) * (b.y - a.y)
}

/// `r` is the integer square root of `n`, rounded down.
pub open spec fn is_floor_sqrt(n: int, r: int) -> bool {
    0 <= r && r * r <= n && n < (r + 1) * (r + 1)
}

/// The integer square root of `n`, rounded down (for `n >= 0`).
pub open spec fn floor_sqrt(n: int) -> int {
    choose|r: int| is_floor_sqrt(n, r)
}

/// A step of length `step` from `from` covers the whole way to `to`.
pub open spec fn reaches(from: Point, to: Point, step: int) -> bool {
    distance_squared(from, to) <= step * step
}

/// How far a step of length `step` moves along one axis, when the whole
/// way is `dist` long and its extent along that axis is `delta`: the
/// quotient `delta * step / dist`, rounded to the nearest integer, halves
/// away from zero.
pub open spec fn axis_advance(delta: int, step: int, dist: int) -> int {
    if delta >= 0 {
        (2 * delta * step + dist) / (2 * dist)
    } else {
        -((2 * (-delta) * step + dist) / (2 * dist))
    }
}

/// Where a step of length `step` from `from` toward `to` ends: at `to` if
/// the step covers the whole way, else between the two, each coordinate
/// advanced in proportion and rounded. (The rounding may carry a step that
/// falls just short of the way onto `to`; `to` then counts as reached with
/// the next step.)
pub open spec fn step_toward(from: Point, to: Point, step: int) -> Point {
    if reaches(from, to, step) {
        to
    } else {
        let dist = floor_sqrt(distance_squared(from, to));
        Point {
            x: (from.x + axis_advance(to.x - from.x, step, dist)) as i32,
            y: (from.y + axis_advance(to.y - from.y, step, dist)) as i32,
        }
    }
}

/// `v` lies between `a` and `b`, ends included, whichever is the smaller.
pub open spec fn between(v: int, a: int, b: int) -> bool {
    (a <= v && v <= b) || (b <= v && v <= a)
}

/// Every natural number has an integer square root.
pub proof fn lemma_floor_sqrt_exists(n: int) -> (r: int)
    requires
        0 <= n,
    ensures
        is_floor_sqrt(n, r),
    decreases n,
{
    if n == 0 {
        0
    } else {
        let below = lemma_floor_sqrt_exists(n - 1);
        let above = below + 1;
        if above * above <= n {
            assert(above * above < (above + 1) * (above + 1)) by (nonlinear_arith)
                requires
                    0 <= above,
            ;
            above
        } else {
            assert(is_floor_sqrt(n, below));
            below
        }
    }
}

/// The integer square root is unique.
pub proof fn lemma_floor_sqrt_unique(n: int, a: int, b: int)
    requires
        is_floor_sqrt(n, a),
        is_floor_sqrt(n, b),
    ensures
        a == b,
{
    if a < b {
        assert((a + 1) * (a + 1) <= b * b) by (nonlinear_arith)
            requires
                0 <= a,
                a + 1 <= b,
        ;
    } else if b < a {
        assert((b + 1) * (b + 1) <= a * a) by (nonlinear_arith)
            requires
                0 <= b,
                b + 1 <= a,
        ;
    }
}

/// `floor_sqrt` is the integer square root: its square is at most `n`, and
/// the square of its successor is more.
pub proof fn lemma_floor_sqrt(n: int)
    requires
        0 <= n,
    ensures
        is_floor_sqrt(n, floor_sqrt(n)),
{
    let r = lemma_floor_sqrt_exists(n);
    assert(is_floor_sqrt(n, r));
}

/// A step toward a waypoint never leaves the box spanned by the start and
/// the waypoint: on each axis the new coordinate lies between the old one
/// and the waypoint's, so the step cannot overshoot.
pub proof fn lemma_step_toward_between(from: Point, to: Point, step: int)
    requires
        0 <= step,
    ensures
        between(step_toward(from, to, step).x as int, from.x as int, to.x as int),
        between(step_toward(from, to, step).y as int, from.y as int, to.y as int),
{
    if !reaches(from, to, step) {
        let dsq = distance_squared(from, to);
        assert(dsq >= 0) by (nonlinear_arith)
            requires
                dsq == (to.x - from.x) * (to.x - from.x) + (to.y - from.y) * (to.y - from.y),
        ;
        lemma_floor_sqrt(dsq);
        let dist = floor_sqrt(dsq);
        lemma_step_shorter_than_way(dsq, step, dist);
        lemma_axis_advance_bounded(to.x - from.x, step, dist);
        lemma_axis_advance_bounded(to.y - from.y, step, dist);
    }
}

/// A step of length zero leaves the position where it is.
pub proof fn lemma_step_toward_zero(from: Point, to: Point)
    ensures
        step_toward(from, to, 0) == from,
{
    let dsq = distance_squared(from, to);
    let dx = to.x - from.x;
    let dy = to.y - from.y;
    assert(dx * dx >= 0 && dy * dy >= 0 && (dx != 0 ==> dx * dx > 0) && (dy != 0 ==> dy * dy > 0))
        by (nonlinear_arith);
    if reaches(from, to, 0) {
        assert(dx == 0 && dy == 0);
    } else {
        lemma_floor_sqrt(dsq);
        let dist = floor_sqrt(dsq);
        lemma_step_shorter_than_way(dsq, 0, dist);
        lemma_axis_advance_bounded(dx, 0, dist);
        lemma_axis_advance_bounded(dy, 0, dist);
        lemma_axis_advance_still(dx, dist);
        lemma_axis_advance_still(dy, dist);
    }
}

/// A step of length one or more moves: a point that is not yet on the
/// waypoint does not stay where it is.
pub proof fn lemma_step_toward_moves(from: Point, to: Point, step: int)
    requires
        1 <= step,
        from != to,
    ensures
        step_toward(from, to, step) != from,
{
    if !reaches(from, to, step) {
        let dsq = distance_squared(from, to);
        let dx = to.x - from.x;
        let dy = to.y - from.y;
        assert(step * step >= 1) by (nonlinear_arith)
            requires
                1 <= step,
        ;
        lemma_floor_sqrt(dsq);
        let dist = floor_sqrt(dsq);
        lemma_step_shorter_than_way(dsq, step, dist);
        lemma_axis_advance_bounded(dx, step, dist);
        lemma_axis_advance_bounded(dy, step, dist);
        let mx = if dx >= 0 {
            dx
        } else {
            -dx
        };
        let my = if dy >= 0 {
            dy
        } else {
            -dy
        };
        assert(mx * mx == dx * dx && my * my == dy * dy) by (nonlinear_arith)
            requires
                mx == dx || mx == -dx,
                my == dy || my == -dy,
        ;
        if mx >= my {
            lemma_longer_axis_advances(mx, my, step, dist);
        } else {
            lemma_longer_axis_advances(my, mx, step, dist);
        }
    }
}

/// A step of length one or more brings the point nearer: the distance to
/// a waypoint that the point is not yet on grows smaller with the step. So
/// a bug that keeps walking reaches its waypoint.
pub proof fn lemma_step_toward_nearer(from: Point, to: Point, step: int)
    requires
        1 <= step,
        from != to,
    ensures
        distance_squared(step_toward(from, to, step), to) < distance_squared(from, to),
{
    let dx = to.x - from.x;
    let dy = to.y - from.y;
    if reaches(from, to, step) {
        assert(dx * dx + dy * dy > 0) by (nonlinear_arith)
            requires
                dx != 0 || dy != 0,
        ;
    } else {
        let dsq = distance_squared(from, to);
        assert(dsq >= 0) by (nonlinear_arith)
            requires
                dsq == dx * dx + dy * dy,
        ;
        lemma_floor_sqrt(dsq);
        let dist = floor_sqrt(dsq);
        lemma_step_shorter_than_way(dsq, step, dist);
        lemma_axis_advance_bounded(dx, step, dist);
        lemma_axis_advance_bounded(dy, step, dist);
        lemma_step_toward_moves(from, to, step);
        let ax = axis_advance(dx, step, dist);
        let ay = axis_advance(dy, step, dist);
        assert((dx - ax) * (dx - ax) <= dx * dx && (ax != 0 ==> (dx - ax) * (dx - ax) < dx * dx))
            by (nonlinear_arith)
            requires
                (0 <= ax <= dx) || (dx <= ax <= 0),
        ;
        assert((dy - ay) * (dy - ay) <= dy * dy && (ay != 0 ==> (dy - ay) * (dy - ay) < dy * dy))
            by (nonlinear_arith)
            requires
                (0 <= ay <= dy) || (dy <= ay <= 0),
        ;
    }
}

/// Along the axis on which the way is longer, a step of length one or
/// more advances by one or more.
proof fn lemma_longer_axis_advances(m: int, other: int, step: int, dist: int)
    requires
        0 <= other <= m,
        1 <= step,
        1 <= dist,
        dist * dist <= m * m + other * other,
    ensures
        1 <= (2 * m * step + dist) / (2 * dist),
{
    assert(other * other <= m * m) by (nonlinear_arith)
        requires
            0 <= other <= m,
    ;
    if dist > 2 * m {
        assert(dist * dist > 2 * (m * m)) by (nonlinear_arith)
            requires
                dist > 2 * m,
                0 <= m,
                1 <= dist,
        ;
    }
    assert(2 * m * step >= 2 * m) by (nonlinear_arith)
        requires
            0 <= m,
            1 <= step,
    ;
    let num = 2 * m * step + dist;
    lemma_fundamental_div_mod(num, 2 * dist);
    assert(1 <= num / (2 * dist)) by (nonlinear_arith)
        requires
            num >= 2 * dist,
            0 < 2 * dist,
            num == (2 * dist) * (num / (2 * dist)) + num % (2 * dist),
            0 <= num % (2 * dist) < 2 * dist,
    ;
}

/// Where the step does not cover the way, it is at most as long as the
/// rounded-down length of the way, which is then at least one.
proof fn lemma_step_shorter_than_way(dsq: int, step: int, dist: int)
    requires
        0 <= step,
        step * step < dsq,
        is_floor_sqrt(dsq, dist),
    ensures
        step <= dist,
        1 <= dist,
{
    if dist < step {
        assert((dist + 1) * (dist + 1) <= step * step) by (nonlinear_arith)
            requires
                0 <= dist,
                dist + 1 <= step,
        ;
    }
    if dist == 0 {
        assert(step * step >= 0 && (dist + 1) * (dist + 1) == 1) by (nonlinear_arith)
            requires
                dist == 0,
        ;
    }
}

/// With a step no longer than the way, the advance along an axis has the
/// sign of the axis extent and is no larger than it.
proof fn lemma_axis_advance_bounded(delta: int, step: int, dist: int)
    requires
        0 <= step <= dist,
        1 <= dist,
    ensures
        delta >= 0 ==> 0 <= axis_advance(delta, step, dist) <= delta,
        delta < 0 ==> delta <= axis_advance(delta, step, dist) <= 0,
{
    let m = if delta >= 0 {
        delta
    } else {
        -delta
    };
    lemma_magnitude_advance_bounded(m, step, dist);
}

/// The rounded quotient `m * step / dist` of a magnitude `m` is at most `m`
/// when `step <= dist`.
proof fn lemma_magnitude_advance_bounded(m: int, step: int, dist: int)
    requires
        0 <= m,
        0 <= step <= dist,
        1 <= dist,
    ensures
        0 <= (2 * m * step + dist) / (2 * dist) <= m,
{
    let num = 2 * m * step + dist;
    assert(0 <= 2 * m * step && 2 * m * step <= 2 * m * dist) by (nonlinear_arith)
        requires
            0 <= m,
            0 <= step <= dist,
    ;
    assert(num < (2 * dist) * (m + 1)) by (nonlinear_arith)
        requires
            num <= 2 * m * dist + dist,
            1 <= dist,
    ;
    lemma_multiply_divide_lt(num, 2 * dist, m + 1);
    lemma_fundamental_div_mod(num, 2 * dist);
    assert(0 <= num / (2 * dist)) by (nonlinear_arith)
        requires
            0 <= num,
            0 < 2 * dist,
            num == (2 * dist) * (num / (2 * dist)) + num % (2 * dist),
            0 <= num % (2 * dist) < 2 * dist,
    ;
}

/// A step of length zero advances no axis.
proof fn lemma_axis_advance_still(delta: int, dist: int)
    requires
        1 <= dist,
    ensures
        axis_advance(delta, 0, dist) == 0,
{
    assert(2 * delta * 0 == 0 && 2 * (-delta) * 0 == 0) by (nonlinear_arith);
    assert(dist / (2 * dist) == 0) by {
        lemma_multiply_divide_lt(dist, 2 * dist, 1);
        lemma_fundamental_div_mod(dist, 2 * dist);
        assert(0 <= dist / (2 * dist)) by (nonlinear_arith)
            requires
                0 < 2 * dist,
                dist == (2 * dist) * (dist / (2 * dist)) + dist % (2 * dist),
                0 <= dist % (2 * dist) < 2 * dist,
                1 <= dist,
        ;
    }
}

/// Computes the integer square root of `n`, rounded down.
pub fn isqrt(n: u128) -> (r: u64)
    ensures
        is_floor_sqrt(n as int, r as int),
        r == floor_sqrt(n as int),
{
    let mut lo: u128 = 0;
    let mut hi: u128 = 0x1_0000_0000_0000_0000;
    assert(n < hi * hi) by (nonlinear_arith)
        requires
            hi == 0x1_0000_0000_0000_0000,
            n <= u128::MAX,
    ;
    while hi - lo > 1
        invariant
            lo < hi <= 0x1_0000_0000_0000_0000,
            lo * lo <= n < hi * hi,
        decreases hi - lo,
    {
        let mid: u128 = lo + (hi - lo) / 2;
        assert(mid * mid <= u128::MAX) by (nonlinear_arith)
            requires
                mid < 0x1_0000_0000_0000_0000,
        ;
        if mid * mid <= n {
            lo = mid;
        } else {
            hi = mid;
        }
    }
    proof {
        lemma_floor_sqrt(n as int);
        lemma_floor_sqrt_unique(n as int, lo as int, floor_sqrt(n as int));
    }
    lo as u64
}

/// The distance along one axis from `from` to `to`, without its sign.
fn axis_extent(from: i32, to: i32) -> (m: u128)
    ensures
        m == (if to >= from {
            to - from
        } else {
            from - to
        }),
        m < 0x1_0000_0000,
{
    if to >= from {
        (to as i64 - from as i64) as u128
    } else {
        (from as i64 - to as i64) as u128
    }
}

/// One coordinate of the point that a step ends at, short of the waypoint.
fn advance_axis(from: i32, to: i32, step: u128, dist: u64) -> (v: i32)
    requires
        step <= dist,
        1 <= dist,
    ensures
        v == from + axis_advance(to - from, step as int, dist as int),
        between(v as int, from as int, to as int),
{
    let m = axis_extent(from, to);
    proof {
        lemma_magnitude_advance_bounded(m as int, step as int, dist as int);
        assert(2 * m * step <= 2 * m * dist) by (nonlinear_arith)
            requires
                0 <= m,
                0 <= step <= dist,
        ;
        assert(2 * m * dist < 0x2_0000_0000 * 0x1_0000_0000_0000_0000) by (nonlinear_arith)
            requires
                0 <= m < 0x1_0000_0000,
                0 <= dist < 0x1_0000_0000_0000_0000,
        ;
        assert(2 * m * step == (2 * m) * step) by (nonlinear_arith);
    }
    let q: u128 = (2 * m * step + dist as u128) / (2 * dist as u128);
    if to >= from {
        (from as i64 + q as i64) as i32
    } else {
        (from as i64 - q as i64) as i32
    }
}

impl Point {
    /// Builds the point with the given coordinates.
    pub fn new(x: i32, y: i32) -> (p: Point)
        ensures
            p == (Point { x, y }),
    {
        Point { x, y }
    }

    /// Moves this point toward `target` by a step of length `step`, and
    /// says whether the step covered the whole way. A step that does ends
    /// exactly on the target; a shorter one ends between the two.
    pub fn move_towards(&mut self, target: Point, step: u128) -> (arrived: bool)
        ensures
            arrived == reaches(*old(self), target, step as int),
            *final(self) == step_toward(*old(self), target, step as int),
    {
        let mx = axis_extent(self.x, target.x);
        let my = axis_extent(self.y, target.y);
        proof {
            assert(mx * mx < 0x1_0000_0000 * 0x1_0000_0000 && my * my < 0x1_0000_0000
                * 0x1_0000_0000) by (nonlinear_arith)
                requires
                    0 <= mx < 0x1_0000_0000,
                    0 <= my < 0x1_0000_0000,
            ;
            assert(mx * mx == (target.x - self.x) * (target.x - self.x)) by (nonlinear_arith)
                requires
                    mx == target.x - self.x || mx == -(target.x - self.x),
            ;
            assert(my * my == (target.y - self.y) * (target.y - self.y)) by (nonlinear_arith)
                requires
                    my == target.y - self.y || my == -(target.y - self.y),
            ;
        }
        let dsq: u128 = mx * mx + my * my;
        if step >= 0x2_0000_0000 {
            assert(dsq <= step * step) by (nonlinear_arith)
                requires
                    dsq < 0x2_0000_0000 * 0x1_0000_0000,
                    step >= 0x2_0000_0000,
            ;
            *self = target;
            return true;
        }
        assert(step * step < 0x2_0000_0000 * 0x2_0000_0000) by (nonlinear_arith)
            requires
                0 <= step < 0x2_0000_0000,
        ;
        if dsq <= step * step {
            *self = target;
            return true;
        }
        let dist = isqrt(dsq);
        proof {
            lemma_step_shorter_than_way(dsq as int, step as int, dist as int);
        }
        let x = advance_axis(self.x, target.x, step, dist);
        let y = advance_axis(self.y, target.y, step, dist);
        *self = Point { x, y };
        false
    }
}

} // verus!
