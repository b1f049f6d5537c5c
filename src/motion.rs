//! Mouse paths along cubic Bezier curves.
//!
//! Coordinates are whole screen pixels. Every sample of a curve is computed
//! exactly, as a rational number rounded toward zero, so the first sample is
//! the start and the last sample is the end, with no rounding drift.
use crate::random::{chance, random_in};
use vstd::prelude::*;

verus! {

/// Largest coordinate, in absolute value, of a path's start and end.
pub const PATH_LIMIT: i64 = 2_000_000_000;

/// Largest number of segments in one path.
pub const MAX_PATH_STEPS: usize = 100_000;

/// Chance, in percent, that the second control point overshoots the target.
pub const OVERSHOOT_PERCENT: u32 = 20;

/// A screen coordinate in whole pixels.
#[derive(Clone, Copy, Debug, PartialEq, Eq)]
pub struct Point {
    pub x: i64,
    pub y: i64,
}

pub open spec fn within_path_limit(p: Point) -> bool {
    -PATH_LIMIT <= p.x <= PATH_LIMIT && -PATH_LIMIT <= p.y <= PATH_LIMIT
}

/// Division rounded toward zero, as the machine divides.
pub open spec fn trunc_div(a: int, b: int) -> int {
    if a >= 0 {
        a / b
    } else {
        -((-a) / b)
    }
}

pub open spec fn is_floor_sqrt(n: int, r: int) -> bool {
    0 <= r && r * r <= n && n < (r + 1) * (r + 1)
}

/// The largest natural number whose square is at most `n`.
pub open spec fn floor_sqrt(n: nat) -> nat {
    choose|r: nat| is_floor_sqrt(n as int, r as int)
}

pub open spec fn squared_distance(a: Point, b: Point) -> nat {
    ((b.x - a.x) * (b.x - a.x) + (b.y - a.y) * (b.y - a.y)) as nat
}

/// Euclidean distance between two points, rounded down.
pub open spec fn distance(a: Point, b: Point) -> nat {
    floor_sqrt(squared_distance(a, b))
}

/// Bound of the random offset of each control point: 30% of the distance.
pub open spec fn offset_bound(d: nat) -> int {
    (d * 3 / 10) as int
}

/// Overshoot of the second control point: 5% of the distance, rounded up.
pub open spec fn overshoot_amount(d: nat) -> int {
    ((d + 19) / 20) as int
}

/// The random parts of one path: the offsets of both control points and
/// whether the second one overshoots.
#[derive(Clone, Copy, Debug, PartialEq, Eq)]
pub struct PathDraws {
    pub c1_dx: i64,
    pub c1_dy: i64,
    pub c2_dx: i64,
    pub c2_dy: i64,
    pub overshoot: bool,
}

pub open spec fn draws_in_range(start: Point, end: Point, d: PathDraws) -> bool {
    let b = offset_bound(distance(start, end));
    &&& -b <= d.c1_dx <= b
    &&& -b <= d.c1_dy <= b
    &&& -b <= d.c2_dx <= b
    &&& -b <= d.c2_dy <= b
}

/// Displacement along one axis in the direction of travel.
pub open spec fn toward(from: int, to: int, amount: int) -> int {
    if to > from {
        amount
    } else {
        -amount
    }
}

/// First control point: a quarter of the way, plus its offsets.
pub open spec fn control_one(s: Point, e: Point, d: PathDraws) -> (int, int) {
    (s.x + trunc_div(e.x - s.x, 4) + d.c1_dx, s.y + trunc_div(e.y - s.y, 4) + d.c1_dy)
}

/// Second control point: three quarters of the way, plus its offsets and,
/// when drawn, the overshoot along the direction of travel.
pub open spec fn control_two(s: Point, e: Point, d: PathDraws) -> (int, int) {
    let ov = if d.overshoot {
        overshoot_amount(distance(s, e))
    } else {
        0
    };
    (
        s.x + trunc_div(3 * (e.x - s.x), 4) + d.c2_dx + toward(s.x as int, e.x as int, ov),
        s.y + trunc_div(3 * (e.y - s.y), 4) + d.c2_dy + toward(s.y as int, e.y as int, ov),
    )
}

/// One coordinate of the cubic Bezier curve at parameter `i / n`.
pub open spec fn bezier_coord(from: int, ctrl1: int, ctrl2: int, to: int, i: int, n: int) -> int {
    let a = n - i;
    trunc_div(
        a * a * a * from + 3 * a * a * i * ctrl1 + 3 * a * i * i * ctrl2 + i * i * i * to,
        n * n * n,
    )
}

/// Sample `i` of the path from `s` to `e` in `n` segments.
pub open spec fn path_sample(s: Point, e: Point, d: PathDraws, i: int, n: int) -> (int, int) {
    if n == 0 {
        (s.x as int, s.y as int)
    } else {
        let c1 = control_one(s, e, d);
        let c2 = control_two(s, e, d);
        (
            bezier_coord(s.x as int, c1.0, c2.0, e.x as int, i, n),
            bezier_coord(s.y as int, c1.1, c2.1, e.y as int, i, n),
        )
    }
}

/// `path` holds the `steps + 1` samples of the curve drawn with `d`.
pub open spec fn is_path(path: Seq<Point>, s: Point, e: Point, d: PathDraws, steps: nat) -> bool {
    &&& path.len() == steps + 1
    &&& forall|i: int|
        0 <= i < path.len() ==> (#[trigger] path[i].x as int, path[i].y as int) == path_sample(
            s,
            e,
            d,
            i,
            steps as int,
        )
}

proof fn lemma_floor_sqrt_unique(n: int, r1: int, r2: int)
    requires
        is_floor_sqrt(n, r1),
        is_floor_sqrt(n, r2),
    ensures
        r1 == r2,
{
    if r1 < r2 {
        assert((r1 + 1) * (r1 + 1) <= r2 * r2) by (nonlinear_arith)
            requires
                0 <= r1 < r2,
        ;
    } else if r2 < r1 {
        assert((r2 + 1) * (r2 + 1) <= r1 * r1) by (nonlinear_arith)
            requires
                0 <= r2 < r1,
        ;
    }
}

/// Integer square root, rounded down.
pub fn isqrt(n: u128) -> (r: u64)
    requires
        n < 0x4_0000_0000_0000_0000,
    ensures
        r == floor_sqrt(n as nat),
        is_floor_sqrt(n as int, r as int),
        r < 0x2_0000_0000,
{
    let mut lo: u128 = 0;
    let mut hi: u128 = 0x2_0000_0000;
    assert(hi * hi == 0x4_0000_0000_0000_0000u128);
    while hi - lo > 1
        invariant
            lo < hi <= 0x2_0000_0000,
            lo * lo <= n,
            n < hi * hi,
        decreases hi - lo,
    {
        let mid = lo + (hi - lo) / 2;
        assert(mid * mid <= 0x4_0000_0000_0000_0000) by (nonlinear_arith)
            requires
                mid < 0x2_0000_0000,
        ;
        if mid * mid <= n {
            lo = mid;
        } else {
            hi = mid;
        }
    }
    proof {
        assert(is_floor_sqrt(n as int, lo as int));
        let c = choose|r: nat| is_floor_sqrt(n as int, r as int);
        lemma_floor_sqrt_unique(n as int, lo as int, c as int);
    }
    lo as u64
}

/// Rounded-down distance between two points within the path limit.
pub fn distance_between(a: Point, b: Point) -> (r: u64)
    requires
        within_path_limit(a),
        within_path_limit(b),
    ensures
        r == distance(a, b),
        r <= 3 * PATH_LIMIT,
{
    let dx = b.x as i128 - a.x as i128;
    let dy = b.y as i128 - a.y as i128;
    assert(dx * dx <= 16_000_000_000_000_000_000) by (nonlinear_arith)
        requires
            -4_000_000_000 <= dx <= 4_000_000_000,
    ;
    assert(dy * dy <= 16_000_000_000_000_000_000) by (nonlinear_arith)
        requires
            -4_000_000_000 <= dy <= 4_000_000_000,
    ;
    assert(0 <= dx * dx && 0 <= dy * dy) by (nonlinear_arith);
    let sq = (dx * dx + dy * dy) as u128;
    let r = isqrt(sq);
    proof {
        let rr = r as int;
        assert(rr <= 3 * PATH_LIMIT) by (nonlinear_arith)
            requires
                rr * rr <= 32_000_000_000_000_000_000,
                0 <= rr,
        ;
    }
    r
}

/// The two control points of the path from `start` to `end` drawn with `d`.
pub fn control_points(start: Point, end: Point, d: &PathDraws) -> (r: ((i64, i64), (i64, i64)))
    requires
        within_path_limit(start),
        within_path_limit(end),
        draws_in_range(start, end, *d),
    ensures
        (r.0.0 as int, r.0.1 as int) == control_one(start, end, *d),
        (r.1.0 as int, r.1.1 as int) == control_two(start, end, *d),
        within_control_limit(r.0.0),
        within_control_limit(r.0.1),
        within_control_limit(r.1.0),
        within_control_limit(r.1.1),
{
    let dist = distance_between(start, end);
    let dist_x = end.x - start.x;
    let dist_y = end.y - start.y;
    let c1 = (start.x + dist_x / 4 + d.c1_dx, start.y + dist_y / 4 + d.c1_dy);
    let ov: i64 = if d.overshoot {
        ((dist + 19) / 20) as i64
    } else {
        0
    };
    let shift_x = if end.x > start.x {
        ov
    } else {
        -ov
    };
    let shift_y = if end.y > start.y {
        ov
    } else {
        -ov
    };
    let c2 = (
        start.x + (3 * dist_x) / 4 + d.c2_dx + shift_x,
        start.y + (3 * dist_y) / 4 + d.c2_dy + shift_y,
    );
    (c1, c2)
}

pub open spec fn within_control_limit(v: i64) -> bool {
    -5 * PATH_LIMIT <= v <= 5 * PATH_LIMIT
}

proof fn lemma_cube_bounds(a: int, b: int, n: int)
    requires
        0 <= a <= n,
        0 <= b <= n,
        0 < n <= MAX_PATH_STEPS,
    ensures
        0 <= a * a * a <= n * n * n,
        0 <= 3 * a * a * b <= 3 * (n * n * n),
        0 <= 3 * a * b * b <= 3 * (n * n * n),
        0 <= b * b * b <= n * n * n,
        0 < n * n * n <= 1_000_000_000_000_000,
        0 <= a * a <= 10_000_000_000,
        0 <= b * b <= 10_000_000_000,
        0 <= 3 * a <= 300_000,
        0 <= 3 * a * a <= 30_000_000_000,
        0 <= 3 * a * b <= 30_000_000_000,
        0 <= n * n <= 10_000_000_000,
{
    assert(0 <= a * a <= n * n) by (nonlinear_arith)
        requires
            0 <= a <= n,
    ;
    assert(0 <= b * b <= n * n) by (nonlinear_arith)
        requires
            0 <= b <= n,
    ;
    assert(0 <= a * b <= n * n) by (nonlinear_arith)
        requires
            0 <= a <= n,
            0 <= b <= n,
    ;
    assert(0 <= a * a * a <= n * n * n) by (nonlinear_arith)
        requires
            0 <= a <= n,
            0 <= a * a <= n * n,
    ;
    assert(0 <= a * a * b <= n * n * n) by (nonlinear_arith)
        requires
            0 <= b <= n,
            0 <= a * a <= n * n,
    ;
    assert(0 <= a * b * b <= n * n * n) by (nonlinear_arith)
        requires
            0 <= b <= n,
            0 <= a * b <= n * n,
    ;
    assert(0 <= b * b * b <= n * n * n) by (nonlinear_arith)
        requires
            0 <= b <= n,
            0 <= b * b <= n * n,
    ;
    assert(0 < n * n * n <= 1_000_000_000_000_000) by (nonlinear_arith)
        requires
            0 < n <= 100_000,
    ;
    assert(n * n <= 10_000_000_000) by (nonlinear_arith)
        requires
            0 < n <= 100_000,
    ;
    assert(3 * a * a * b == 3 * (a * a * b)) by (nonlinear_arith);
    assert(3 * a * b * b == 3 * (a * b * b)) by (nonlinear_arith);
    assert(3 * a * a == 3 * (a * a)) by (nonlinear_arith);
    assert(3 * a * b == 3 * (a * b)) by (nonlinear_arith);
}

proof fn lemma_product_bound(w: int, wmax: int, c: int, cmax: int)
    requires
        0 <= w <= wmax,
        -cmax <= c <= cmax,
    ensures
        -(wmax * cmax) <= w * c <= wmax * cmax,
{
    assert(-(wmax * cmax) <= w * c <= wmax * cmax) by (nonlinear_arith)
        requires
            0 <= w <= wmax,
            -cmax <= c <= cmax,
    ;
}

pub(crate) proof fn lemma_trunc_div_bound(num: int, den: int, k: int)
    requires
        0 < den,
        0 <= k,
        -(k * den) <= num <= k * den,
    ensures
        -k <= trunc_div(num, den) <= k,
{
    if num >= 0 {
        assert(num / den <= k) by (nonlinear_arith)
            requires
                0 <= num <= k * den,
                0 < den,
        ;
        assert(num / den >= 0) by (nonlinear_arith)
            requires
                0 <= num,
                0 < den,
        ;
    } else {
        assert((-num) / den <= k) by (nonlinear_arith)
            requires
                0 <= -num <= k * den,
                0 < den,
        ;
        assert((-num) / den >= 0) by (nonlinear_arith)
            requires
                0 <= -num,
                0 < den,
        ;
    }
}

/// One coordinate of the cubic Bezier curve at parameter `i / n`.
pub fn bezier_coordinate(from: i64, ctrl1: i64, ctrl2: i64, to: i64, i: usize, n: usize) -> (r: i64)
    requires
        0 < n <= MAX_PATH_STEPS,
        i <= n,
        within_control_limit(from),
        within_control_limit(ctrl1),
        within_control_limit(ctrl2),
        within_control_limit(to),
    ensures
        r == bezier_coord(from as int, ctrl1 as int, ctrl2 as int, to as int, i as int, n as int),
{
    let a = (n - i) as i128;
    let b = i as i128;
    let nn = n as i128;
    proof {
        lemma_cube_bounds(a as int, b as int, nn as int);
    }
    let w0 = a * a * a;
    let w1 = 3 * a * a * b;
    let w2 = 3 * a * b * b;
    let w3 = b * b * b;
    let den = nn * nn * nn;
    let c = 5 * PATH_LIMIT as i128;
    proof {
        let big = 3 * (den as int);
        lemma_product_bound(w0 as int, big, from as int, c as int);
        lemma_product_bound(w1 as int, big, ctrl1 as int, c as int);
        lemma_product_bound(w2 as int, big, ctrl2 as int, c as int);
        lemma_product_bound(w3 as int, big, to as int, c as int);
        assert(big * c <= 3_000_000_000_000_000 * 10_000_000_000) by (nonlinear_arith)
            requires
                0 < big <= 3_000_000_000_000_000,
                c == 10_000_000_000,
        ;
    }
    let num = w0 * (from as i128) + w1 * (ctrl1 as i128) + w2 * (ctrl2 as i128) + w3 * (to as i128);
    let q = num / den;
    proof {
        assert(-(12 * c * den) <= num <= 12 * c * den) by (nonlinear_arith)
            requires
                -(3 * den * c) <= w0 * from <= 3 * den * c,
                -(3 * den * c) <= w1 * ctrl1 <= 3 * den * c,
                -(3 * den * c) <= w2 * ctrl2 <= 3 * den * c,
                -(3 * den * c) <= w3 * to <= 3 * den * c,
                num == w0 * from + w1 * ctrl1 + w2 * ctrl2 + w3 * to,
        ;
        lemma_trunc_div_bound(num as int, den as int, 12 * c);
        assert(w1 == 3 * a * a * (i as int));
    }
    q as i64
}

/// The `steps + 1` samples of the curve from `start` to `end` drawn with `d`.
pub fn bezier_path(start: Point, end: Point, steps: usize, d: &PathDraws) -> (r: Vec<Point>)
    requires
        within_path_limit(start),
        within_path_limit(end),
        steps <= MAX_PATH_STEPS,
        draws_in_range(start, end, *d),
    ensures
        is_path(r@, start, end, *d, steps as nat),
{
    let (c1, c2) = control_points(start, end, d);
    let mut path: Vec<Point> = Vec::new();
    let mut i: usize = 0;
    while i <= steps
        invariant
            i <= steps + 1,
            steps <= MAX_PATH_STEPS,
            path@.len() == i,
            (c1.0 as int, c1.1 as int) == control_one(start, end, *d),
            (c2.0 as int, c2.1 as int) == control_two(start, end, *d),
            within_control_limit(c1.0),
            within_control_limit(c1.1),
            within_control_limit(c2.0),
            within_control_limit(c2.1),
            within_path_limit(start),
            within_path_limit(end),
            forall|j: int|
                0 <= j < i ==> (#[trigger] path@[j].x as int, path@[j].y as int) == path_sample(
                    start,
                    end,
                    *d,
                    j,
                    steps as int,
                ),
        decreases steps + 1 - i,
    {
        let p = if steps == 0 {
            start
        } else {
            Point {
                x: bezier_coordinate(start.x, c1.0, c2.0, end.x, i, steps),
                y: bezier_coordinate(start.y, c1.1, c2.1, end.y, i, steps),
            }
        };
        path.push(p);
        i = i + 1;
    }
    path
}

proof fn lemma_trunc_div_multiple(p: int, k: int)
    requires
        0 < k,
    ensures
        trunc_div(p * k, k) == p,
{
    if p >= 0 {
        vstd::arithmetic::div_mod::lemma_div_by_multiple(p, k);
        assert(p * k >= 0) by (nonlinear_arith)
            requires
                p >= 0,
                k > 0,
        ;
    } else {
        vstd::arithmetic::div_mod::lemma_div_by_multiple(-p, k);
        assert(p * k < 0) by (nonlinear_arith)
            requires
                p < 0,
                k > 0,
        ;
        assert(-(p * k) == (-p) * k) by (nonlinear_arith);
    }
}

/// A path starts at its start point and, when it has at least one segment,
/// ends exactly at its end point; it always has `steps + 1` points.
pub proof fn lemma_path_endpoints(path: Seq<Point>, s: Point, e: Point, d: PathDraws, steps: nat)
    requires
        is_path(path, s, e, d, steps),
    ensures
        path.len() == steps + 1,
        path[0] == s,
        steps > 0 ==> path[steps as int] == e,
{
    assert((path[0].x as int, path[0].y as int) == path_sample(s, e, d, 0, steps as int));
    if steps > 0 {
        let n = steps as int;
        let c1 = control_one(s, e, d);
        let c2 = control_two(s, e, d);
        assert(n * n * n > 0) by (nonlinear_arith)
            requires
                n > 0,
        ;
        lemma_trunc_div_multiple(s.x as int, n * n * n);
        lemma_trunc_div_multiple(s.y as int, n * n * n);
        lemma_trunc_div_multiple(e.x as int, n * n * n);
        lemma_trunc_div_multiple(e.y as int, n * n * n);
        assert(bezier_coord(s.x as int, c1.0, c2.0, e.x as int, 0, n) == s.x) by {
            assert((n - 0) * (n - 0) * (n - 0) * s.x + 3 * (n - 0) * (n - 0) * 0 * c1.0 + 3 * (n - 0) * 0 * 0 * c2.0 + 0 * 0 * 0 * e.x == s.x * (n * n * n)) by (nonlinear_arith);
        }
        assert(bezier_coord(s.y as int, c1.1, c2.1, e.y as int, 0, n) == s.y) by {
            assert((n - 0) * (n - 0) * (n - 0) * s.y + 3 * (n - 0) * (n - 0) * 0 * c1.1 + 3 * (n - 0) * 0 * 0 * c2.1 + 0 * 0 * 0 * e.y == s.y * (n * n * n)) by (nonlinear_arith);
        }
        assert(bezier_coord(s.x as int, c1.0, c2.0, e.x as int, n, n) == e.x) by {
            assert((n - n) * (n - n) * (n - n) * s.x + 3 * (n - n) * (n - n) * n * c1.0 + 3 * (n - n) * n * n * c2.0 + n * n * n * e.x == e.x * (n * n * n)) by (nonlinear_arith);
        }
        assert(bezier_coord(s.y as int, c1.1, c2.1, e.y as int, n, n) == e.y) by {
            assert((n - n) * (n - n) * (n - n) * s.y + 3 * (n - n) * (n - n) * n * c1.1 + 3 * (n - n) * n * n * c2.1 + n * n * n * e.y == e.y * (n * n * n)) by (nonlinear_arith);
        }
        assert((path[n].x as int, path[n].y as int) == path_sample(s, e, d, n, n));
    }
}

/// When drawn, the overshoot moves the second control point strictly further
/// along each axis on which the path travels, in the direction of travel.
pub proof fn lemma_overshoot_follows_travel(s: Point, e: Point, d: PathDraws)
    requires
        d.overshoot,
    ensures
        ({
            let plain = PathDraws { overshoot: false, ..d };
            let with = control_two(s, e, d);
            let without = control_two(s, e, plain);
            &&& e.x > s.x ==> with.0 > without.0
            &&& e.x < s.x ==> with.0 < without.0
            &&& e.y > s.y ==> with.1 > without.1
            &&& e.y < s.y ==> with.1 < without.1
        }),
{
    let n = squared_distance(s, e);
    let r = distance(s, e);
    let dx = e.x - s.x;
    let dy = e.y - s.y;
    assert(dx * dx >= 0 && dy * dy >= 0) by (nonlinear_arith);
    if dx != 0 || dy != 0 {
        assert(dx * dx + dy * dy >= 1) by (nonlinear_arith)
            requires
                dx != 0 || dy != 0,
        ;
        lemma_floor_sqrt_exists(n);
        assert(r >= 1) by (nonlinear_arith)
            requires
                n >= 1,
                n < (r + 1) * (r + 1),
                r >= 0,
        ;
    }
}

proof fn lemma_floor_sqrt_exists(n: nat)
    ensures
        is_floor_sqrt(n as int, floor_sqrt(n) as int),
    decreases n,
{
    if n == 0 {
        assert(is_floor_sqrt(0, 0));
    } else {
        lemma_floor_sqrt_exists((n - 1) as nat);
        let r = floor_sqrt((n - 1) as nat);
        if n < (r + 1) * (r + 1) {
            assert(is_floor_sqrt(n as int, r as int));
        } else {
            assert(n == (r + 1) * (r + 1));
            assert(n < (r + 2) * (r + 2)) by (nonlinear_arith)
                requires
                    n == (r + 1) * (r + 1),
                    r >= 0,
            ;
            assert(is_floor_sqrt(n as int, (r + 1) as int));
        }
    }
}

/// Mouse paths shaped like a human hand's arcs.
#[derive(Debug)]
pub struct BezierPath;

impl BezierPath {
    /// A path of `steps + 1` points from `start` to `end` along a cubic Bezier
    /// curve with randomly placed control points; with a chance of one in five
    /// the second control point overshoots the end.
    pub fn generate(start: Point, end: Point, steps: usize) -> (r: Vec<Point>)
        requires
            within_path_limit(start),
            within_path_limit(end),
            steps <= MAX_PATH_STEPS,
        ensures
            exists|d: PathDraws| #[trigger]
                is_path(r@, start, end, d, steps as nat) && draws_in_range(start, end, d),
            r@.len() == steps + 1,
            r@[0] == start,
            steps > 0 ==> r@[steps as int] == end,
    {
        let dist = distance_between(start, end);
        let bound = (dist * 3 / 10) as i64;
        let c1_dx = random_in(-bound, bound);
        let c1_dy = random_in(-bound, bound);
        let c2_dx = random_in(-bound, bound);
        let c2_dy = random_in(-bound, bound);
        let overshoot = chance(OVERSHOOT_PERCENT, 100);
        let d = PathDraws { c1_dx, c1_dy, c2_dx, c2_dy, overshoot };
        let path = bezier_path(start, end, steps, &d);
        proof {
            lemma_path_endpoints(path@, start, end, d, steps as nat);
        }
        path
    }
}

} // verus!
