//! Exact point-to-stroke distances in the glyph plane.
//!
//! The letter field starts from the least squared distance between the
//! projected query point and the fifteen straight strokes. On the half
//! unit lattice that least squared distance is a rational number with a
//! known denominator, computed here exactly: for a stroke from `a` to
//! `b` with `delta = b - a` and `den = |delta|^2`, the squared distance
//! scaled by `den^2` is an integer, and the closest point is the
//! projection of the query onto the stroke's line, clamped to its ends.
//! The nearest-point law proves the clamped projection really is closest
//! among all points of the stroke on the `1/den` lattice — in particular
//! closer than both endpoints.

use vstd::prelude::*;

use crate::glyphs::spec_glyph_segments;

verus! {

/// Strokes and queries live within this many half units of the origin.
pub const STROKE_RANGE: i32 = 100;

/// Clamp `v` into `0 ..= hi`.
pub open spec fn spec_clamp(v: int, hi: int) -> int {
    if v < 0 {
        0
    } else if v > hi {
        hi
    } else {
        v
    }
}

/// `delta = b - a` squared: the denominator of the stroke's parameter.
pub open spec fn spec_stroke_den(ax: int, ay: int, bx: int, by: int) -> int {
    (bx - ax) * (bx - ax) + (by - ay) * (by - ay)
}

/// The unclamped projection parameter of `p` on the stroke's line,
/// scaled by the denominator: `(p - a) . delta`.
pub open spec fn spec_stroke_t(px: int, py: int, ax: int, ay: int, bx: int, by: int) -> int {
    (px - ax) * (bx - ax) + (py - ay) * (by - ay)
}

/// The squared distance from `p` to the stroke point with parameter
/// `k / den`, scaled by `den^2`.
pub open spec fn spec_stroke_point_sq(
    px: int,
    py: int,
    ax: int,
    ay: int,
    bx: int,
    by: int,
    k: int,
) -> int {
    let den = spec_stroke_den(ax, ay, bx, by);
    let ex = (px - ax) * den - (bx - ax) * k;
    let ey = (py - ay) * den - (by - ay) * k;
    ex * ex + ey * ey
}

/// The squared distance from `p` to the stroke, scaled by `den^2`: the
/// squared distance to the clamped projection.
pub open spec fn spec_stroke_dist_sq(px: int, py: int, ax: int, ay: int, bx: int, by: int) -> int {
    spec_stroke_point_sq(
        px,
        py,
        ax,
        ay,
        bx,
        by,
        spec_clamp(spec_stroke_t(px, py, ax, ay, bx, by), spec_stroke_den(ax, ay, bx, by)),
    )
}

/// The scaled squared distance to a stroke point is an exact quadratic
/// in the parameter, with its vertex at the unclamped projection.
/// The scaled squared distance expands, for any parameter `k`, to a
/// quadratic whose quadratic coefficient is the denominator itself.
proof fn lemma_stroke_expand(ux: int, uy: int, dx: int, dy: int, den: int, t: int, k: int)
    requires
        den == dx * dx + dy * dy,
        t == ux * dx + uy * dy,
    ensures
        (ux * den - dx * k) * (ux * den - dx * k) + (uy * den - dy * k) * (uy * den - dy * k) == den
            * den * (ux * ux + uy * uy) - 2 * den * k * t + k * k * den,
{
    lemma_component_expand(ux, dx, den, k);
    lemma_component_expand(uy, dy, den, k);
    assert((den * k) * (ux * dx) + (den * k) * (uy * dy) == den * k * t) by (nonlinear_arith)
        requires
            t == ux * dx + uy * dy,
    ;
    assert((k * k) * (dx * dx) + (k * k) * (dy * dy) == k * k * den) by (nonlinear_arith)
        requires
            den == dx * dx + dy * dy,
    ;
    assert(den * den * (ux * ux) + den * den * (uy * uy) == den * den * (ux * ux + uy * uy))
        by (nonlinear_arith);
    assert((ux * den - dx * k) * (ux * den - dx * k) + (uy * den - dy * k) * (uy * den - dy * k)
        == den * den * (ux * ux + uy * uy) - 2 * den * k * t + k * k * den) by (nonlinear_arith)
        requires
            (ux * den - dx * k) * (ux * den - dx * k) == den * den * (ux * ux) - 2 * ((den * k) * (
            ux * dx)) + (k * k) * (dx * dx),
            (uy * den - dy * k) * (uy * den - dy * k) == den * den * (uy * uy) - 2 * ((den * k) * (
            uy * dy)) + (k * k) * (dy * dy),
            (den * k) * (ux * dx) + (den * k) * (uy * dy) == den * k * t,
            (k * k) * (dx * dx) + (k * k) * (dy * dy) == k * k * den,
            den * den * (ux * ux) + den * den * (uy * uy) == den * den * (ux * ux + uy * uy),
    ;
}

/// One component of the squared offset, expanded.
#[verifier::rlimit(100)]
proof fn lemma_component_expand(u: int, d: int, den: int, k: int)
    ensures
        (u * den - d * k) * (u * den - d * k) == den * den * (u * u) - 2 * ((den * k) * (u * d)) + (
        k * k) * (d * d),
{
    let a = u * den;
    let b = d * k;
    assert((a - b) * (a - b) == a * a - 2 * (a * b) + b * b) by (nonlinear_arith);
    assert(a * a == den * den * (u * u)) by (nonlinear_arith)
        requires
            a == u * den,
    ;
    assert(a * b == (den * k) * (u * d)) by (nonlinear_arith)
        requires
            a == u * den,
            b == d * k,
    ;
    assert(b * b == (k * k) * (d * d)) by (nonlinear_arith)
        requires
            b == d * k,
    ;
}

proof fn lemma_stroke_quadratic(px: int, py: int, ax: int, ay: int, bx: int, by: int, k: int)
    ensures
        spec_stroke_point_sq(px, py, ax, ay, bx, by, k) == spec_stroke_den(ax, ay, bx, by) * (k
            - spec_stroke_t(px, py, ax, ay, bx, by)) * (k - spec_stroke_t(px, py, ax, ay, bx, by))
            + spec_stroke_point_sq(px, py, ax, ay, bx, by, spec_stroke_t(px, py, ax, ay, bx, by)),
{
    let den = spec_stroke_den(ax, ay, bx, by);
    let t = spec_stroke_t(px, py, ax, ay, bx, by);
    lemma_stroke_expand(px - ax, py - ay, bx - ax, by - ay, den, t, k);
    lemma_stroke_expand(px - ax, py - ay, bx - ax, by - ay, den, t, t);
    assert((den * den * ((px - ax) * (px - ax) + (py - ay) * (py - ay)) - 2 * den * k * t + k * k
        * den) == den * (k - t) * (k - t) + (den * den * ((px - ax) * (px - ax) + (py - ay) * (py
        - ay)) - 2 * den * t * t + t * t * den)) by (nonlinear_arith);
}

/// The nearest-point law: among all stroke points on the `1/den`
/// lattice, none is closer to `p` than the clamped projection.
pub proof fn lemma_stroke_nearest(px: int, py: int, ax: int, ay: int, bx: int, by: int, k: int)
    requires
        0 <= k <= spec_stroke_den(ax, ay, bx, by),
    ensures
        spec_stroke_dist_sq(px, py, ax, ay, bx, by) <= spec_stroke_point_sq(
            px,
            py,
            ax,
            ay,
            bx,
            by,
            k,
        ),
{
    let den = spec_stroke_den(ax, ay, bx, by);
    let t = spec_stroke_t(px, py, ax, ay, bx, by);
    let k0 = spec_clamp(t, den);
    lemma_stroke_quadratic(px, py, ax, ay, bx, by, k);
    lemma_stroke_quadratic(px, py, ax, ay, bx, by, k0);
    assert((bx - ax) * (bx - ax) + (by - ay) * (by - ay) >= 0) by (nonlinear_arith);
    assert(den >= 0);
    let gap0 = if k0 - t >= 0 {
        k0 - t
    } else {
        t - k0
    };
    let gap = if k - t >= 0 {
        k - t
    } else {
        t - k
    };
    assert(gap0 <= gap);
    assert(den * (k0 - t) * (k0 - t) <= den * (k - t) * (k - t)) by (nonlinear_arith)
        requires
            den >= 0,
            0 <= gap0 <= gap,
            gap0 == (if k0 - t >= 0 {
                k0 - t
            } else {
                t - k0
            }),
            gap == (if k - t >= 0 {
                k - t
            } else {
                t - k
            }),
    ;
}

/// The exact squared distance from the point `(px, py)` to the stroke
/// from `(ax, ay)` to `(bx, by)`, all in half units: the result is the
/// pair `(num, den)` with `den = |b - a|^2 > 0`, and the squared
/// distance in half units equals `num / den^2`.
pub fn stroke_dist_sq(px: i32, py: i32, ax: i32, ay: i32, bx: i32, by: i32) -> (r: (i64, i64))
    requires
        -STROKE_RANGE <= px <= STROKE_RANGE,
        -STROKE_RANGE <= py <= STROKE_RANGE,
        -STROKE_RANGE <= ax <= STROKE_RANGE,
        -STROKE_RANGE <= ay <= STROKE_RANGE,
        -STROKE_RANGE <= bx <= STROKE_RANGE,
        -STROKE_RANGE <= by <= STROKE_RANGE,
        !(ax == bx && ay == by),
    ensures
        r.0 == spec_stroke_dist_sq(px as int, py as int, ax as int, ay as int, bx as int, by as int),
        r.1 == spec_stroke_den(ax as int, ay as int, bx as int, by as int),
        0 < r.1 <= 160000,
        0 <= r.0,
{
    let dx: i64 = bx as i64 - ax as i64;
    let dy: i64 = by as i64 - ay as i64;
    let ux: i64 = px as i64 - ax as i64;
    let uy: i64 = py as i64 - ay as i64;
    proof {
        assert forall|a: int, b: int|
            -200 <= a <= 200 && -200 <= b <= 200 implies -40000 <= #[trigger] (a * b)
            <= 40000 by {
            assert(-40000 <= a * b <= 40000) by (nonlinear_arith)
                requires
                    -200 <= a <= 200,
                    -200 <= b <= 200,
            ;
        }
    }
    let den: i64 = dx * dx + dy * dy;
    proof {
        assert(dx * dx >= 1 || dy * dy >= 1) by (nonlinear_arith)
            requires
                !(dx == 0 && dy == 0),
        ;
        assert(dx * dx >= 0 && dy * dy >= 0) by (nonlinear_arith);
    }
    let tn: i64 = ux * dx + uy * dy;
    let k: i64 = if tn < 0 {
        0
    } else if tn > den {
        den
    } else {
        tn
    };
    proof {
        assert forall|a: int, b: int|
            -200 <= a <= 200 && 0 <= b <= 160000 implies -32000000 <= #[trigger] (a * b)
            <= 32000000 by {
            assert(-32000000 <= a * b <= 32000000) by (nonlinear_arith)
                requires
                    -200 <= a <= 200,
                    0 <= b <= 160000,
            ;
        }
    }
    let ex: i64 = ux * den - dx * k;
    let ey: i64 = uy * den - dy * k;
    proof {
        assert(ex * ex + ey * ey <= 0x2000_0000_0000_0000 && ex * ex >= 0 && ey * ey >= 0)
            by (nonlinear_arith)
            requires
                -64000000 <= ex <= 64000000,
                -64000000 <= ey <= 64000000,
        ;
    }
    let num: i64 = ex * ex + ey * ey;
    (num, den)
}

} // verus!
