//! The scene's box geometry as an exact integer field.
//!
//! Every extent of the room — the carved shell, the ceiling recess, the
//! periodic beams, the sun height — is a multiple of a tenth of a scene
//! unit, so on points with tenth-unit coordinates the box fields, their
//! constructive combination and the surface priority are exact integer
//! arithmetic, stated and proved here. The renderer evaluates the same
//! formulas in floating point at fractional positions; this module is the
//! reference form those formulas are read against, and the one the sign
//! and conservativeness laws hold of.

use vstd::prelude::*;

use crate::surface::HitType;

verus! {

/// A point of the scene, coordinates in tenths of a scene unit.
#[derive(Clone, Copy, Debug, PartialEq, Eq, Structural)]
pub struct Point3 {
    pub x: i64,
    pub y: i64,
    pub z: i64,
}

/// Coordinates this far from the origin (a hundred billion scene units)
/// are comfortably beyond the scene; keeping within the limit lets every
/// difference below stay inside `i64`.
pub const COORD_LIMIT: i64 = 1_000_000_000_000;

/// The beams repeat along x with this period (8 scene units).
pub const BEAM_PERIOD: i64 = 80;

/// Everything above this height (19.9 scene units) is sun.
pub const SUN_HEIGHT: i64 = 199;

/// The smaller of two integers.
pub open spec fn spec_min2(a: int, b: int) -> int {
    if a <= b {
        a
    } else {
        b
    }
}

/// The larger of two integers.
pub open spec fn spec_max2(a: int, b: int) -> int {
    if a >= b {
        a
    } else {
        b
    }
}

/// Magnitude of an integer.
pub open spec fn spec_abs(a: int) -> int {
    if a >= 0 {
        a
    } else {
        -a
    }
}

/// Whether one coordinate lies within the working range.
pub open spec fn spec_coord_in_range(v: i64) -> bool {
    -COORD_LIMIT <= v <= COORD_LIMIT
}

/// Whether all three coordinates lie within the working range.
pub open spec fn spec_in_bounds(p: Point3) -> bool {
    spec_coord_in_range(p.x) && spec_coord_in_range(p.y) && spec_coord_in_range(p.z)
}

/// The signed distance field of the axis-aligned box `[lo, hi]`: the
/// negated least slack of the point against the six faces. Negative
/// strictly inside, positive strictly outside, zero on the boundary.
pub open spec fn spec_box_dist(p: Point3, lo: Point3, hi: Point3) -> int {
    -spec_min2(
        spec_min2(p.x - lo.x, hi.x - p.x),
        spec_min2(spec_min2(p.y - lo.y, hi.y - p.y), spec_min2(p.z - lo.z, hi.z - p.z)),
    )
}

/// Whether `p` lies strictly inside the box `[lo, hi]` on every axis.
pub open spec fn spec_strictly_inside(p: Point3, lo: Point3, hi: Point3) -> bool {
    lo.x < p.x < hi.x && lo.y < p.y < hi.y && lo.z < p.z < hi.z
}

/// Whether `p` lies strictly outside the box `[lo, hi]` on some axis.
pub open spec fn spec_strictly_outside(p: Point3, lo: Point3, hi: Point3) -> bool {
    p.x < lo.x || p.x > hi.x || p.y < lo.y || p.y > hi.y || p.z < lo.z || p.z > hi.z
}

/// The smaller of two machine integers.
pub fn min64(a: i64, b: i64) -> (m: i64)
    ensures
        m == spec_min2(a as int, b as int),
{
    if a <= b {
        a
    } else {
        b
    }
}

/// The box signed distance, as the marcher's field computes it: for the
/// two corners `lo` and `hi`, the negated componentwise least of
/// `p - lo` and `hi - p`.
pub fn box_dist(p: &Point3, lo: &Point3, hi: &Point3) -> (d: i64)
    requires
        spec_in_bounds(*p),
        spec_in_bounds(*lo),
        spec_in_bounds(*hi),
    ensures
        d == spec_box_dist(*p, *lo, *hi),
{
    let dx = min64(p.x - lo.x, hi.x - p.x);
    let dy = min64(p.y - lo.y, hi.y - p.y);
    let dz = min64(p.z - lo.z, hi.z - p.z);
    -min64(dx, min64(dy, dz))
}

/// Sign of the box field: negative exactly strictly inside, positive
/// exactly strictly outside, zero exactly on the boundary.
pub proof fn lemma_box_dist_sign(p: Point3, lo: Point3, hi: Point3)
    ensures
        spec_strictly_inside(p, lo, hi) ==> spec_box_dist(p, lo, hi) < 0,
        spec_strictly_outside(p, lo, hi) ==> spec_box_dist(p, lo, hi) > 0,
        !spec_strictly_inside(p, lo, hi) && !spec_strictly_outside(p, lo, hi) ==> spec_box_dist(
            p,
            lo,
            hi,
        ) == 0,
{
}

/// The box field is conservative: it never exceeds the per-axis distance
/// to any point on or in the box, so stepping a ray by the field value
/// cannot carry any coordinate past the box.
pub proof fn lemma_box_dist_conservative(p: Point3, q: Point3, lo: Point3, hi: Point3)
    requires
        spec_box_dist(q, lo, hi) <= 0,
    ensures
        spec_box_dist(p, lo, hi) <= spec_max2(
            spec_max2(spec_abs(p.x - q.x), spec_abs(p.y - q.y)),
            spec_abs(p.z - q.z),
        ),
{
}

/// The point whose box test gives the beam field: x is folded into the
/// beams' repeating period, y and z are kept.
pub open spec fn spec_beam_wrapped(p: Point3) -> Point3 {
    Point3 { x: (spec_abs(p.x as int) % (BEAM_PERIOD as int)) as i64, y: p.y, z: p.z }
}

/// The combined signed distance of the carved room at `p`: the shell (the
/// outer box minus the ceiling recess, as the negated closer of the two
/// carving boxes) united with the periodic ceiling beams.
pub open spec fn spec_room_dist(p: Point3) -> int {
    spec_min2(
        -spec_min2(
            spec_box_dist(
                p,
                Point3 { x: -300i64, y: -5i64, z: -300i64 },
                Point3 { x: 300i64, y: 180i64, z: 300i64 },
            ),
            spec_box_dist(
                p,
                Point3 { x: -250i64, y: 170i64, z: -250i64 },
                Point3 { x: 250i64, y: 200i64, z: 250i64 },
            ),
        ),
        spec_box_dist(
            spec_beam_wrapped(p),
            Point3 { x: 15i64, y: 185i64, z: -250i64 },
            Point3 { x: 65i64, y: 200i64, z: 250i64 },
        ),
    )
}

/// The room's field: carved shell, ceiling recess and beams combined.
pub fn room_dist(p: &Point3) -> (d: i64)
    requires
        spec_in_bounds(*p),
    ensures
        d == spec_room_dist(*p),
{
    let shell = box_dist(
        p,
        &Point3 { x: -300i64, y: -5i64, z: -300i64 },
        &Point3 { x: 300i64, y: 180i64, z: 300i64 },
    );
    let recess = box_dist(
        p,
        &Point3 { x: -250i64, y: 170i64, z: -250i64 },
        &Point3 { x: 250i64, y: 200i64, z: 250i64 },
    );
    let ax: i64 = if p.x < 0 {
        -p.x
    } else {
        p.x
    };
    let wrapped = Point3 { x: ax % BEAM_PERIOD, y: p.y, z: p.z };
    let beams = box_dist(
        &wrapped,
        &Point3 { x: 15i64, y: 185i64, z: -250i64 },
        &Point3 { x: 65i64, y: 200i64, z: 250i64 },
    );
    min64(-min64(shell, recess), beams)
}

/// The signed distance to the sun plane: everything above the sun height
/// is emissive sky.
pub fn sun_dist(p: &Point3) -> (d: i64)
    requires
        spec_in_bounds(*p),
    ensures
        d == SUN_HEIGHT - p.y,
{
    SUN_HEIGHT - p.y
}

/// Fold the three candidate surfaces into the field's answer, in the
/// fixed priority order: the letter distance stands unless the room is
/// strictly closer, and the sun overrides either only when strictly
/// closer than both.
pub fn closest_surface(letter_d: i64, room_d: i64, sun_d: i64) -> (r: (i64, HitType))
    ensures
        r.0 == spec_min2(spec_min2(letter_d as int, room_d as int), sun_d as int),
        r.1 is Sun <==> (sun_d < letter_d && sun_d < room_d),
        r.1 is Wall <==> (room_d < letter_d && !(sun_d < letter_d && sun_d < room_d)),
        r.1 is Letter <==> (!(room_d < letter_d) && !(sun_d < letter_d && sun_d < room_d)),
        !(r.1 is Escaped),
{
    let mut dist = letter_d;
    let mut kind = HitType::Letter;
    if room_d < dist {
        dist = room_d;
        kind = HitType::Wall;
    }
    if sun_d < dist {
        dist = sun_d;
        kind = HitType::Sun;
    }
    (dist, kind)
}

} // verus!
