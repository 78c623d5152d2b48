//! The letter glyphs' stroke table.
//!
//! The sign's letters are drawn in the z = 0 plane from fifteen straight
//! strokes and two circular arcs. Endpoints and centers sit on the half
//! scene unit lattice, so they are held here exactly, in half units: a
//! table value of `v` stands for the coordinate `v / 2` in scene units.
//! The field takes the squared point-to-stroke distance over all strokes,
//! then extrudes and rounds the profile; that part is numeric and lives
//! with the renderer, which reads these tables.

use vstd::prelude::*;

verus! {

/// Arc radius of the two curved strokes, in half units (2 scene units).
pub const CURVE_RADIUS: i32 = 4;

/// The straight strokes: segment `i` runs from `(x0, y0)` to `(x1, y1)`,
/// all in half units.
pub open spec fn spec_glyph_segments() -> Seq<(i32, i32, i32, i32)> {
    seq![
        (-26i32, 0i32, -26i32, 16i32),
        (-26i32, 8i32, -22i32, 8i32),
        (-26i32, 16i32, -22i32, 16i32),
        (-14i32, 0i32, -10i32, 0i32),
        (-12i32, 0i32, -12i32, 16i32),
        (-14i32, 16i32, -10i32, 16i32),
        (-6i32, 0i32, 2i32, 16i32),
        (-6i32, 16i32, 2i32, 0i32),
        (6i32, 0i32, 10i32, 16i32),
        (10i32, 16i32, 14i32, 0i32),
        (8i32, 8i32, 12i32, 8i32),
        (18i32, 0i32, 18i32, 16i32),
        (18i32, 8i32, 22i32, 8i32),
        (18i32, 16i32, 22i32, 16i32),
        (20i32, 8i32, 26i32, 0i32),
    ]
}

/// The centers of the two curved strokes, in half units.
pub open spec fn spec_curve_centers() -> Seq<(i32, i32)> {
    seq![(-22i32, 12i32), (22i32, 12i32)]
}

/// The straight strokes of the sign, in table order.
pub fn glyph_segments() -> (segs: Vec<(i32, i32, i32, i32)>)
    ensures
        segs@ == spec_glyph_segments(),
{
    let mut segs: Vec<(i32, i32, i32, i32)> = Vec::new();
    segs.push((-26, 0, -26, 16));
    segs.push((-26, 8, -22, 8));
    segs.push((-26, 16, -22, 16));
    segs.push((-14, 0, -10, 0));
    segs.push((-12, 0, -12, 16));
    segs.push((-14, 16, -10, 16));
    segs.push((-6, 0, 2, 16));
    segs.push((-6, 16, 2, 0));
    segs.push((6, 0, 10, 16));
    segs.push((10, 16, 14, 0));
    segs.push((8, 8, 12, 8));
    segs.push((18, 0, 18, 16));
    segs.push((18, 8, 22, 8));
    segs.push((18, 16, 22, 16));
    segs.push((20, 8, 26, 0));
    assert(segs@ =~= spec_glyph_segments());
    segs
}

/// The centers of the two arcs that round the curved letters.
pub fn curve_centers() -> (centers: Vec<(i32, i32)>)
    ensures
        centers@ == spec_curve_centers(),
{
    let mut centers: Vec<(i32, i32)> = Vec::new();
    centers.push((-22, 12));
    centers.push((22, 12));
    assert(centers@ =~= spec_curve_centers());
    centers
}

} // verus!
