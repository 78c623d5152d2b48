use pathtracer::geom::{box_dist, closest_surface, room_dist, sun_dist, Point3};
use pathtracer::glyphs::{curve_centers, glyph_segments};
use pathtracer::strokes::stroke_dist_sq;
use pathtracer::surface::HitType;

fn pt(x: i64, y: i64, z: i64) -> Point3 {
    Point3 { x, y, z }
}

#[test]
fn box_dist_negative_strictly_inside() {
    let lo = pt(-10, -10, -10);
    let hi = pt(10, 10, 10);
    assert!(box_dist(&pt(0, 0, 0), &lo, &hi) < 0);
    assert_eq!(box_dist(&pt(0, 0, 0), &lo, &hi), -10);
    assert_eq!(box_dist(&pt(9, 0, 0), &lo, &hi), -1);
}

#[test]
fn box_dist_positive_strictly_outside() {
    let lo = pt(-10, -10, -10);
    let hi = pt(10, 10, 10);
    assert_eq!(box_dist(&pt(15, 0, 0), &lo, &hi), 5);
    assert_eq!(box_dist(&pt(0, -40, 0), &lo, &hi), 30);
    assert!(box_dist(&pt(11, 11, 11), &lo, &hi) > 0);
}

#[test]
fn box_dist_zero_on_boundary() {
    let lo = pt(-10, -10, -10);
    let hi = pt(10, 10, 10);
    assert_eq!(box_dist(&pt(10, 0, 0), &lo, &hi), 0);
    assert_eq!(box_dist(&pt(-10, 10, 3), &lo, &hi), 0);
}

#[test]
fn box_dist_conservative_spot_check() {
    // Marching from p by the field value cannot carry any coordinate past
    // the box: the value never exceeds the per-axis gap to a boundary
    // point q of the box.
    let lo = pt(-10, -10, -10);
    let hi = pt(10, 10, 10);
    let p = pt(25, 3, -2);
    let q = pt(10, 3, -2);
    let d = box_dist(&p, &lo, &hi);
    assert_eq!(d, 15);
    assert!(d <= (p.x - q.x).abs());
}

#[test]
fn room_dist_inside_the_room_air() {
    // The camera-side middle of the room, 5 scene units up: the nearest
    // carved surface is the floor at -0.5 units, 5.5 units (55 tenths)
    // below.
    assert_eq!(room_dist(&pt(0, 50, 0)), 55);
}

#[test]
fn room_dist_negative_inside_a_wall() {
    // A point below the carved box is buried in solid floor.
    assert_eq!(room_dist(&pt(0, -10, 0)), -5);
    // Just above the floor surface the field is the gap to it.
    assert_eq!(room_dist(&pt(0, -2, 0)), 3);
}

#[test]
fn room_dist_beam_period_wraps_x() {
    // The beams repeat every 8 units of |x|: points 8 units apart in x
    // see the same beam field.
    let a = room_dist(&pt(20, 190, 0));
    let b = room_dist(&pt(100, 190, 0));
    assert_eq!(a, b);
    let c = room_dist(&pt(-20, 190, 0));
    assert_eq!(a, c);
}

#[test]
fn sun_dist_measures_down_from_sun_height() {
    assert_eq!(sun_dist(&pt(0, 100, 0)), 99);
    assert_eq!(sun_dist(&pt(0, 199, 0)), 0);
    assert!(sun_dist(&pt(0, 300, 0)) < 0);
}

#[test]
fn closest_surface_keeps_letter_on_ties() {
    let (d, k) = closest_surface(5, 5, 9);
    assert_eq!(d, 5);
    assert_eq!(k, HitType::Letter);
}

#[test]
fn closest_surface_wall_overrides_when_strictly_closer() {
    let (d, k) = closest_surface(10, 5, 7);
    assert_eq!(d, 5);
    assert_eq!(k, HitType::Wall);
}

#[test]
fn closest_surface_sun_overrides_both() {
    let (d, k) = closest_surface(9, 8, 3);
    assert_eq!(d, 3);
    assert_eq!(k, HitType::Sun);
}

#[test]
fn glyph_table_matches_packed_string() {
    // The strokes are also written, four bytes a segment, as the packed
    // string below, each byte holding a half-unit coordinate biased by
    // 79. The table must be its exact decoding.
    let packed = b"5O5_5W9W5_9_AOEOCOC_A_E_IOQ_I_QOUOY_Y_]OWW[WaOa_aWeWa_e_cWiO";
    assert_eq!(packed.len(), 60);
    let segs = glyph_segments();
    assert_eq!(segs.len(), 15);
    for (i, seg) in segs.iter().enumerate() {
        let b = &packed[i * 4..i * 4 + 4];
        let decode = |v: u8| v as i32 - 79;
        assert_eq!(*seg, (decode(b[0]), decode(b[1]), decode(b[2]), decode(b[3])));
    }
}

#[test]
fn stroke_distance_is_zero_on_the_stroke() {
    // The midpoint of the first stroke of the sign, a vertical bar.
    let (num, den) = stroke_dist_sq(-26, 8, -26, 0, -26, 16);
    assert_eq!(num, 0);
    assert_eq!(den, 256);
}

#[test]
fn stroke_distance_is_exact_beside_the_stroke() {
    // Six half units to the side of the bar: squared distance 36, scaled
    // by the squared denominator.
    let (num, den) = stroke_dist_sq(-20, 8, -26, 0, -26, 16);
    assert_eq!(den, 256);
    assert_eq!(num, 36 * 256 * 256);
}

#[test]
fn stroke_distance_clamps_past_an_endpoint() {
    // Four half units beyond the top end: the end itself is closest.
    let (num, den) = stroke_dist_sq(-26, 20, -26, 0, -26, 16);
    assert_eq!(den, 256);
    assert_eq!(num, 16 * 256 * 256);
}

#[test]
fn stroke_distance_to_a_diagonal_stroke() {
    // A rising diagonal stroke of the sign, queried from the origin.
    let (num, den) = stroke_dist_sq(0, 0, -6, 0, 2, 16);
    assert_eq!(den, 320);
    assert_eq!(num, 1536 * 1536 + 768 * 768);
}

#[test]
fn curve_centers_in_half_units() {
    let centers = curve_centers();
    assert_eq!(centers, vec![(-22, 12), (22, 12)]);
    // -11 and 11 scene units across, 6 up, doubled into half units.
    assert_eq!(centers[0], (-11 * 2, 6 * 2));
    assert_eq!(centers[1], (11 * 2, 6 * 2));
}
