use pathtracer::march::{
    bounce_action, direct_light_added, march_decision, trace_control, BounceAction, MarchStep,
};
use pathtracer::ppm::{p6_header, p6_image};
use pathtracer::raster::{gather_blocks, scan_order};
use pathtracer::surface::HitType;
use pathtracer::tiles::{block_bounds, block_byte_len, plan_blocks};

#[test]
fn block_bounds_splits_rows_evenly() {
    assert_eq!(block_bounds(0, 540, 4), (0, 135));
    assert_eq!(block_bounds(1, 540, 4), (135, 270));
    assert_eq!(block_bounds(3, 540, 4), (405, 540));
}

#[test]
fn block_bounds_last_block_takes_the_remainder() {
    assert_eq!(block_bounds(0, 10, 3), (0, 4));
    assert_eq!(block_bounds(1, 10, 3), (4, 8));
    assert_eq!(block_bounds(2, 10, 3), (8, 10));
}

#[test]
fn block_bounds_clamps_past_the_end() {
    // 4 workers over 5 rows: two rows each leaves nothing for the last.
    assert_eq!(block_bounds(2, 5, 4), (4, 5));
    assert_eq!(block_bounds(3, 5, 4), (5, 5));
}

#[test]
fn plan_blocks_tiles_the_rows() {
    let blocks = plan_blocks(540);
    assert!(!blocks.is_empty());
    assert_eq!(blocks[0].0, 0);
    assert_eq!(blocks[blocks.len() - 1].1, 540);
    for w in blocks.windows(2) {
        assert_eq!(w[0].1, w[1].0);
    }
    for &(lo, hi) in &blocks {
        assert!(lo <= hi && hi <= 540);
    }
}

#[test]
fn plan_blocks_of_a_single_row() {
    assert_eq!(plan_blocks(1), vec![(0, 1)]);
}

#[test]
fn block_byte_len_three_bytes_per_pixel() {
    assert_eq!(block_byte_len(0, 135, 960), 135 * 960 * 3);
    assert_eq!(block_byte_len(7, 7, 960), 0);
}

#[test]
fn scan_order_descends_when_reversed() {
    let order = scan_order(0, 2, 3, true);
    assert_eq!(
        order,
        vec![(2, 1), (1, 1), (0, 1), (2, 0), (1, 0), (0, 0)]
    );
}

#[test]
fn scan_order_ascends_when_not_reversed() {
    let order = scan_order(0, 2, 3, false);
    assert_eq!(
        order,
        vec![(0, 0), (1, 0), (2, 0), (0, 1), (1, 1), (2, 1)]
    );
}

#[test]
fn scan_order_covers_a_middle_block() {
    let order = scan_order(4, 6, 2, true);
    assert_eq!(order, vec![(1, 5), (0, 5), (1, 4), (0, 4)]);
}

#[test]
fn disabling_reversal_mirrors_both_axes() {
    // The same stream position holds the pixel mirrored on both axes
    // when the reversals are turned off.
    let width = 3;
    let height = 2;
    let with_rev = scan_order(0, height, width, true);
    let without = scan_order(0, height, width, false);
    assert_eq!(with_rev.len(), without.len());
    for k in 0..with_rev.len() {
        assert_eq!(with_rev[k].0 + without[k].0, width - 1);
        assert_eq!(with_rev[k].1 + without[k].1, height - 1);
    }
}

#[test]
fn gather_blocks_joins_last_first() {
    let buffers = vec![vec![1u8, 2], vec![3u8], vec![4u8, 5]];
    assert_eq!(gather_blocks(buffers), vec![4, 5, 3, 1, 2]);
}

#[test]
fn gather_blocks_of_nothing_is_empty() {
    assert_eq!(gather_blocks(Vec::new()), Vec::<u8>::new());
}

#[test]
fn p6_header_of_the_fixed_image() {
    assert_eq!(p6_header(960, 540), b"P6 960 540 255 ".to_vec());
}

#[test]
fn p6_header_of_small_sizes() {
    assert_eq!(p6_header(1, 1), b"P6 1 1 255 ".to_vec());
    assert_eq!(p6_header(0, 10), b"P6 0 10 255 ".to_vec());
}

#[test]
fn p6_image_is_header_then_payload() {
    let out = p6_image(1, 1, vec![7, 8, 9]);
    assert_eq!(out, b"P6 1 1 255 \x07\x08\x09".to_vec());
}

#[test]
fn march_strikes_near_a_surface() {
    assert_eq!(march_decision(1, false, true), MarchStep::Strike);
}

#[test]
fn march_strikes_at_the_step_cap() {
    assert_eq!(march_decision(99, false, false), MarchStep::Advance);
    assert_eq!(march_decision(100, false, false), MarchStep::Strike);
}

#[test]
fn march_escapes_only_past_the_travel_budget() {
    assert_eq!(march_decision(5, true, false), MarchStep::Escape);
    assert_eq!(march_decision(5, true, true), MarchStep::Escape);
    assert_ne!(march_decision(5, false, false), MarchStep::Escape);
}

#[test]
fn bounce_dispatch_by_surface() {
    assert_eq!(bounce_action(HitType::Escaped), BounceAction::Halt);
    assert_eq!(bounce_action(HitType::Letter), BounceAction::Reflect);
    assert_eq!(bounce_action(HitType::Wall), BounceAction::Scatter);
    assert_eq!(bounce_action(HitType::Sun), BounceAction::Emit);
}

#[test]
fn a_ray_straight_at_the_sun_emits_at_full_strength() {
    // First march reaches the sun: one march, emission added, nothing
    // attenuated yet.
    let control = trace_control(&vec![HitType::Sun, HitType::Wall, HitType::Wall]);
    assert_eq!(control.marches, 1);
    assert_eq!(control.attenuation_steps, 0);
    assert!(control.emitted);
}

#[test]
fn bouncing_stops_at_the_bounce_budget() {
    let control = trace_control(&vec![HitType::Wall, HitType::Wall, HitType::Wall, HitType::Wall]);
    assert_eq!(control.marches, 3);
    assert_eq!(control.attenuation_steps, 3);
    assert!(!control.emitted);
}

#[test]
fn an_escaped_ray_adds_nothing() {
    let control = trace_control(&vec![HitType::Letter, HitType::Escaped, HitType::Sun]);
    assert_eq!(control.marches, 2);
    assert_eq!(control.attenuation_steps, 1);
    assert!(!control.emitted);
}

#[test]
fn a_mirrored_ray_can_still_reach_the_sun() {
    let control = trace_control(&vec![HitType::Letter, HitType::Wall, HitType::Sun]);
    assert_eq!(control.marches, 3);
    assert_eq!(control.attenuation_steps, 2);
    assert!(control.emitted);
}

#[test]
fn direct_light_needs_sun_and_incidence() {
    assert!(direct_light_added(true, HitType::Sun));
    assert!(!direct_light_added(false, HitType::Sun));
    assert!(!direct_light_added(true, HitType::Wall));
    assert!(!direct_light_added(true, HitType::Escaped));
}
