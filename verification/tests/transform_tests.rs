//! Tests of the coordinate transform, rounding, and configuration helpers.

use fractal_growth::config::GrowthConfig;
use fractal_growth::config::check_config;
use fractal_growth::config::cycle_branch_rules;
use fractal_growth::geometry::PixelPoint;
use fractal_growth::geometry::VirtualPoint;
use fractal_growth::geometry::pixel_to_virtual;
use fractal_growth::geometry::project;
use fractal_growth::rounding::round_half_even;

fn base_config() -> GrowthConfig {
    GrowthConfig {
        width: 1920,
        height: 1080,
        pan_x: 960,
        pan_y: -540,
        scale_num: 1,
        scale_den: 1,
        branch_rules: 3,
        ticks_per_frame: 10,
    }
}

#[test]
fn projection_formula_unit_scale() {
    // zoom 1, pan (960, -540): pixel = virtual * 1 - pan.
    let c = base_config();
    let p = VirtualPoint { x: 0, y: -540 };
    let q = project(p, &c);
    assert_eq!(q.x, 0 - 960);
    assert_eq!(q.y, -540 - -540);
    assert_eq!(q.y, 0);
}

#[test]
fn projection_round_trip_exact() {
    // Round trip is exact: pixel_to_virtual(project(p)) == p.
    let c = GrowthConfig { scale_num: 3, scale_den: 2, pan_x: 7, pan_y: -9, ..base_config() };
    let points = [
        VirtualPoint { x: 0, y: 0 },
        VirtualPoint { x: 10, y: -4 },
        VirtualPoint { x: -123456, y: 98765 },
    ];
    let mut k = 0;
    while k < points.len() {
        let p = points[k];
        let q = project(p, &c);
        let back = pixel_to_virtual(q, &c);
        assert_eq!(back, p);
        k += 1;
    }
}

#[test]
fn projection_round_trip_other_direction() {
    let c = GrowthConfig { scale_num: 5, scale_den: 4, pan_x: -31, pan_y: 17, ..base_config() };
    let q = PixelPoint { x: 200, y: -77 };
    let p = pixel_to_virtual(q, &c);
    let forward = project(p, &c);
    assert_eq!(forward, q);
}

#[test]
fn rounding_ties_to_even() {
    // Exact halves go to the even neighbor.
    assert_eq!(round_half_even(5, 2), 2); // 2.5 -> 2
    assert_eq!(round_half_even(7, 2), 4); // 3.5 -> 4
    assert_eq!(round_half_even(3, 2), 2); // 1.5 -> 2
    assert_eq!(round_half_even(1, 2), 0); // 0.5 -> 0
}

#[test]
fn rounding_nearest() {
    assert_eq!(round_half_even(4, 2), 2);
    assert_eq!(round_half_even(9, 4), 2); // 2.25 -> 2
    assert_eq!(round_half_even(11, 4), 3); // 2.75 -> 3
    assert_eq!(round_half_even(0, 7), 0);
    assert_eq!(round_half_even(21, 7), 3);
}

#[test]
fn branch_rule_cycle() {
    // The control cycle 1 -> 2 -> 3 -> 4 -> 1.
    assert_eq!(cycle_branch_rules(1), 2);
    assert_eq!(cycle_branch_rules(2), 3);
    assert_eq!(cycle_branch_rules(3), 4);
    assert_eq!(cycle_branch_rules(4), 1);
}

#[test]
fn config_validation() {
    assert!(check_config(&base_config()));
    let zero_scale = GrowthConfig { scale_num: 0, ..base_config() };
    assert!(!check_config(&zero_scale));
    let zero_den = GrowthConfig { scale_den: 0, ..base_config() };
    assert!(!check_config(&zero_den));
    let bad_rules_low = GrowthConfig { branch_rules: 0, ..base_config() };
    assert!(!check_config(&bad_rules_low));
    let bad_rules_high = GrowthConfig { branch_rules: 5, ..base_config() };
    assert!(!check_config(&bad_rules_high));
    let no_width = GrowthConfig { width: 0, ..base_config() };
    assert!(!check_config(&no_width));
    let no_ticks = GrowthConfig { ticks_per_frame: 0, ..base_config() };
    assert!(!check_config(&no_ticks));
}
