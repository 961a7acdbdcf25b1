use gymdeck3::{CoreBounds, CustomStrategy};

// Loads are in hundredths of a percent (50.0 % is 5000).

fn wide() -> CoreBounds {
    CoreBounds { min_mv: 0, max_mv: -100, threshold: 5000 }
}

#[test]
fn test_custom_name() {
    let strategy = CustomStrategy::new(vec![(0, -30), (10_000, -10)]);
    assert_eq!(strategy.name(), "custom");
}

#[test]
fn test_custom_ramp_time() {
    let strategy = CustomStrategy::new(vec![(0, -30), (10_000, -10)]);
    assert_eq!(strategy.ramp_time_ms(), 2000);
}

#[test]
fn test_custom_single_point() {
    let strategy = CustomStrategy::new(vec![(5_000, -25)]);
    let bounds = CoreBounds { min_mv: -20, max_mv: -35, threshold: 5000 };
    assert_eq!(strategy.calculate_target(0, &bounds), -25);
    assert_eq!(strategy.calculate_target(5_000, &bounds), -25);
    assert_eq!(strategy.calculate_target(10_000, &bounds), -25);
}

#[test]
fn test_custom_two_points_linear() {
    let strategy = CustomStrategy::new(vec![(0, -30), (10_000, -10)]);
    let b = wide();
    assert_eq!(strategy.calculate_target(0, &b), -30);
    assert_eq!(strategy.calculate_target(10_000, &b), -10);
    assert_eq!(strategy.calculate_target(5_000, &b), -20);
    assert_eq!(strategy.calculate_target(2_500, &b), -25);
}

#[test]
fn test_custom_multiple_points() {
    let strategy = CustomStrategy::new(vec![(0, -35), (3_000, -30), (7_000, -25), (10_000, -20)]);
    let b = wide();
    assert_eq!(strategy.calculate_target(0, &b), -35);
    assert_eq!(strategy.calculate_target(3_000, &b), -30);
    assert_eq!(strategy.calculate_target(7_000, &b), -25);
    assert_eq!(strategy.calculate_target(10_000, &b), -20);
    let mid = strategy.calculate_target(5_000, &b);
    assert!(mid >= -28 && mid <= -27);
}

#[test]
fn test_custom_respects_bounds() {
    let strategy = CustomStrategy::new(vec![(0, -50), (10_000, -5)]);
    let bounds = CoreBounds { min_mv: -20, max_mv: -35, threshold: 5000 };
    assert_eq!(strategy.calculate_target(0, &bounds), -35);
    assert_eq!(strategy.calculate_target(10_000, &bounds), -20);
}

#[test]
fn test_custom_unsorted_input() {
    let strategy = CustomStrategy::new(vec![(10_000, -10), (0, -30), (5_000, -20)]);
    let b = wide();
    assert_eq!(strategy.calculate_target(0, &b), -30);
    assert_eq!(strategy.calculate_target(5_000, &b), -20);
    assert_eq!(strategy.calculate_target(10_000, &b), -10);
}

#[test]
fn test_custom_empty_curve() {
    let strategy = CustomStrategy::new(vec![]);
    assert_eq!(strategy.calculate_target(5_000, &wide()), 0);
}

#[test]
fn test_custom_extrapolation_clamped() {
    let strategy = CustomStrategy::new(vec![(2_000, -30), (8_000, -20)]);
    let b = wide();
    assert_eq!(strategy.calculate_target(0, &b), -30);
    assert_eq!(strategy.calculate_target(1_000, &b), -30);
    assert_eq!(strategy.calculate_target(9_000, &b), -20);
    assert_eq!(strategy.calculate_target(10_000, &b), -20);
}

#[test]
fn custom_curve_is_kept_sorted_and_rounds_halves_away_from_zero() {
    let strategy = CustomStrategy::new(vec![(4_000, -25), (0, -30)]);
    assert_eq!(strategy.curve(), &[(0, -30), (4_000, -25)]);
    // -28.75 rounds to -29; -27.5 rounds away from zero to -28
    assert_eq!(strategy.interpolate(1_000), -29);
    assert_eq!(strategy.interpolate(2_000), -28);
    assert_eq!(strategy.interpolate(20_000), -25);
}
