use gymdeck3::undervolt_loop::create_strategy;
use gymdeck3::{
    all_values_in_bounds, clamp_all_values, clamp_to_bounds, clamp_value, is_value_in_bounds, lerp,
    AggressiveStrategy, BalancedStrategy, ConservativeStrategy, CoreBounds,
};

fn bounds() -> CoreBounds {
    CoreBounds { min_mv: -20, max_mv: -35, threshold: 5000 }
}

#[test]
fn test_balanced_ramp_time() {
    let strategy = BalancedStrategy::new();
    assert_eq!(strategy.ramp_time_ms(), 2000);
}

#[test]
fn test_balanced_name() {
    let strategy = BalancedStrategy::new();
    assert_eq!(strategy.name(), "balanced");
}

#[test]
fn test_conservative_ramp_time() {
    let strategy = ConservativeStrategy::new();
    assert_eq!(strategy.ramp_time_ms(), 5000);
}

#[test]
fn test_conservative_name() {
    let strategy = ConservativeStrategy::new();
    assert_eq!(strategy.name(), "conservative");
}

#[test]
fn aggressive_ramp_and_name() {
    let strategy = AggressiveStrategy::new();
    assert_eq!(strategy.ramp_time_ms(), 500);
    assert_eq!(strategy.name(), "aggressive");
}

#[test]
fn targets_run_from_aggressive_to_safe_bound() {
    let s = BalancedStrategy::new();
    let b = bounds();
    assert_eq!(s.calculate_target(0, &b), -35);
    assert_eq!(s.calculate_target(10_000, &b), -20);
    assert_eq!(s.calculate_target(20_000, &b), -20);
    // -35 + 15 * 0.5 = -27.5 rounds away from zero to -28
    assert_eq!(s.calculate_target(5_000, &b), -28);
    for load in (0..=10_000).step_by(250) {
        let t = ConservativeStrategy::new().calculate_target(load, &b);
        assert!((-35..=-20).contains(&t));
    }
}

#[test]
fn lerp_and_clamp() {
    assert_eq!(lerp(-35, -20, 0), -35);
    assert_eq!(lerp(-35, -20, 10_000), -20);
    assert_eq!(lerp(-20, -35, 5_000), -28);
    assert_eq!(clamp_to_bounds(-25, &bounds()), -25);
    assert_eq!(clamp_to_bounds(-40, &bounds()), -35);
    assert_eq!(clamp_to_bounds(-10, &bounds()), -20);
}

#[test]
fn bounds_checks() {
    let b = bounds();
    assert_eq!(clamp_value(-50, &b), -35);
    assert!(is_value_in_bounds(-20, &b));
    assert!(!is_value_in_bounds(-19, &b));
    assert_eq!(clamp_all_values(&[-50, -25, 0], &[b, b]), vec![-35, -25]);
    assert!(all_values_in_bounds(&[-30, -21], &[b, b]));
    assert!(!all_values_in_bounds(&[-30, -36], &[b, b]));
}

// Loads are in hundredths of a percent (50.0 % is 5000).

#[test]
fn test_clamp_value_within_bounds() {
    let b = bounds();
    assert_eq!(clamp_value(-25, &b), -25);
    assert_eq!(clamp_value(-20, &b), -20);
    assert_eq!(clamp_value(-35, &b), -35);
}

#[test]
fn test_clamp_value_too_aggressive() {
    let b = bounds();
    assert_eq!(clamp_value(-40, &b), -35);
    assert_eq!(clamp_value(-100, &b), -35);
}

#[test]
fn test_clamp_value_too_conservative() {
    let b = bounds();
    assert_eq!(clamp_value(-10, &b), -20);
    assert_eq!(clamp_value(0, &b), -20);
    assert_eq!(clamp_value(10, &b), -20);
}

#[test]
fn test_is_value_in_bounds() {
    let b = bounds();
    assert!(is_value_in_bounds(-25, &b));
    assert!(is_value_in_bounds(-20, &b));
    assert!(is_value_in_bounds(-35, &b));
    assert!(!is_value_in_bounds(-10, &b));
    assert!(!is_value_in_bounds(-40, &b));
}

#[test]
fn test_clamp_all_values() {
    let bs = vec![
        CoreBounds { min_mv: -20, max_mv: -35, threshold: 5000 },
        CoreBounds { min_mv: -25, max_mv: -40, threshold: 5000 },
    ];
    assert_eq!(clamp_all_values(&[-10, -50], &bs), vec![-20, -40]);
}

#[test]
fn test_all_values_in_bounds() {
    let bs = vec![
        CoreBounds { min_mv: -20, max_mv: -35, threshold: 5000 },
        CoreBounds { min_mv: -25, max_mv: -40, threshold: 5000 },
    ];
    assert!(all_values_in_bounds(&[-25, -30], &bs));
    assert!(!all_values_in_bounds(&[-10, -30], &bs));
    assert!(!all_values_in_bounds(&[-25, -50], &bs));
}

#[test]
fn test_clamp_to_bounds() {
    let b = bounds();
    assert_eq!(clamp_to_bounds(-25, &b), -25);
    assert_eq!(clamp_to_bounds(-40, &b), -35);
    assert_eq!(clamp_to_bounds(-10, &b), -20);
    assert_eq!(clamp_to_bounds(-20, &b), -20);
    assert_eq!(clamp_to_bounds(-35, &b), -35);
}

#[test]
fn test_lerp() {
    assert_eq!(lerp(-35, -20, 0), -35);
    assert_eq!(lerp(-35, -20, 10_000), -20);
    assert_eq!(lerp(-35, -20, 5_000), -28);
    assert_eq!(lerp(-35, -20, 15_000), -20);
}

#[test]
fn test_balanced_calculate_target() {
    let strategy = BalancedStrategy::new();
    let b = bounds();
    assert_eq!(strategy.calculate_target(0, &b), -35);
    assert_eq!(strategy.calculate_target(10_000, &b), -20);
    let mid = strategy.calculate_target(5_000, &b);
    assert!(mid > -35 && mid < -20);
}

#[test]
fn test_balanced_respects_bounds() {
    let strategy = BalancedStrategy::new();
    let b = bounds();
    for load in [0, 2_500, 5_000, 7_500, 10_000] {
        let target = strategy.calculate_target(load, &b);
        assert!(target >= b.max_mv);
        assert!(target <= b.min_mv);
    }
}

#[test]
fn test_conservative_calculate_target() {
    let strategy = ConservativeStrategy::new();
    let b = bounds();
    assert_eq!(strategy.calculate_target(0, &b), -35);
    assert_eq!(strategy.calculate_target(10_000, &b), -20);
    let mid = strategy.calculate_target(5_000, &b);
    assert!(mid > -35 && mid < -20);
}

#[test]
fn test_conservative_respects_bounds() {
    let strategy = ConservativeStrategy::new();
    let b = bounds();
    for load in [0, 2_500, 5_000, 7_500, 10_000] {
        let target = strategy.calculate_target(load, &b);
        assert!(target >= b.max_mv);
        assert!(target <= b.min_mv);
    }
}

#[test]
fn test_all_strategies_same_at_extremes() {
    let b = bounds();
    assert_eq!(ConservativeStrategy::new().calculate_target(0, &b), b.max_mv);
    assert_eq!(BalancedStrategy::new().calculate_target(0, &b), b.max_mv);
    assert_eq!(AggressiveStrategy::new().calculate_target(0, &b), b.max_mv);
    assert_eq!(ConservativeStrategy::new().calculate_target(10_000, &b), b.min_mv);
    assert_eq!(BalancedStrategy::new().calculate_target(10_000, &b), b.min_mv);
    assert_eq!(AggressiveStrategy::new().calculate_target(10_000, &b), b.min_mv);
}

#[test]
fn test_ramp_times_are_distinct() {
    let conservative = ConservativeStrategy::new();
    let balanced = BalancedStrategy::new();
    let aggressive = AggressiveStrategy::new();
    assert_eq!(conservative.ramp_time_ms(), 5000);
    assert_eq!(balanced.ramp_time_ms(), 2000);
    assert_eq!(aggressive.ramp_time_ms(), 500);
    assert!(conservative.ramp_time_ms() > balanced.ramp_time_ms());
    assert!(balanced.ramp_time_ms() > aggressive.ramp_time_ms());
}

#[test]
fn test_custom_with_monotonic_curve() {
    let strategy =
        gymdeck3::CustomStrategy::new(vec![(0, -35), (2_500, -30), (5_000, -25), (7_500, -22), (10_000, -20)]);
    let b = bounds();
    let mut prev_target = strategy.calculate_target(0, &b);
    for load in (100..=10_000).step_by(500) {
        let target = strategy.calculate_target(load, &b);
        assert!(target >= prev_target);
        prev_target = target;
    }
}

#[test]
fn test_create_strategy_conservative() {
    let strategy = create_strategy(gymdeck3::Strategy::Conservative, None);
    assert_eq!(strategy.name(), "conservative");
    assert_eq!(strategy.ramp_time_ms(), 5000);
}

#[test]
fn test_create_strategy_balanced() {
    let strategy = create_strategy(gymdeck3::Strategy::Balanced, None);
    assert_eq!(strategy.name(), "balanced");
    assert_eq!(strategy.ramp_time_ms(), 2000);
}

#[test]
fn test_create_strategy_aggressive() {
    let strategy = create_strategy(gymdeck3::Strategy::Aggressive, None);
    assert_eq!(strategy.name(), "aggressive");
    assert_eq!(strategy.ramp_time_ms(), 500);
}

#[test]
fn test_create_strategy_custom() {
    let curve = vec![(0, -30), (5_000, -20), (10_000, -10)];
    let strategy = create_strategy(gymdeck3::Strategy::Custom, Some(curve));
    assert_eq!(strategy.name(), "custom");
    let wide = CoreBounds { min_mv: 0, max_mv: -100, threshold: 5000 };
    assert_eq!(strategy.calculate_target(2_500, &wide), -25);
    let default_custom = create_strategy(gymdeck3::Strategy::Custom, None);
    assert_eq!(default_custom.calculate_target(0, &wide), -35);
    assert_eq!(default_custom.calculate_target(10_000, &wide), 0);
}

#[test]
fn test_core_bounds_from_config() {
    let config = gymdeck3::CoreConfig { core_id: 0, min_mv: -20, max_mv: -35, threshold: 5000 };
    let bounds: CoreBounds = (&config).into();
    assert_eq!(bounds.min_mv, -20);
    assert_eq!(bounds.max_mv, -35);
    assert_eq!(bounds.threshold, 5000);
}
