use gymdeck3::{FanCurve, FanCurvePoint};

#[test]
fn test_fan_curve_point() {
    let point = FanCurvePoint::new(50, 60);
    assert_eq!(point.temp_c, 50);
    assert_eq!(point.speed_percent, 60);
    let point = FanCurvePoint::new(50, 150);
    assert_eq!(point.speed_percent, 100);
}

#[test]
fn test_fan_curve_creation() {
    let curve = FanCurve::from_tuples(vec![(40, 20), (80, 100)]).unwrap();
    assert_eq!(curve.len(), 2);
    assert!(FanCurve::from_tuples(vec![(40, 20)]).is_err());
}

#[test]
fn test_fan_curve_sorting() {
    let curve = FanCurve::from_tuples(vec![(80, 100), (40, 20), (60, 50)]).unwrap();
    let points = curve.points();
    assert_eq!(points[0].temp_c, 40);
    assert_eq!(points[1].temp_c, 60);
    assert_eq!(points[2].temp_c, 80);
}

#[test]
fn test_fan_curve_interpolation() {
    let curve = FanCurve::from_tuples(vec![(40, 20), (80, 100)]).unwrap();
    assert_eq!(curve.calculate_speed(30), 20);
    assert_eq!(curve.calculate_speed(40), 20);
    assert_eq!(curve.calculate_speed(60), 60);
    assert_eq!(curve.calculate_speed(80), 100);
    assert_eq!(curve.calculate_speed(90), 100);
}

#[test]
fn test_fan_curve_multi_point() {
    let curve = FanCurve::from_tuples(vec![(40, 0), (50, 30), (70, 60), (85, 100)]).unwrap();
    assert_eq!(curve.calculate_speed(40), 0);
    assert_eq!(curve.calculate_speed(45), 15);
    assert_eq!(curve.calculate_speed(50), 30);
    assert_eq!(curve.calculate_speed(60), 45);
    assert_eq!(curve.calculate_speed(70), 60);
    assert_eq!(curve.calculate_speed(85), 100);
}

#[test]
fn test_speed_pwm_conversion() {
    assert_eq!(FanCurve::speed_to_pwm(0), 0);
    assert_eq!(FanCurve::speed_to_pwm(50), 127);
    assert_eq!(FanCurve::speed_to_pwm(100), 255);
    assert_eq!(FanCurve::pwm_to_speed(0), 0);
    assert_eq!(FanCurve::pwm_to_speed(127), 49);
    assert_eq!(FanCurve::pwm_to_speed(255), 100);
}

#[test]
fn test_default_curve() {
    let curve = FanCurve::default();
    assert!(curve.len() >= 2);
    assert!(curve.calculate_speed(40) <= 30);
    assert!(curve.calculate_speed(85) >= 90);
}

#[test]
fn curve_is_exact_at_every_point() {
    let tuples = vec![(35, 10), (47, 33), (61, 58), (77, 91), (83, 100)];
    let curve = FanCurve::from_tuples(tuples.clone()).unwrap();
    for (t, s) in tuples {
        assert_eq!(curve.calculate_speed(t), s);
    }
}

#[test]
fn curve_clamps_outside_its_points() {
    let curve = FanCurve::from_tuples(vec![(40, 20), (80, 100)]).unwrap();
    for t in [-273, -10, 0, 39, 40] {
        assert_eq!(curve.calculate_speed(t), 20);
    }
    for t in [80, 81, 150, i32::MAX] {
        assert_eq!(curve.calculate_speed(t), 100);
    }
    assert_eq!(curve.calculate_speed(i32::MIN), 20);
}

#[test]
fn interpolation_stays_between_neighbours() {
    let curve = FanCurve::from_tuples(vec![(40, 90), (60, 10), (80, 70)]).unwrap();
    for t in 40..=60 {
        let s = curve.calculate_speed(t);
        assert!((10..=90).contains(&s));
    }
    for t in 60..=80 {
        let s = curve.calculate_speed(t);
        assert!((10..=70).contains(&s));
    }
}

#[test]
fn interpolation_rounds_half_away_from_zero() {
    // 10 + 15 * 1 / 10 = 11.5 rounds up to 12
    let rising = FanCurve::from_tuples(vec![(0, 10), (10, 25)]).unwrap();
    assert_eq!(rising.calculate_speed(1), 12);
    // 25 - 15 * 1 / 10 = 23.5 rounds up to 24
    let falling = FanCurve::from_tuples(vec![(0, 25), (10, 10)]).unwrap();
    assert_eq!(falling.calculate_speed(1), 24);
}

#[test]
fn curve_rejects_duplicate_temperatures() {
    assert!(FanCurve::from_tuples(vec![(40, 20), (40, 60)]).is_err());
    assert!(FanCurve::new(vec![FanCurvePoint { temp_c: 40, speed_percent: 20 }, FanCurvePoint { temp_c: 60, speed_percent: 120 }]).is_err());
    assert!(FanCurve::from_tuples(vec![]).is_err());
}
