use gymdeck3::fan_controller::{curve_for_mode, needs_manual_control};
use gymdeck3::{FanControlMode, FanController, FanControllerConfig, FanCurve, FanCurvePointConfig, FanMode, FanUpdate};

fn controller_with(curve: FanCurve) -> FanController {
    let mut c = FanController::new();
    c.set_curve(curve);
    c.enable();
    c
}

#[test]
fn test_config_defaults() {
    let config = FanControllerConfig::default();
    assert_eq!(config.hysteresis_temp, 2);
    assert_eq!(config.smoothing_samples, 5);
    assert_eq!(config.min_pwm_change, 3);
    assert!(config.pwm_smoothing_enabled);
    assert_eq!(config.pwm_ramp_time_ms, 2000);
}

#[test]
fn steady_temperature_reaches_curve_value_after_one_ramp_time() {
    let curve = FanCurve::from_tuples(vec![(40, 20), (80, 100)]).unwrap();
    assert_eq!(curve.calculate_speed(60), 60);
    let mut c = controller_with(curve);
    let r = c.update(60, 2000);
    let expected = (255u32 * 60 / 100) as i32;
    assert!((r.pwm as i32 - expected).abs() <= 1);
    assert_eq!(r.write, Some(r.pwm));
}

#[test]
fn critical_spike_bypasses_the_ramp() {
    let curve = FanCurve::from_tuples(vec![(40, 20), (80, 100)]).unwrap();
    let mut c = controller_with(curve);
    let first = c.update(60, 500);
    assert!(first.pwm < 153);
    let spike = c.update(95, 100);
    assert_eq!(spike, FanUpdate { write: Some(255), pwm: 255 });
    assert_eq!(c.pwm_smoother().current(), 255);
}

#[test]
fn inactive_controller_does_nothing() {
    let mut c = FanController::new();
    assert_eq!(c.update(95, 1000), FanUpdate { write: None, pwm: 0 });
    assert_eq!(c.force_pwm(100), None);
}

#[test]
fn small_changes_are_not_written() {
    let curve = FanCurve::from_tuples(vec![(40, 50), (80, 50)]).unwrap();
    let mut c = controller_with(curve);
    let mut cfg = FanControllerConfig::default();
    cfg.pwm_smoothing_enabled = false;
    c.set_config(cfg);
    assert_eq!(c.update(60, 0), FanUpdate { write: Some(127), pwm: 127 });
    assert_eq!(c.update(61, 0), FanUpdate { write: None, pwm: 127 });
    assert_eq!(c.force_pwm(200), Some(200));
}

#[test]
fn status_reports_override() {
    let c = FanController::new();
    let s = c.status_from(88, 204, FanMode::Manual, Some(3000));
    assert!(s.safety_override_active);
    assert_eq!(s.speed_percent, 80);
    assert!(!c.status_from(50, 0, FanMode::Auto, None).safety_override_active);
}

#[test]
fn curve_selection_by_mode() {
    let pts = vec![FanCurvePointConfig { temp_c: 70, speed_percent: 80 }, FanCurvePointConfig { temp_c: 40, speed_percent: 20 }];
    assert!(curve_for_mode(FanControlMode::Default, &pts).is_none());
    let custom = curve_for_mode(FanControlMode::Custom, &pts).unwrap();
    assert_eq!(custom.points()[0].temp_c, 40);
    assert!(curve_for_mode(FanControlMode::Custom, &pts[..1]).is_none());
    let fixed = curve_for_mode(FanControlMode::Fixed, &pts[..1]).unwrap();
    assert_eq!(fixed.calculate_speed(10), 80);
    assert_eq!(fixed.calculate_speed(95), 80);
    assert!(curve_for_mode(FanControlMode::Fixed, &[]).is_none());
    assert!(!needs_manual_control(FanControlMode::Default));
    assert!(needs_manual_control(FanControlMode::Fixed));
}

#[test]
fn temperature_dead_band_includes_its_bounds() {
    let curve = FanCurve::from_tuples(vec![(40, 0), (80, 100)]).unwrap();
    let mut c = controller_with(curve);
    let mut cfg = FanControllerConfig::default();
    cfg.pwm_smoothing_enabled = false;
    cfg.smoothing_samples = 1;
    cfg.min_pwm_change = 0;
    c.set_config(cfg);
    // baseline 60 °C: 50 % -> 127
    assert_eq!(c.update(60, 0).pwm, 127);
    // 62 °C is within the 2 °C margin: the output holds
    assert_eq!(c.update(62, 0).pwm, 127);
    // 63 °C leaves it: 57.5 % rounds to 58 % -> 147
    assert_eq!(c.update(63, 0).pwm, 147);
}
