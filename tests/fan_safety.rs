use gymdeck3::{
    apply_safety_override, check_safety_override, is_zero_rpm_safe, validate_pwm, FanSafetyLimits,
    SafetyOverride,
};

#[test]
fn test_default_limits() {
    let limits = FanSafetyLimits::default();
    assert_eq!(limits.critical_temp, 90);
    assert_eq!(limits.high_temp, 85);
    assert_eq!(limits.zero_rpm_max_temp, 45);
    assert!(!limits.allow_zero_rpm);
}

#[test]
fn test_safety_override_critical() {
    let limits = FanSafetyLimits::default();
    assert_eq!(check_safety_override(90, &limits), SafetyOverride::ForcePwm(255));
    assert_eq!(check_safety_override(95, &limits), SafetyOverride::ForcePwm(255));
}

#[test]
fn test_safety_override_high() {
    let limits = FanSafetyLimits::default();
    assert_eq!(check_safety_override(85, &limits), SafetyOverride::MinimumPwm(204));
    assert_eq!(check_safety_override(87, &limits), SafetyOverride::MinimumPwm(204));
}

#[test]
fn test_safety_override_none() {
    let limits = FanSafetyLimits::default();
    assert_eq!(check_safety_override(50, &limits), SafetyOverride::NoOverride);
    assert_eq!(check_safety_override(70, &limits), SafetyOverride::NoOverride);
    assert_eq!(check_safety_override(84, &limits), SafetyOverride::NoOverride);
}

#[test]
fn test_zero_rpm_safety() {
    let limits_disabled = FanSafetyLimits::default();
    let limits_enabled = FanSafetyLimits::default().with_zero_rpm();
    assert!(!is_zero_rpm_safe(40, &limits_disabled));
    assert!(!is_zero_rpm_safe(30, &limits_disabled));
    assert!(is_zero_rpm_safe(40, &limits_enabled));
    assert!(is_zero_rpm_safe(45, &limits_enabled));
    assert!(!is_zero_rpm_safe(46, &limits_enabled));
    assert!(!is_zero_rpm_safe(50, &limits_enabled));
}

#[test]
fn test_apply_safety_override() {
    let limits = FanSafetyLimits::default();
    assert_eq!(apply_safety_override(100, 90, &limits), 255);
    assert_eq!(apply_safety_override(0, 95, &limits), 255);
    assert_eq!(apply_safety_override(100, 85, &limits), 204);
    assert_eq!(apply_safety_override(220, 85, &limits), 220);
    assert_eq!(apply_safety_override(150, 70, &limits), 150);
    assert_eq!(apply_safety_override(0, 50, &limits), 30);
}

#[test]
fn test_apply_safety_with_zero_rpm() {
    let limits = FanSafetyLimits::default().with_zero_rpm();
    assert_eq!(apply_safety_override(0, 40, &limits), 0);
    assert_eq!(apply_safety_override(0, 50, &limits), 30);
}

#[test]
fn test_custom_critical_temp() {
    let limits = FanSafetyLimits::default().with_critical_temp(80);
    assert_eq!(limits.critical_temp, 85);
    let limits = FanSafetyLimits::default().with_critical_temp(95);
    assert_eq!(limits.critical_temp, 95);
}

#[test]
fn test_validate_pwm() {
    assert_eq!(validate_pwm(0), 0);
    assert_eq!(validate_pwm(127), 127);
    assert_eq!(validate_pwm(255), 255);
}

#[test]
fn critical_temperature_dominates_any_computed_value() {
    let limits = FanSafetyLimits::default();
    for pwm in [0u8, 1, 30, 128, 204, 254, 255] {
        assert_eq!(apply_safety_override(pwm, 90, &limits), 255);
        assert_eq!(apply_safety_override(pwm, 120, &limits), 255);
    }
}

#[test]
fn guard_never_lowers_nonzero_values() {
    let limits = FanSafetyLimits::default();
    for temp in [0, 44, 45, 60, 84, 85, 89] {
        for pwm in [1u8, 29, 31, 100, 203, 205, 255] {
            assert!(apply_safety_override(pwm, temp, &limits) >= pwm);
        }
    }
}
