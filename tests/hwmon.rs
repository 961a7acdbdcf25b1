use gymdeck3::hwmon::{is_steam_deck_name, millidegrees_to_c, percent_to_pwm, pwm_to_percent};
use gymdeck3::{FanMode, HwmonError};

#[test]
fn test_fan_mode_sysfs_values() {
    assert_eq!(FanMode::Auto.as_sysfs_value(), 2);
    assert_eq!(FanMode::Manual.as_sysfs_value(), 1);
    assert_eq!(FanMode::from_sysfs_value(1), Some(FanMode::Manual));
    assert_eq!(FanMode::from_sysfs_value(2), Some(FanMode::Auto));
    assert_eq!(FanMode::from_sysfs_value(0), None);
    assert_eq!(FanMode::from_sysfs_value(3), None);
}

#[test]
fn test_percent_to_pwm_conversion() {
    assert_eq!(percent_to_pwm(0), 0);
    assert_eq!(percent_to_pwm(50), 127);
    assert_eq!(percent_to_pwm(100), 255);
}

#[test]
fn test_pwm_to_percent_conversion() {
    assert_eq!(pwm_to_percent(0), 0);
    assert_eq!(pwm_to_percent(127), 49);
    assert_eq!(pwm_to_percent(255), 100);
}

#[test]
fn test_hwmon_error_display() {
    let err = HwmonError::DeviceNotFound("test".to_string());
    assert!(err.message().contains("not found"));
    let err = HwmonError::PermissionDenied;
    assert!(err.message().contains("Permission denied"));
}

#[test]
fn device_names_and_temperatures() {
    assert!(is_steam_deck_name("jupiter"));
    assert!(is_steam_deck_name("galileo"));
    assert!(!is_steam_deck_name("k10temp"));
    assert_eq!(millidegrees_to_c(45_999), 45);
    assert_eq!(millidegrees_to_c(-1_500), -1);
    assert_eq!(percent_to_pwm(150), 255);
}
