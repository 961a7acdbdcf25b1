use std::path::PathBuf;

use gymdeck3::voltage_controller::{CoreConfig, VoltageController};
use gymdeck3::VoltageControllerError;

// Loads and thresholds are in hundredths of a percent (50.0 % is 5000).

#[test]
fn test_core_config_new_valid() {
    let config = CoreConfig::new(0, -30, -15, 5000);
    assert!(config.is_ok());
    let config = config.unwrap();
    assert_eq!(config.core_id, 0);
    assert_eq!(config.min_mv, -30);
    assert_eq!(config.max_mv, -15);
    assert_eq!(config.threshold, 5000);
}

#[test]
fn test_core_config_new_invalid_min_range() {
    let config = CoreConfig::new(0, -150, -15, 5000);
    assert!(config.is_err());
    assert!(config.unwrap_err().contains("min_mv"));
    assert!(CoreConfig::new(0, 10, -15, 5000).is_err());
}

#[test]
fn test_core_config_new_invalid_max_range() {
    let config = CoreConfig::new(0, -30, -150, 5000);
    assert!(config.is_err());
    assert!(config.unwrap_err().contains("max_mv"));
}

#[test]
fn test_core_config_new_invalid_ordering() {
    let config = CoreConfig::new(0, -20, -40, 5000);
    assert!(config.is_err());
    let err_msg = config.unwrap_err();
    assert!(err_msg.contains("min_mv"));
    assert!(err_msg.contains("max_mv"));
}

#[test]
fn test_core_config_new_invalid_threshold() {
    let config = CoreConfig::new(0, -30, -15, -1000);
    assert!(config.is_err());
    assert!(config.unwrap_err().contains("threshold"));
    assert!(CoreConfig::new(0, -30, -15, 15_000).is_err());
}

#[test]
fn test_core_config_calculate_voltage_below_threshold() {
    let config = CoreConfig::new(0, -30, -15, 5000).unwrap();
    assert_eq!(config.calculate_voltage(0), -30);
    assert_eq!(config.calculate_voltage(2500), -30);
    assert_eq!(config.calculate_voltage(5000), -30);
}

#[test]
fn test_core_config_calculate_voltage_above_threshold() {
    let config = CoreConfig::new(0, -30, -15, 5000).unwrap();
    assert_eq!(config.calculate_voltage(7500), -22);
    assert_eq!(config.calculate_voltage(10_000), -15);
}

#[test]
fn test_core_config_calculate_voltage_clamping() {
    let config = CoreConfig::new(0, -30, -15, 5000).unwrap();
    assert_eq!(config.calculate_voltage(0), -30);
    assert_eq!(config.calculate_voltage(15_000), -15);
}

#[test]
fn test_core_config_calculate_voltage_threshold_at_100() {
    let config = CoreConfig::new(0, -30, -15, 10_000).unwrap();
    assert_eq!(config.calculate_voltage(0), -30);
    assert_eq!(config.calculate_voltage(5000), -30);
    assert_eq!(config.calculate_voltage(10_000), -30);
}

#[test]
fn test_core_config_calculate_voltage_threshold_at_0() {
    let config = CoreConfig::new(0, -30, -15, 0).unwrap();
    assert_eq!(config.calculate_voltage(0), -30);
    assert_eq!(config.calculate_voltage(5000), -22);
    assert_eq!(config.calculate_voltage(10_000), -15);
}

#[test]
fn test_voltage_controller_new() {
    let controller = VoltageController::new(4);
    assert_eq!(controller.num_cores(), 4);
    assert!(!controller.is_active());
    for i in 0..4 {
        let config = controller.get_core_config(i).unwrap();
        assert_eq!(config.core_id, i);
        assert_eq!(config.min_mv, -30);
        assert_eq!(config.max_mv, -15);
        assert_eq!(config.threshold, 5000);
    }
}

#[test]
fn test_voltage_controller_set_core_config() {
    let mut controller = VoltageController::new(4);
    let config = CoreConfig::new(1, -40, -20, 6000).unwrap();
    assert!(controller.set_core_config(config).is_ok());
    let retrieved = controller.get_core_config(1).unwrap();
    assert_eq!(retrieved.min_mv, -40);
    assert_eq!(retrieved.max_mv, -20);
    assert_eq!(retrieved.threshold, 6000);
}

#[test]
fn test_voltage_controller_set_core_config_invalid_id() {
    let mut controller = VoltageController::new(4);
    let config = CoreConfig::new(10, -30, -15, 5000).unwrap();
    let result = controller.set_core_config(config);
    assert!(result.is_err());
    match result {
        Err(VoltageControllerError::InvalidCoreId(id)) => assert_eq!(id, 10),
        _ => panic!("Expected InvalidCoreId error"),
    }
}

#[test]
fn test_voltage_controller_start_stop() {
    let mut controller = VoltageController::new(4);
    assert!(!controller.is_active());
    assert!(controller.start().is_ok());
    assert!(controller.is_active());
    assert!(controller.start().is_err());
    assert!(controller.stop().is_ok());
    assert!(!controller.is_active());
    assert!(controller.stop().is_err());
}

#[test]
fn test_voltage_controller_update_and_apply_not_started() {
    let mut controller = VoltageController::new(4);
    let result = controller.update_and_apply(0, 5000);
    assert!(result.is_err());
    match result {
        Err(VoltageControllerError::NotStarted) => {}
        _ => panic!("Expected NotStarted error"),
    }
}

#[test]
fn test_voltage_controller_update_and_apply() {
    let mut controller = VoltageController::with_sysfs_base(4, PathBuf::from("/nonexistent"));
    controller.start().unwrap();
    let config = CoreConfig::new(0, -30, -15, 5000).unwrap();
    controller.set_core_config(config).unwrap();
    let voltage = controller.update_and_apply(0, 7500).unwrap();
    assert_eq!(voltage, -22);
    assert_eq!(controller.get_current_voltage(0).unwrap(), -22);
}

#[test]
fn test_voltage_controller_get_all_configs() {
    let mut controller = VoltageController::new(2);
    controller.set_core_config(CoreConfig::new(0, -40, -20, 6000).unwrap()).unwrap();
    controller.set_core_config(CoreConfig::new(1, -35, -25, 5500).unwrap()).unwrap();
    let all_configs = controller.get_all_configs();
    assert_eq!(all_configs.len(), 2);
    assert_eq!(all_configs[0].min_mv, -40);
    assert_eq!(all_configs[1].min_mv, -35);
}

#[test]
fn stop_resets_offsets_and_bounds_swap() {
    let mut controller = VoltageController::new(2);
    controller.start().unwrap();
    assert_eq!(controller.update_and_apply(1, 10_000).unwrap(), -15);
    assert!(matches!(controller.update_and_apply(2, 0), Err(VoltageControllerError::InvalidCoreId(2))));
    controller.stop().unwrap();
    assert_eq!(controller.get_current_voltage(1).unwrap(), 0);
    let b = CoreConfig::new(0, -30, -15, 5000).unwrap().to_bounds();
    assert_eq!((b.min_mv, b.max_mv), (-15, -30));
}
