use gymdeck3::{FrequencyControllerError, MetricsError, MetricsMonitor, VoltageControllerError};

#[test]
fn test_metrics_monitor_new() {
    let monitor = MetricsMonitor::new(4);
    assert_eq!(monitor.num_cores(), 4);
}

#[test]
fn test_metrics_error_display() {
    let err = MetricsError::InvalidCoreId(5);
    assert!(err.message().contains("5"));
    let err = MetricsError::ParseError("test error".to_string());
    assert!(err.message().contains("test error"));
    let err = MetricsError::FileNotFound("/path/to/file".to_string());
    assert!(err.message().contains("/path/to/file"));
}

#[test]
fn frequency_controller_test_error_display() {
    let err = FrequencyControllerError::InvalidCoreId(5);
    assert!(err.message().contains("5"));
    let err = FrequencyControllerError::NoCurveLoaded(3);
    assert!(err.message().contains("3"));
    let err = FrequencyControllerError::ParseError("test error".to_string());
    assert!(err.message().contains("test error"));
    let err = FrequencyControllerError::InvalidCurve("invalid".to_string());
    assert!(err.message().contains("invalid"));
}

#[test]
fn core_index_checks_and_messages() {
    let monitor = MetricsMonitor::new(2);
    assert!(monitor.check_core(1).is_ok());
    assert!(matches!(monitor.check_core(2), Err(MetricsError::InvalidCoreId(2))));
    assert_eq!(VoltageControllerError::NotStarted.message(), "Controller not started");
    assert_eq!(VoltageControllerError::InvalidCoreId(17).message(), "Invalid core ID: 17");
}

#[test]
fn cpu_load_from_proc_stat_text() {
    let mut monitor = MetricsMonitor::new(2);
    let first = "cpu  200 0 100 1700\ncpu0 100 0 50 850 0 0 0 0 0 0\ncpu1 100 0 50 850\n";
    assert_eq!(monitor.update_cpu_load(1, first).unwrap(), 0);
    let second = "cpu  0 0 0 0\ncpu0 100 0 50 850\ncpu1 150 0 50 900 x\n";
    // 100 more units, 50 of them idle
    assert_eq!(monitor.update_cpu_load(1, second).unwrap(), 5000);
    assert!(matches!(monitor.update_cpu_load(2, second), Err(MetricsError::InvalidCoreId(2))));
    assert!(matches!(monitor.update_cpu_load(0, "cpu0 1 2 3\n"), Err(MetricsError::ParseError(_))));
    assert!(matches!(monitor.update_cpu_load(0, "cpu10 1 2 3 4\n"), Err(MetricsError::ParseError(_))));
}
