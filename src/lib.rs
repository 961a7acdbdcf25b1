//! Closed-loop control primitives for a handheld device: decision curves,
//! hysteresis, rate limiting, safety overrides, failure counting and
//! liveness supervision, each stated and proved with Verus.

pub mod acoustic;
pub mod config;
pub mod controller_errors;
pub mod fan_controller;
pub mod fan_curve;
pub mod fan_safety;
pub mod frequency_controller;
pub mod frequency_curve;
pub mod hwmon;
pub mod hysteresis;
pub mod interpolation;
pub mod load_monitor;
pub mod metrics_monitor;
pub mod output;
pub mod ryzenadj;
pub mod safety;
pub mod signals;
pub mod smoother;
pub mod strategy;
pub mod text;
pub mod undervolt_loop;
pub mod voltage_controller;
pub mod watchdog;

pub use acoustic::AcousticProfile;
pub use config::{
    parse_fan_curve_point, validate_core_config_values, validate_fan_curve_point, validate_fan_hysteresis,
    validate_sample_interval, validate_sample_interval_value, validate_settings, CoreConfig, FanControlMode,
    FanCurvePointConfig, Strategy,
};
pub use controller_errors::{FrequencyControllerError, VoltageControllerError};
pub use fan_controller::{FanController, FanControllerConfig, FanStatus, FanUpdate};
pub use fan_curve::{FanCurve, FanCurvePoint};
pub use fan_safety::{
    apply_safety_override, check_safety_override, is_zero_rpm_safe, validate_pwm, FanSafetyLimits, SafetyOverride,
    CRITICAL_TEMP_C, HIGH_TEMP_C, ZERO_RPM_MAX_TEMP_C,
};
pub use frequency_controller::FrequencyVoltageController;
pub use frequency_curve::{FrequencyCurve, FrequencyPoint};
pub use hwmon::{FanMode, HwmonError};
pub use hysteresis::{
    validate_hysteresis_margin, HysteresisController, MAX_HYSTERESIS_PERCENT, MIN_HYSTERESIS_PERCENT,
};
pub use interpolation::{Interpolator, DEFAULT_STEP_SIZE_MV};
pub use load_monitor::{
    validate_sample_interval_ms, CoreStats, CpuStats, LoadMonitor, LoadMonitorError, LoadSample,
    MAX_SAMPLE_INTERVAL_MS, MIN_SAMPLE_INTERVAL_MS,
};
pub use metrics_monitor::{MetricsError, MetricsMonitor};
pub use output::{ErrorOutput, OutputWriter};
pub use ryzenadj::{
    simulate_failure_sequence, ApplyResult, RyzenadjError, RyzenadjExecutor, MAX_CONSECUTIVE_FAILURES,
};
pub use safety::{all_values_in_bounds, clamp_all_values, clamp_value, is_value_in_bounds, EXIT_CODE_NOT_ROOT};
pub use signals::{SignalHandler, SignalState};
pub use smoother::PWMSmoother;
pub use strategy::{
    clamp_to_bounds, lerp, AggressiveStrategy, BalancedStrategy, ConservativeStrategy, CoreBounds, CustomStrategy,
};
pub use undervolt_loop::{create_strategy, UndervoltLoop, UndervoltPolicy};
pub use watchdog::{check_timeout, WatchdogState, DEFAULT_WATCHDOG_TIMEOUT_SECS};
