//! Temperature-driven safety overrides for the fan output.
//!
//! The override is computed from the raw temperature reading and takes
//! precedence over everything computed upstream.

use vstd::prelude::*;

verus! {

/// Temperature at or above which the fan is forced to full speed (°C).
pub const CRITICAL_TEMP_C: i32 = 90;

/// Temperature at or above which the fan runs at no less than the high floor (°C).
pub const HIGH_TEMP_C: i32 = 85;

/// Highest temperature at which the fan may stand still (°C).
pub const ZERO_RPM_MAX_TEMP_C: i32 = 45;

/// Lowest PWM value.
pub const MIN_SAFE_PWM: u8 = 0;

/// Highest PWM value (full speed).
pub const MAX_SAFE_PWM: u8 = 255;

/// PWM floor while the temperature is high but below critical.
pub const HIGH_TEMP_MIN_PWM: u8 = 204;

/// PWM that replaces a stopped fan where standing still is not allowed.
pub const ZERO_RPM_FALLBACK_PWM: u8 = 30;

/// Lowest critical temperature that a configuration may set (°C).
pub const MIN_CRITICAL_TEMP_C: i32 = 85;

/// Safety thresholds, fixed at startup.
#[derive(Debug, Clone, Copy)]
pub struct FanSafetyLimits {
    pub critical_temp: i32,
    pub high_temp: i32,
    pub zero_rpm_max_temp: i32,
    pub allow_zero_rpm: bool,
}

impl Default for FanSafetyLimits {
    fn default() -> (r: Self)
        ensures
            r.critical_temp == CRITICAL_TEMP_C,
            r.high_temp == HIGH_TEMP_C,
            r.zero_rpm_max_temp == ZERO_RPM_MAX_TEMP_C,
            !r.allow_zero_rpm,
    {
        FanSafetyLimits {
            critical_temp: CRITICAL_TEMP_C,
            high_temp: HIGH_TEMP_C,
            zero_rpm_max_temp: ZERO_RPM_MAX_TEMP_C,
            allow_zero_rpm: false,
        }
    }
}

impl FanSafetyLimits {
    /// The same limits with a stopped fan allowed at low temperatures.
    pub fn with_zero_rpm(self) -> (r: Self)
        ensures
            r == (FanSafetyLimits { allow_zero_rpm: true, ..self }),
    {
        FanSafetyLimits { allow_zero_rpm: true, ..self }
    }

    /// The same limits with another critical temperature, never below 85 °C.
    pub fn with_critical_temp(self, temp: i32) -> (r: Self)
        ensures
            r == (FanSafetyLimits {
                critical_temp: if temp < MIN_CRITICAL_TEMP_C { MIN_CRITICAL_TEMP_C } else { temp },
                ..self
            }),
    {
        let t = if temp < MIN_CRITICAL_TEMP_C { MIN_CRITICAL_TEMP_C } else { temp };
        FanSafetyLimits { critical_temp: t, ..self }
    }
}

/// How the safety policy constrains the computed PWM.
#[derive(Debug, Clone, Copy, PartialEq, Eq, Structural)]
pub enum SafetyOverride {
    /// The computed value passes through.
    NoOverride,
    /// The output is exactly this value.
    ForcePwm(u8),
    /// The output is at least this value.
    MinimumPwm(u8),
}

/// The override that the policy prescribes at a temperature.
pub open spec fn override_at(temp_c: int, limits: FanSafetyLimits) -> SafetyOverride {
    if temp_c >= limits.critical_temp {
        SafetyOverride::ForcePwm(MAX_SAFE_PWM)
    } else if temp_c >= limits.high_temp {
        SafetyOverride::MinimumPwm(HIGH_TEMP_MIN_PWM)
    } else {
        SafetyOverride::NoOverride
    }
}

/// Whether a stopped fan is allowed at a temperature.
pub open spec fn zero_rpm_allowed(temp_c: int, limits: FanSafetyLimits) -> bool {
    limits.allow_zero_rpm && temp_c <= limits.zero_rpm_max_temp
}

/// The PWM that the policy lets through for a computed value.
pub open spec fn guarded_pwm(calculated: u8, temp_c: int, limits: FanSafetyLimits) -> u8 {
    match override_at(temp_c, limits) {
        SafetyOverride::ForcePwm(p) => p,
        SafetyOverride::MinimumPwm(m) => if calculated < m { m } else { calculated },
        SafetyOverride::NoOverride => if calculated == 0 && !zero_rpm_allowed(temp_c, limits) {
            ZERO_RPM_FALLBACK_PWM
        } else {
            calculated
        },
    }
}

/// Checks which override applies at `temp_c`.
pub fn check_safety_override(temp_c: i32, limits: &FanSafetyLimits) -> (r: SafetyOverride)
    ensures
        r == override_at(temp_c as int, *limits),
{
    if temp_c >= limits.critical_temp {
        SafetyOverride::ForcePwm(MAX_SAFE_PWM)
    } else if temp_c >= limits.high_temp {
        SafetyOverride::MinimumPwm(HIGH_TEMP_MIN_PWM)
    } else {
        SafetyOverride::NoOverride
    }
}

/// Whether the fan may stand still at `temp_c`.
pub fn is_zero_rpm_safe(temp_c: i32, limits: &FanSafetyLimits) -> (r: bool)
    ensures
        r == zero_rpm_allowed(temp_c as int, *limits),
{
    limits.allow_zero_rpm && temp_c <= limits.zero_rpm_max_temp
}

/// Applies the safety policy to a PWM value computed upstream.
pub fn apply_safety_override(calculated_pwm: u8, temp_c: i32, limits: &FanSafetyLimits) -> (r: u8)
    ensures
        r == guarded_pwm(calculated_pwm, temp_c as int, *limits),
        temp_c >= limits.critical_temp ==> r == MAX_SAFE_PWM,
        temp_c < limits.critical_temp && temp_c >= limits.high_temp ==> r >= HIGH_TEMP_MIN_PWM
            && r >= calculated_pwm,
        calculated_pwm != 0 ==> r >= calculated_pwm,
{
    match check_safety_override(temp_c, limits) {
        SafetyOverride::ForcePwm(pwm) => pwm,
        SafetyOverride::MinimumPwm(min_pwm) => if calculated_pwm < min_pwm {
            min_pwm
        } else {
            calculated_pwm
        },
        SafetyOverride::NoOverride => {
            if calculated_pwm == 0 && !is_zero_rpm_safe(temp_c, limits) {
                ZERO_RPM_FALLBACK_PWM
            } else {
                calculated_pwm
            }
        },
    }
}

/// Clamps a PWM value to the safe range, which every `u8` already lies in.
pub fn validate_pwm(pwm: u8) -> (r: u8)
    ensures
        r == pwm,
        MIN_SAFE_PWM <= r <= MAX_SAFE_PWM,
{
    pwm
}

/// The policy never lowers a nonzero computed value, and at or above the
/// critical temperature it yields full speed whatever was computed.
pub proof fn lemma_safety_dominance(calculated: u8, temp_c: int, limits: FanSafetyLimits)
    ensures
        temp_c >= limits.critical_temp ==> guarded_pwm(calculated, temp_c, limits) == MAX_SAFE_PWM,
        calculated != 0 ==> guarded_pwm(calculated, temp_c, limits) >= calculated,
{
}

} // verus!
