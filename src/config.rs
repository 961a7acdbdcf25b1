//! Validation of the command-line settings that the control loops use.

use vstd::prelude::*;
use vstd::string::*;
use crate::text::{parse_i32, parse_unsigned, signed_value, unsigned_value, within};

verus! {

/// Smallest sample interval in microseconds (10 ms).
pub const MIN_SAMPLE_INTERVAL_US: u64 = 10_000;

/// Largest sample interval in microseconds (5000 ms).
pub const MAX_SAMPLE_INTERVAL_US: u64 = 5_000_000;

/// Smallest fan hysteresis (°C).
pub const MIN_FAN_HYSTERESIS_C: i32 = 1;

/// Largest fan hysteresis (°C).
pub const MAX_FAN_HYSTERESIS_C: i32 = 10;

/// Highest temperature a curve point may name (°C).
pub const MAX_CURVE_TEMP_C: i32 = 100;

/// Who drives the fan.
#[derive(Debug, Clone, Copy, PartialEq, Eq, Structural)]
pub enum FanControlMode {
    /// The firmware's automatic control.
    Default,
    /// A temperature curve.
    Custom,
    /// A fixed speed.
    Fixed,
}

pub open spec fn fan_mode_name(m: FanControlMode) -> Seq<char> {
    match m {
        FanControlMode::Default => "default"@,
        FanControlMode::Custom => "custom"@,
        FanControlMode::Fixed => "fixed"@,
    }
}

impl FanControlMode {
    /// The mode's name on the command line.
    pub fn to_string(&self) -> (r: String)
        ensures
            r@ == fan_mode_name(*self),
    {
        match self {
            FanControlMode::Default => String::from_str("default"),
            FanControlMode::Custom => String::from_str("custom"),
            FanControlMode::Fixed => String::from_str("fixed"),
        }
    }
}

impl Default for FanControlMode {
    fn default() -> (r: Self)
        ensures
            r == FanControlMode::Default,
    {
        FanControlMode::Default
    }
}

/// A validated fan curve point.
#[derive(Debug, Clone, Copy, PartialEq, Eq, Structural)]
pub struct FanCurvePointConfig {
    pub temp_c: i32,
    pub speed_percent: u8,
}

/// Undervolt adaptation policy.
#[derive(Debug, Clone, Copy, PartialEq, Eq, Structural)]
pub enum Strategy {
    Conservative,
    Balanced,
    Aggressive,
    Custom,
}

pub open spec fn strategy_name(s: Strategy) -> Seq<char> {
    match s {
        Strategy::Conservative => "conservative"@,
        Strategy::Balanced => "balanced"@,
        Strategy::Aggressive => "aggressive"@,
        Strategy::Custom => "custom"@,
    }
}

impl Strategy {
    /// The policy's name on the command line.
    pub fn to_string(&self) -> (r: String)
        ensures
            r@ == strategy_name(*self),
    {
        match self {
            Strategy::Conservative => String::from_str("conservative"),
            Strategy::Balanced => String::from_str("balanced"),
            Strategy::Aggressive => String::from_str("aggressive"),
            Strategy::Custom => String::from_str("custom"),
        }
    }
}

/// Accepts a sample interval within 10 000 to 5 000 000 microseconds.
pub fn validate_sample_interval_value(val: u64) -> (r: Result<u64, String>)
    ensures
        r.is_ok() <==> MIN_SAMPLE_INTERVAL_US <= val <= MAX_SAMPLE_INTERVAL_US,
        r matches Ok(v) ==> v == val,
{
    if val < MIN_SAMPLE_INTERVAL_US {
        return Err(String::from_str("Sample interval is too small (minimum: 10000 us / 10ms)"));
    }
    if val > MAX_SAMPLE_INTERVAL_US {
        return Err(String::from_str("Sample interval is too large (maximum: 5000000 us / 5000ms)"));
    }
    Ok(val)
}

/// Reads a sample interval in microseconds and accepts it within 10 000 to
/// 5 000 000.
pub fn validate_sample_interval(s: &str) -> (r: Result<u64, String>)
    ensures
        r.is_ok() <==> within(unsigned_value(s@), MIN_SAMPLE_INTERVAL_US as int, MAX_SAMPLE_INTERVAL_US as int) is Some,
        r matches Ok(v) ==> unsigned_value(s@) == Some(v as int),
{
    match parse_unsigned(s, u64::MAX) {
        Some(v) => validate_sample_interval_value(v),
        None => Err(String::from_str("Sample interval is not a valid number")),
    }
}

/// Accepts a curve point at 0 to 100 °C with a speed of at most 100 percent.
pub fn validate_fan_curve_point(temp_c: i32, speed_percent: u8) -> (r: Result<FanCurvePointConfig, String>)
    ensures
        r.is_ok() <==> 0 <= temp_c <= MAX_CURVE_TEMP_C && speed_percent <= 100,
        r matches Ok(p) ==> p == (FanCurvePointConfig { temp_c, speed_percent }),
{
    if temp_c < 0 || temp_c > MAX_CURVE_TEMP_C {
        return Err(String::from_str("Temperature must be between 0 and 100°C"));
    }
    if speed_percent > 100 {
        return Err(String::from_str("Speed must be between 0 and 100%"));
    }
    Ok(FanCurvePointConfig { temp_c, speed_percent })
}

/// Number of `:` in `s`.
pub open spec fn colon_count(s: Seq<char>) -> nat
    decreases s.len(),
{
    if s.len() == 0 {
        0
    } else {
        colon_count(s.drop_last()) + if s.last() == ':' { 1nat } else { 0nat }
    }
}

/// Index of the last `:` in `s`, or -1.
pub open spec fn last_colon(s: Seq<char>) -> int
    decreases s.len(),
{
    if s.len() == 0 {
        -1
    } else if s.last() == ':' {
        s.len() - 1
    } else {
        last_colon(s.drop_last())
    }
}

/// The point that `TEMP:SPEED` text names, if it names one.
pub open spec fn curve_point_text(s: Seq<char>) -> Option<FanCurvePointConfig> {
    if colon_count(s) != 1 {
        None
    } else {
        let k = last_colon(s);
        let t = within(signed_value(s.subrange(0, k)), i32::MIN as int, i32::MAX as int);
        let v = within(unsigned_value(s.subrange(k + 1, s.len() as int)), 0, 255);
        match (t, v) {
            (Some(t), Some(v)) => if 0 <= t <= 100 && v <= 100 {
                Some(FanCurvePointConfig { temp_c: t as i32, speed_percent: v as u8 })
            } else {
                None
            },
            _ => None,
        }
    }
}

/// Reads a fan curve point written `TEMP:SPEED` (for example `60:50`) and
/// validates it.
pub fn parse_fan_curve_point(s: &str) -> (r: Result<FanCurvePointConfig, String>)
    ensures
        r.is_ok() <==> curve_point_text(s@) is Some,
        r matches Ok(p) ==> curve_point_text(s@) == Some(p),
{
    let n = s.unicode_len();
    let mut count: usize = 0;
    let mut pos: usize = 0;
    let mut i: usize = 0;
    while i < n
        invariant
            n == s@.len(),
            i <= n,
            count as int == colon_count(s@.subrange(0, i as int)),
            count <= i,
            last_colon(s@.subrange(0, i as int)) == if count == 0 { -1 } else { pos as int },
            count > 0 ==> pos < i,
        decreases n - i,
    {
        assert(s@.subrange(0, i as int + 1).drop_last() =~= s@.subrange(0, i as int));
        if s.get_char(i) == ':' {
            count = count + 1;
            pos = i;
        }
        i = i + 1;
    }
    assert(s@.subrange(0, n as int) =~= s@);
    if count != 1 {
        return Err(String::from_str("Invalid fan curve point. Expected format: TEMP:SPEED (e.g., 60:50)"));
    }
    let temp_text = s.substring_char(0, pos);
    let speed_text = s.substring_char(pos + 1, n);
    let temp_c = match parse_i32(temp_text) {
        Some(t) => t,
        None => {
            return Err(String::from_str("Invalid temperature: must be an integer"));
        },
    };
    let speed = match parse_unsigned(speed_text, 255) {
        Some(v) => v as u8,
        None => {
            return Err(String::from_str("Invalid speed: must be 0-100"));
        },
    };
    validate_fan_curve_point(temp_c, speed)
}

/// Reads a fan hysteresis in °C and accepts it within 1 to 10.
pub fn validate_fan_hysteresis(s: &str) -> (r: Result<i32, String>)
    ensures
        r.is_ok() <==> within(signed_value(s@), MIN_FAN_HYSTERESIS_C as int, MAX_FAN_HYSTERESIS_C as int) is Some,
        r matches Ok(v) ==> signed_value(s@) == Some(v as int),
{
    let v = match parse_i32(s) {
        Some(v) => v,
        None => {
            return Err(String::from_str("Fan hysteresis is not a valid number"));
        },
    };
    if v < MIN_FAN_HYSTERESIS_C {
        return Err(String::from_str("Fan hysteresis is too small (minimum: 1°C)"));
    }
    if v > MAX_FAN_HYSTERESIS_C {
        return Err(String::from_str("Fan hysteresis is too large (maximum: 10°C)"));
    }
    Ok(v)
}

/// Largest load threshold, in hundredths of a percent.
pub const MAX_THRESHOLD: u32 = 10_000;

/// Undervolt bounds of one core. Loads are in hundredths of a percent.
#[derive(Debug, Clone, Copy, PartialEq, Eq, Structural)]
pub struct CoreConfig {
    pub core_id: usize,
    /// Safe bound, closer to zero.
    pub min_mv: i32,
    /// Aggressive bound, more negative.
    pub max_mv: i32,
    /// Load threshold in hundredths of a percent.
    pub threshold: u32,
}

/// Accepts a core's bounds when both are at most zero, the aggressive bound
/// is at most the safe one, and the threshold (hundredths of a percent) lies
/// within 0 % to 100 %.
pub fn validate_core_config_values(core_id: usize, min_mv: i32, max_mv: i32, threshold: i32) -> (r: Result<CoreConfig, String>)
    ensures
        r.is_ok() <==> min_mv <= 0 && max_mv <= 0 && max_mv <= min_mv && 0 <= threshold <= MAX_THRESHOLD,
        r matches Ok(c) ==> c == (CoreConfig { core_id, min_mv, max_mv, threshold: threshold as u32 }),
{
    if min_mv > 0 {
        return Err(String::from_str("min_mv must be <= 0 (undervolt values are negative)"));
    }
    if max_mv > 0 {
        return Err(String::from_str("max_mv must be <= 0 (undervolt values are negative)"));
    }
    if max_mv > min_mv {
        return Err(String::from_str("max_mv must be <= min_mv (max is more aggressive/negative)"));
    }
    if threshold < 0 || threshold > MAX_THRESHOLD as i32 {
        return Err(String::from_str("Threshold must be between 0.0 and 100.0"));
    }
    Ok(CoreConfig { core_id, min_mv, max_mv, threshold: threshold as u32 })
}

pub open spec fn all_distinct(ids: Seq<usize>) -> bool {
    forall|i: int, j: int| 0 <= i < j < ids.len() ==> ids[i] != ids[j]
}

/// Checks the settings that depend on one another: core ids are distinct,
/// the tool's path is not empty, and a custom fan curve has two points.
pub fn validate_settings(
    core_ids: &[usize],
    ryzenadj_path: &str,
    fan_control: bool,
    fan_mode: FanControlMode,
    fan_curve_points: usize,
) -> (r: Result<(), String>)
    ensures
        r.is_ok() <==> all_distinct(core_ids@) && ryzenadj_path@.len() > 0
            && !(fan_control && fan_mode == FanControlMode::Custom && fan_curve_points < 2),
{
    let n = core_ids.len();
    let mut i: usize = 0;
    while i < n
        invariant
            n == core_ids@.len(),
            i <= n,
            forall|a: int, b: int| 0 <= a < b < n && a < i ==> core_ids@[a] != core_ids@[b],
        decreases n - i,
    {
        let mut j: usize = i + 1;
        while j < n
            invariant
                n == core_ids@.len(),
                i < n,
                i + 1 <= j <= n,
                forall|a: int, b: int| 0 <= a < b < n && a < i ==> core_ids@[a] != core_ids@[b],
                forall|b: int| i < b < j ==> core_ids@[i as int] != core_ids@[b],
            decreases n - j,
        {
            if core_ids[i] == core_ids[j] {
                return Err(String::from_str("Duplicate core ID"));
            }
            j = j + 1;
        }
        i = i + 1;
    }
    if ryzenadj_path.unicode_len() == 0 {
        return Err(String::from_str("ryzenadj-path cannot be empty"));
    }
    if fan_control && fan_mode == FanControlMode::Custom && fan_curve_points < 2 {
        return Err(String::from_str("Fan curve requires at least 2 points"));
    }
    Ok(())
}

} // verus!
