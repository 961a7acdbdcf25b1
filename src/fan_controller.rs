//! One fan control tick: moving average, hysteresis, curve, safety override,
//! rate limiting, and the decision whether to write the PWM.
//!
//! The caller reads the temperature, passes it in with the time elapsed
//! since the previous tick, and writes the PWM this type asks for.

use vstd::prelude::*;
use crate::fan_curve::{FanCurve, curve_speed, speed_to_pwm_spec};
use crate::fan_safety::{FanSafetyLimits, SafetyOverride, apply_safety_override, check_safety_override, guarded_pwm, override_at, MAX_SAFE_PWM};
use crate::smoother::{PWMSmoother, DEFAULT_RAMP_TIME_MS, smoothed, rounded_pwm};
use crate::hwmon::FanMode;
use crate::config::{FanControlMode, FanCurvePointConfig};
use crate::fan_curve::{FanCurvePoint, curve_accepts, point_of, sort_by_temp};

verus! {

/// Default temperature hysteresis (°C).
pub const DEFAULT_HYSTERESIS_TEMP: i32 = 2;

/// Default number of samples in the moving average.
pub const DEFAULT_SMOOTHING_SAMPLES: usize = 5;

/// Default smallest PWM change that is written.
pub const DEFAULT_MIN_PWM_CHANGE: u8 = 3;

/// Settings of the fan control tick.
#[derive(Debug, Clone, Copy)]
pub struct FanControllerConfig {
    /// Temperature change (°C) that moves the hysteresis baseline.
    pub hysteresis_temp: i32,
    /// Samples in the moving average.
    pub smoothing_samples: usize,
    /// Safety thresholds.
    pub safety_limits: FanSafetyLimits,
    /// Smallest PWM change worth writing.
    pub min_pwm_change: u8,
    /// Whether PWM changes are rate limited.
    pub pwm_smoothing_enabled: bool,
    /// Time to ramp the full PWM range, in milliseconds.
    pub pwm_ramp_time_ms: u32,
}

impl Default for FanControllerConfig {
    fn default() -> (r: Self)
        ensures
            r.hysteresis_temp == DEFAULT_HYSTERESIS_TEMP,
            r.smoothing_samples == DEFAULT_SMOOTHING_SAMPLES,
            r.min_pwm_change == DEFAULT_MIN_PWM_CHANGE,
            r.pwm_smoothing_enabled,
            r.pwm_ramp_time_ms == DEFAULT_RAMP_TIME_MS,
            r.safety_limits.critical_temp == crate::fan_safety::CRITICAL_TEMP_C,
            r.safety_limits.high_temp == crate::fan_safety::HIGH_TEMP_C,
            r.safety_limits.zero_rpm_max_temp == crate::fan_safety::ZERO_RPM_MAX_TEMP_C,
            !r.safety_limits.allow_zero_rpm,
    {
        FanControllerConfig {
            hysteresis_temp: DEFAULT_HYSTERESIS_TEMP,
            smoothing_samples: DEFAULT_SMOOTHING_SAMPLES,
            safety_limits: FanSafetyLimits::default(),
            min_pwm_change: DEFAULT_MIN_PWM_CHANGE,
            pwm_smoothing_enabled: true,
            pwm_ramp_time_ms: DEFAULT_RAMP_TIME_MS,
        }
    }
}

/// A snapshot of the fan.
#[derive(Debug, Clone, Copy)]
pub struct FanStatus {
    pub temp_c: i32,
    pub pwm: u8,
    pub speed_percent: u8,
    pub mode: FanMode,
    pub rpm: Option<u32>,
    pub safety_override_active: bool,
}

/// What a tick asks of the caller.
#[derive(Debug, Clone, Copy, PartialEq, Eq, Structural)]
pub struct FanUpdate {
    /// PWM to write now, if any.
    pub write: Option<u8>,
    /// PWM in effect after the tick.
    pub pwm: u8,
}

/// The last `n` samples of `h`.
pub open spec fn keep_last(h: Seq<i32>, n: usize) -> Seq<i32> {
    if h.len() > n { h.subrange(h.len() - n, h.len() as int) } else { h }
}

pub open spec fn seq_sum(h: Seq<i32>) -> int
    decreases h.len(),
{
    if h.len() == 0 { 0 } else { seq_sum(h.drop_last()) + h.last() }
}

/// `a / b` rounded toward zero, for `b > 0`.
pub open spec fn trunc_div(a: int, b: int) -> int {
    if a >= 0 { a / b } else { -((-a) / b) }
}

/// The moving average of the kept samples (`raw` when none are kept).
pub open spec fn average_temp(h: Seq<i32>, raw: i32) -> int {
    if h.len() == 0 { raw as int } else { trunc_div(seq_sum(h), h.len() as int) }
}

/// The hysteresis baseline after seeing `t`: it moves to `t` when none is
/// set or when `t` differs from it by more than `margin`; within ±margin,
/// bounds included, it stays.
pub open spec fn next_baseline(stable: Option<i32>, t: i32, margin: i32) -> i32 {
    match stable {
        None => t,
        Some(l) => if (t - l > margin) || (l - t > margin) { t } else { l },
    }
}

/// Once a temperature baseline is set, a temperature within ±margin of it
/// (bounds included) keeps the baseline; any other temperature becomes the
/// new baseline.
pub proof fn lemma_fan_dead_band(baseline: i32, t: i32, margin: i32)
    ensures
        baseline - margin <= t <= baseline + margin ==> next_baseline(Some(baseline), t, margin) == baseline,
        !(baseline - margin <= t <= baseline + margin) ==> next_baseline(Some(baseline), t, margin) == t,
{
}

/// Whether a change from `last` to `pwm` is written.
pub open spec fn worth_writing(pwm: u8, last: u8, min_change: u8) -> bool {
    (if pwm >= last { pwm - last } else { last - pwm }) >= min_change || pwm == 0 || pwm == 255
}

/// Fan control state: curve, settings, sample history, hysteresis baseline,
/// last written PWM and the rate limiter.
pub struct FanController {
    curve: FanCurve,
    config: FanControllerConfig,
    temp_history: Vec<i32>,
    last_stable_temp: Option<i32>,
    last_pwm: u8,
    active: bool,
    pwm_smoother: PWMSmoother,
}

impl FanController {
    pub closed spec fn spec_curve(&self) -> FanCurve {
        self.curve
    }

    pub closed spec fn spec_config(&self) -> FanControllerConfig {
        self.config
    }

    pub closed spec fn history(&self) -> Seq<i32> {
        self.temp_history@
    }

    pub closed spec fn baseline(&self) -> Option<i32> {
        self.last_stable_temp
    }

    pub closed spec fn last_written(&self) -> u8 {
        self.last_pwm
    }

    pub closed spec fn spec_active(&self) -> bool {
        self.active
    }

    pub closed spec fn smoother(&self) -> PWMSmoother {
        self.pwm_smoother
    }

    pub open spec fn wf(&self) -> bool {
        &&& self.smoother().wf()
        &&& self.history().len() <= self.spec_config().smoothing_samples
    }

    /// An inactive controller with the default curve and settings.
    pub fn new() -> (r: Self)
        ensures
            r.wf(),
            !r.spec_active(),
            r.history().len() == 0,
            r.baseline().is_none(),
            r.last_written() == 0,
            r.spec_curve().wf(),
    {
        FanController {
            curve: FanCurve::default(),
            config: FanControllerConfig::default(),
            temp_history: Vec::new(),
            last_stable_temp: None,
            last_pwm: 0,
            active: false,
            pwm_smoother: PWMSmoother::default(),
        }
    }

    /// Replaces the curve.
    pub fn set_curve(&mut self, curve: FanCurve)
        requires
            old(self).wf(),
        ensures
            final(self).wf(),
            final(self).spec_curve() == curve,
            final(self).spec_config() == old(self).spec_config(),
            final(self).history() == old(self).history(),
            final(self).baseline() == old(self).baseline(),
            final(self).smoother() == old(self).smoother(),
            final(self).spec_active() == old(self).spec_active(),
            final(self).last_written() == old(self).last_written(),
    {
        self.curve = curve;
    }

    /// Replaces the settings: keeps only the newest samples that the new
    /// average takes, and restarts the rate limiter if the ramp time changed.
    pub fn set_config(&mut self, config: FanControllerConfig)
        requires
            old(self).wf(),
        ensures
            final(self).wf(),
            final(self).spec_config() == config,
            final(self).history() == keep_last(old(self).history(), config.smoothing_samples),
            config.pwm_ramp_time_ms != old(self).spec_config().pwm_ramp_time_ms ==> final(self).smoother().current_spec() == 0,
            config.pwm_ramp_time_ms == old(self).spec_config().pwm_ramp_time_ms ==> final(self).smoother() == old(self).smoother(),
            final(self).spec_curve() == old(self).spec_curve(),
            final(self).baseline() == old(self).baseline(),
            final(self).spec_active() == old(self).spec_active(),
            final(self).last_written() == old(self).last_written(),
    {
        trim_front(&mut self.temp_history, config.smoothing_samples);
        if config.pwm_ramp_time_ms != self.config.pwm_ramp_time_ms {
            self.pwm_smoother = PWMSmoother::new(config.pwm_ramp_time_ms);
        }
        self.config = config;
    }

    /// Marks manual control as taken; the caller has set the manual mode.
    pub fn enable(&mut self)
        requires
            old(self).wf(),
        ensures
            final(self).wf(),
            final(self).spec_active(),
            final(self).spec_curve() == old(self).spec_curve(),
            final(self).spec_config() == old(self).spec_config(),
            final(self).history() == old(self).history(),
            final(self).baseline() == old(self).baseline(),
            final(self).smoother() == old(self).smoother(),
            final(self).last_written() == old(self).last_written(),
    {
        self.active = true;
    }

    /// Marks control as handed back: clears samples, baseline and ramp.
    pub fn disable(&mut self)
        requires
            old(self).wf(),
        ensures
            final(self).wf(),
            !final(self).spec_active(),
            final(self).history().len() == 0,
            final(self).baseline().is_none(),
            final(self).smoother().current_spec() == 0,
            final(self).smoother().target_spec() == 0,
            final(self).spec_curve() == old(self).spec_curve(),
            final(self).spec_config() == old(self).spec_config(),
            final(self).last_written() == old(self).last_written(),
    {
        self.active = false;
        self.temp_history = Vec::new();
        self.last_stable_temp = None;
        self.pwm_smoother.reset();
    }

    /// Whether manual control is taken.
    pub fn is_active(&self) -> (r: bool)
        ensures
            r == self.spec_active(),
    {
        self.active
    }

    /// One tick at raw temperature `raw_temp`, `elapsed_ms` after the
    /// previous one. At or above the critical temperature the PWM is the
    /// maximum at once, bypassing the rate limiter.
    pub fn update(&mut self, raw_temp: i32, elapsed_ms: u64) -> (r: FanUpdate)
        requires
            old(self).wf(),
        ensures
            final(self).wf(),
            !old(self).spec_active() ==> *final(self) == *old(self) && r == (FanUpdate { write: None, pwm: old(self).last_written() }),
            old(self).spec_active() ==> ({
                let cfg = old(self).spec_config();
                let limits = cfg.safety_limits;
                let h = keep_last(old(self).history().push(raw_temp), cfg.smoothing_samples);
                let avg = average_temp(h, raw_temp);
                let eff = next_baseline(old(self).baseline(), avg as i32, cfg.hysteresis_temp);
                let target = speed_to_pwm_spec(curve_speed(old(self).spec_curve().spec_points(), eff as int));
                let safe = guarded_pwm(target as u8, raw_temp as int, limits);
                let critical = raw_temp >= limits.critical_temp;
                let sm = old(self).smoother();
                let out: u8 = if critical || !cfg.pwm_smoothing_enabled {
                    safe
                } else {
                    rounded_pwm(smoothed(sm.current_spec(), safe, sm.inc_spec(), sm.dec_spec(), elapsed_ms as int)) as u8
                };
                let write = worth_writing(out, old(self).last_written(), cfg.min_pwm_change);
                &&& final(self).history() == h
                &&& final(self).baseline() == Some(eff)
                &&& r.write == (if write { Some(out) } else { None::<u8> })
                &&& r.pwm == (if write { out } else { old(self).last_written() })
                &&& final(self).last_written() == r.pwm
                &&& final(self).spec_active()
                &&& final(self).spec_curve() == old(self).spec_curve()
                &&& final(self).spec_config() == cfg
                &&& (critical ==> final(self).smoother().current_spec() == safe * 1000
                    && final(self).smoother().target_spec() == safe)
                &&& (!critical && cfg.pwm_smoothing_enabled ==> final(self).smoother().target_spec() == safe
                    && final(self).smoother().current_spec() == smoothed(sm.current_spec(), safe, sm.inc_spec(), sm.dec_spec(), elapsed_ms as int))
                &&& (!critical && !cfg.pwm_smoothing_enabled ==> final(self).smoother() == sm)
            }),
            old(self).spec_active() && raw_temp >= old(self).spec_config().safety_limits.critical_temp ==>
                r.pwm == MAX_SAFE_PWM && r.write == Some(MAX_SAFE_PWM),
    {
        if !self.active {
            return FanUpdate { write: None, pwm: self.last_pwm };
        }
        self.temp_history.push(raw_temp);
        trim_front(&mut self.temp_history, self.config.smoothing_samples);
        let avg = average(&self.temp_history, raw_temp);
        let eff = self.apply_hysteresis(avg);
        let speed = self.curve.calculate_speed(eff);
        let target = FanCurve::speed_to_pwm(speed);
        let limits = self.config.safety_limits;
        let safe = apply_safety_override(target, raw_temp, &limits);
        let critical = match check_safety_override(raw_temp, &limits) {
            SafetyOverride::ForcePwm(_) => true,
            _ => false,
        };
        let out: u8 = if self.config.pwm_smoothing_enabled && !critical {
            self.pwm_smoother.set_target(safe);
            self.pwm_smoother.update(elapsed_ms)
        } else if critical {
            self.pwm_smoother.force_immediate(safe);
            safe
        } else {
            safe
        };
        let diff: u8 = if out >= self.last_pwm { out - self.last_pwm } else { self.last_pwm - out };
        if diff >= self.config.min_pwm_change || out == 0 || out == 255 {
            self.last_pwm = out;
            FanUpdate { write: Some(out), pwm: out }
        } else {
            FanUpdate { write: None, pwm: self.last_pwm }
        }
    }

    fn apply_hysteresis(&mut self, temp: i32) -> (r: i32)
        ensures
            r == next_baseline(old(self).baseline(), temp, old(self).spec_config().hysteresis_temp),
            final(self).baseline() == Some(r),
            final(self).history() == old(self).history(),
            final(self).spec_config() == old(self).spec_config(),
            final(self).spec_curve() == old(self).spec_curve(),
            final(self).smoother() == old(self).smoother(),
            final(self).last_written() == old(self).last_written(),
            final(self).spec_active() == old(self).spec_active(),
    {
        match self.last_stable_temp {
            Some(last) => {
                let d: i64 = temp as i64 - last as i64;
                let m: i64 = self.config.hysteresis_temp as i64;
                if d > m || -d > m {
                    self.last_stable_temp = Some(temp);
                    temp
                } else {
                    last
                }
            },
            None => {
                self.last_stable_temp = Some(temp);
                temp
            },
        }
    }

    /// Sets the PWM at once, bypassing curve and rate limit; returns the
    /// value to write, or `None` when control is not taken.
    pub fn force_pwm(&mut self, pwm: u8) -> (r: Option<u8>)
        requires
            old(self).wf(),
        ensures
            final(self).wf(),
            old(self).spec_active() ==> r == Some(pwm) && final(self).last_written() == pwm
                && final(self).smoother().current_spec() == pwm * 1000
                && final(self).smoother().target_spec() == pwm,
            !old(self).spec_active() ==> r.is_none() && *final(self) == *old(self),
    {
        if self.active {
            self.pwm_smoother.force_immediate(pwm);
            self.last_pwm = pwm;
            Some(pwm)
        } else {
            None
        }
    }

    /// The rate limiter.
    pub fn pwm_smoother(&self) -> (r: &PWMSmoother)
        ensures
            *r == self.smoother(),
    {
        &self.pwm_smoother
    }

    /// The fan's status from readings taken by the caller.
    pub fn status_from(&self, temp_c: i32, pwm: u8, mode: FanMode, rpm: Option<u32>) -> (r: FanStatus)
        ensures
            r.temp_c == temp_c,
            r.pwm == pwm,
            r.speed_percent == (pwm as int) * 100 / 255,
            r.mode == mode,
            r.rpm == rpm,
            r.safety_override_active == (override_at(temp_c as int, self.spec_config().safety_limits) != SafetyOverride::NoOverride),
    {
        let ov = check_safety_override(temp_c, &self.config.safety_limits);
        let active = match ov {
            SafetyOverride::NoOverride => false,
            _ => true,
        };
        FanStatus { temp_c, pwm, speed_percent: FanCurve::pwm_to_speed(pwm), mode, rpm, safety_override_active: active }
    }
}

/// Drops the oldest samples until at most `n` are left.
fn trim_front(v: &mut Vec<i32>, n: usize)
    ensures
        final(v)@ == keep_last(old(v)@, n),
{
    let len0 = v.len();
    while v.len() > n
        invariant
            len0 == old(v)@.len(),
            v@.len() <= len0,
            v@ == old(v)@.subrange(len0 - v@.len(), len0 as int),
            len0 > n ==> v@.len() >= n,
            len0 <= n ==> v@.len() == len0,
        decreases v@.len(),
    {
        v.remove(0);
        assert(v@ =~= old(v)@.subrange(len0 - v@.len(), len0 as int));
    }
    if len0 <= n {
        assert(old(v)@.subrange(0, len0 as int) =~= old(v)@);
    }
}

/// The moving average of `h`, rounded toward zero, or `raw` when `h` is empty.
fn average(h: &Vec<i32>, raw: i32) -> (r: i32)
    ensures
        r as int == average_temp(h@, raw),
{
    let n = h.len();
    if n == 0 {
        return raw;
    }
    let mut sum: i128 = 0;
    let mut i: usize = 0;
    while i < n
        invariant
            n == h@.len(),
            i <= n,
            sum as int == seq_sum(h@.subrange(0, i as int)),
            i as int * (i32::MIN as int) <= sum <= i as int * (i32::MAX as int),
        decreases n - i,
    {
        assert(h@.subrange(0, i as int + 1).drop_last() =~= h@.subrange(0, i as int));
        sum = sum + h[i] as i128;
        i = i + 1;
    }
    assert(h@.subrange(0, n as int) =~= h@);
    let len: i128 = n as i128;
    let q: i128 = if sum >= 0 { sum / len } else { -((-sum) / len) };
    proof {
        let ni = n as int;
        vstd::arithmetic::div_mod::lemma_fundamental_div_mod_converse(ni * 2147483647, ni, 2147483647, 0);
        vstd::arithmetic::div_mod::lemma_fundamental_div_mod_converse(ni * 2147483648, ni, 2147483648, 0);
        if sum >= 0 {
            vstd::arithmetic::div_mod::lemma_div_is_ordered(0, sum as int, ni);
            vstd::arithmetic::div_mod::lemma_div_is_ordered(sum as int, ni * 2147483647, ni);
        } else {
            vstd::arithmetic::div_mod::lemma_div_is_ordered(0, -sum as int, ni);
            vstd::arithmetic::div_mod::lemma_div_is_ordered(-sum as int, ni * 2147483648, ni);
        }
    }
    q as i32
}

pub open spec fn config_points(points: Seq<FanCurvePointConfig>) -> Seq<FanCurvePoint> {
    points.map_values(|p: FanCurvePointConfig| point_of(p.temp_c, p.speed_percent))
}

/// A flat curve at one speed from 0 °C to 100 °C.
pub open spec fn flat_points(speed: u8) -> Seq<FanCurvePoint> {
    seq![point_of(0, speed), point_of(100, speed)]
}

/// Whether a fan mode takes manual control of the fan.
pub fn needs_manual_control(mode: FanControlMode) -> (r: bool)
    ensures
        r == (mode != FanControlMode::Default),
{
    match mode {
        FanControlMode::Default => false,
        _ => true,
    }
}

/// The curve a fan mode asks for, or `None` to keep the current one. The
/// custom mode takes the given points when they make a valid curve; the
/// fixed mode runs flat at the first point's speed.
pub fn curve_for_mode(mode: FanControlMode, points: &[FanCurvePointConfig]) -> (r: Option<FanCurve>)
    ensures
        mode == FanControlMode::Default ==> r.is_none(),
        mode == FanControlMode::Custom ==> (r.is_some() <==> curve_accepts(config_points(points@))),
        mode == FanControlMode::Custom && r.is_some() ==> r.unwrap().wf()
            && r.unwrap().spec_points() == sort_by_temp(config_points(points@)),
        mode == FanControlMode::Fixed ==> (r.is_some() <==> points@.len() > 0),
        mode == FanControlMode::Fixed && r.is_some() ==> r.unwrap().wf()
            && r.unwrap().spec_points() == flat_points(points@[0].speed_percent),
{
    match mode {
        FanControlMode::Default => None,
        FanControlMode::Custom => {
            let mut pts: Vec<FanCurvePoint> = Vec::new();
            let n = points.len();
            let mut k: usize = 0;
            while k < n
                invariant
                    n == points@.len(),
                    k <= n,
                    pts@.len() == k,
                    forall|i: int| 0 <= i < k ==> pts@[i] == point_of(points@[i].temp_c, points@[i].speed_percent),
                decreases n - k,
            {
                pts.push(FanCurvePoint::new(points[k].temp_c, points[k].speed_percent));
                k = k + 1;
            }
            assert(pts@ =~= config_points(points@));
            match FanCurve::new(pts) {
                Ok(c) => Some(c),
                Err(_) => None,
            }
        },
        FanControlMode::Fixed => {
            if points.len() == 0 {
                return None;
            }
            let s = points[0].speed_percent;
            let v = vec![FanCurvePoint::new(0, s), FanCurvePoint::new(100, s)];
            assert(v@ =~= flat_points(s));
            Some(FanCurve::from_sorted(v))
        },
    }
}

} // verus!
