//! Asymmetric rate limiter for the fan's PWM output.
//!
//! The value is held in thousandths of a PWM unit. Time is handed in by the
//! caller as milliseconds elapsed since the previous update. Decreasing runs
//! at exactly half the rate of increasing.

use vstd::prelude::*;

verus! {

/// Default time to ramp from 0 to 255 PWM, in milliseconds.
pub const DEFAULT_RAMP_TIME_MS: u32 = 2000;

/// Shortest accepted ramp time, in milliseconds.
pub const MIN_RAMP_TIME_MS: u32 = 100;

/// Thousandths of a PWM unit in one unit.
pub const MILLI: u64 = 1000;

/// Full scale in thousandths of a PWM unit.
pub const FULL_SCALE_MILLI: u64 = 255_000;

/// Distance under which the value snaps to the target (half a unit).
pub const SNAP_MILLI: u64 = 500;

/// The ramp time actually used: at least 100 ms.
pub open spec fn effective_ramp_ms(ramp_time_ms: u32) -> int {
    if ramp_time_ms < MIN_RAMP_TIME_MS { MIN_RAMP_TIME_MS as int } else { ramp_time_ms as int }
}

/// Increase rate in thousandths of a unit per second: full scale over the
/// ramp time, rounded down to an even number.
pub open spec fn increase_rate(ramp_time_ms: u32) -> int {
    2 * ((FULL_SCALE_MILLI * MILLI) as int / (2 * effective_ramp_ms(ramp_time_ms)))
}

/// Nearest whole PWM unit of a value in thousandths, halves rounded up.
pub open spec fn rounded_pwm(milli: int) -> int {
    (milli + 500) / 1000
}

/// Value after one update, in thousandths of a unit.
pub open spec fn smoothed(current: int, target: u8, inc: int, dec: int, elapsed_ms: int) -> int {
    let diff = target * 1000 - current;
    if -500 < diff < 500 {
        target * 1000
    } else {
        let rate = if diff > 0 { inc } else { dec };
        let max_change = rate * elapsed_ms / 1000;
        let change = if diff > max_change { max_change } else if diff < -max_change { -max_change } else { diff };
        let v = current + change;
        if v < 0 { 0 } else if v > 255000 { 255000 } else { v }
    }
}

/// Rate-limited PWM value moving toward a target.
#[derive(Debug)]
pub struct PWMSmoother {
    current_milli: u64,
    target_pwm: u8,
    ramp_rate_increase: u64,
    ramp_rate_decrease: u64,
}

impl PWMSmoother {
    pub closed spec fn current_spec(&self) -> int {
        self.current_milli as int
    }

    pub closed spec fn target_spec(&self) -> u8 {
        self.target_pwm
    }

    pub closed spec fn inc_spec(&self) -> int {
        self.ramp_rate_increase as int
    }

    pub closed spec fn dec_spec(&self) -> int {
        self.ramp_rate_decrease as int
    }

    pub open spec fn wf(&self) -> bool {
        &&& 0 <= self.current_spec() <= FULL_SCALE_MILLI
        &&& 0 <= self.inc_spec() <= 2_550_000
        &&& self.inc_spec() == 2 * self.dec_spec()
    }

    /// A smoother at 0 that ramps the full scale in `ramp_time_ms`
    /// (at least 100 ms).
    pub fn new(ramp_time_ms: u32) -> (r: Self)
        ensures
            r.wf(),
            r.current_spec() == 0,
            r.target_spec() == 0,
            r.inc_spec() == increase_rate(ramp_time_ms),
            r.dec_spec() * 2 == r.inc_spec(),
    {
        let ramp: u64 = if ramp_time_ms < MIN_RAMP_TIME_MS { MIN_RAMP_TIME_MS as u64 } else { ramp_time_ms as u64 };
        let half: u64 = (FULL_SCALE_MILLI * MILLI) / (2 * ramp);
        proof {
            vstd::arithmetic::div_mod::lemma_div_is_ordered_by_denominator(
                (FULL_SCALE_MILLI * MILLI) as int,
                200,
                2 * ramp as int,
            );
            vstd::arithmetic::div_mod::lemma_div_is_ordered_by_denominator(
                (FULL_SCALE_MILLI * MILLI) as int,
                2 * ramp as int,
                0x2_0000_0000,
            );
        }
        assert(half <= 1_275_000);
        PWMSmoother { current_milli: 0, target_pwm: 0, ramp_rate_increase: 2 * half, ramp_rate_decrease: half }
    }

    /// Sets the value to move toward.
    pub fn set_target(&mut self, target: u8)
        requires
            old(self).wf(),
        ensures
            final(self).wf(),
            final(self).target_spec() == target,
            final(self).current_spec() == old(self).current_spec(),
            final(self).inc_spec() == old(self).inc_spec(),
            final(self).dec_spec() == old(self).dec_spec(),
    {
        self.target_pwm = target;
    }

    /// The value being moved toward.
    pub fn target(&self) -> (r: u8)
        ensures
            r == self.target_spec(),
    {
        self.target_pwm
    }

    /// The current value, rounded to a whole PWM unit.
    pub fn current(&self) -> (r: u8)
        requires
            self.wf(),
        ensures
            r as int == rounded_pwm(self.current_spec()),
    {
        ((self.current_milli + 500) / 1000) as u8
    }

    /// Moves toward the target by at most the rate times the elapsed time,
    /// snapping to it within half a unit, and returns the rounded value.
    pub fn update(&mut self, elapsed_ms: u64) -> (r: u8)
        requires
            old(self).wf(),
        ensures
            final(self).wf(),
            final(self).target_spec() == old(self).target_spec(),
            final(self).inc_spec() == old(self).inc_spec(),
            final(self).dec_spec() == old(self).dec_spec(),
            final(self).current_spec() == smoothed(
                old(self).current_spec(),
                old(self).target_spec(),
                old(self).inc_spec(),
                old(self).dec_spec(),
                elapsed_ms as int,
            ),
            r as int == rounded_pwm(final(self).current_spec()),
            old(self).current_spec() <= old(self).target_spec() * 1000 ==> old(self).current_spec()
                <= final(self).current_spec() <= old(self).target_spec() * 1000,
            old(self).target_spec() * 1000 <= old(self).current_spec() ==> old(self).target_spec() * 1000
                <= final(self).current_spec() <= old(self).current_spec(),
    {
        let target_milli: i64 = self.target_pwm as i64 * 1000;
        let cur: i64 = self.current_milli as i64;
        let diff: i64 = target_milli - cur;
        if -500 < diff && diff < 500 {
            self.current_milli = target_milli as u64;
        } else {
            let rate: u64 = if diff > 0 { self.ramp_rate_increase } else { self.ramp_rate_decrease };
            assert(rate <= 2_550_000);
            assert(rate as int * elapsed_ms as int <= 2_550_000 * 0xffff_ffff_ffff_ffff) by (nonlinear_arith)
                requires 0 <= rate <= 2_550_000, 0 <= elapsed_ms <= 0xffff_ffff_ffff_ffff;
            let prod: u128 = rate as u128 * elapsed_ms as u128;
            let mc: u128 = prod / 1000;
            let change: i64 = if (diff as i128) > (mc as i128) {
                mc as i64
            } else if (diff as i128) < -(mc as i128) {
                -(mc as i64)
            } else {
                diff
            };
            let v: i64 = cur + change;
            let c: i64 = if v < 0 { 0 } else if v > 255000 { 255000 } else { v };
            self.current_milli = c as u64;
        }
        ((self.current_milli + 500) / 1000) as u8
    }

    /// Sets value and target at once, bypassing the rate limit.
    pub fn force_immediate(&mut self, pwm: u8)
        requires
            old(self).wf(),
        ensures
            final(self).wf(),
            final(self).current_spec() == pwm as int * 1000,
            final(self).target_spec() == pwm,
            final(self).inc_spec() == old(self).inc_spec(),
            final(self).dec_spec() == old(self).dec_spec(),
    {
        self.current_milli = pwm as u64 * 1000;
        self.target_pwm = pwm;
    }

    /// Increase rate, in thousandths of a PWM unit per second.
    pub fn ramp_rate_increase(&self) -> (r: u64)
        ensures
            r == self.inc_spec(),
    {
        self.ramp_rate_increase
    }

    /// Decrease rate, in thousandths of a PWM unit per second.
    pub fn ramp_rate_decrease(&self) -> (r: u64)
        ensures
            r == self.dec_spec(),
    {
        self.ramp_rate_decrease
    }

    /// Whether the value is within half a unit of the target.
    pub fn at_target(&self) -> (r: bool)
        requires
            self.wf(),
        ensures
            r == (-500 < self.target_spec() * 1000 - self.current_spec() < 500),
    {
        let d: i64 = self.target_pwm as i64 * 1000 - self.current_milli as i64;
        -500 < d && d < 500
    }

    /// Returns value and target to zero.
    pub fn reset(&mut self)
        requires
            old(self).wf(),
        ensures
            final(self).wf(),
            final(self).current_spec() == 0,
            final(self).target_spec() == 0,
            final(self).inc_spec() == old(self).inc_spec(),
            final(self).dec_spec() == old(self).dec_spec(),
    {
        self.current_milli = 0;
        self.target_pwm = 0;
    }
}

impl Default for PWMSmoother {
    fn default() -> (r: Self)
        ensures
            r.wf(),
            r.current_spec() == 0,
            r.target_spec() == 0,
            r.inc_spec() == increase_rate(DEFAULT_RAMP_TIME_MS),
    {
        PWMSmoother::new(DEFAULT_RAMP_TIME_MS)
    }
}

/// Whatever the ramp time, the increase rate is even, so the decrease rate
/// (half of it) is exactly 50 % of the increase rate; every smoother keeps
/// that relation between its two rates.
pub proof fn lemma_asymmetric_ramp(ramp_time_ms: u32, s: PWMSmoother)
    requires
        s.wf(),
    ensures
        increase_rate(ramp_time_ms) % 2 == 0,
        (increase_rate(ramp_time_ms) / 2) * 2 == increase_rate(ramp_time_ms),
        s.dec_spec() * 2 == s.inc_spec(),
{
}

} // verus!
