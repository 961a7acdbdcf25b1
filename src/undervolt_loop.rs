//! One undervolt control tick for every core: decision policy, dead-band
//! filter, fixed-step rate limiter, then the bounds clamp. The caller reads
//! the loads and hands the result to the actuator.

use vstd::prelude::*;
use crate::hysteresis::{HysteresisController, HysteresisState, next_state, MAX_HYSTERESIS_PERCENT, MIN_HYSTERESIS_PERCENT};
use crate::interpolation::{Interpolator, step_toward};
use crate::config::Strategy;
use crate::strategy::{CoreBounds, CustomStrategy, clamp_spec, clamp_to_bounds, custom_value, ramp_target, sort_by_load, target_spec};

verus! {

/// The load-to-undervolt policy: three fixed ramps between the bounds that
/// differ only in ramp time, or a user-defined curve.
#[derive(Debug, Clone)]
pub enum UndervoltPolicy {
    Conservative,
    Balanced,
    Aggressive,
    Custom(CustomStrategy),
}

pub open spec fn policy_ok(p: UndervoltPolicy) -> bool {
    match p {
        UndervoltPolicy::Custom(c) => c.spec_curve().len() > 0,
        _ => true,
    }
}

/// Target undervolt that a policy gives at `load` for a core's bounds.
pub open spec fn policy_target(p: UndervoltPolicy, load: u32, b: CoreBounds) -> int {
    match p {
        UndervoltPolicy::Custom(c) => clamp_spec(custom_value(c.spec_curve(), load), b),
        _ => target_spec(load, b),
    }
}

impl UndervoltPolicy {
    /// Target undervolt at `load` (hundredths of a percent).
    pub fn calculate_target(&self, load: u32, bounds: &CoreBounds) -> (r: i32)
        requires
            policy_ok(*self),
        ensures
            r as int == policy_target(*self, load, *bounds),
    {
        match self {
            UndervoltPolicy::Custom(c) => {
                let v = c.interpolate(load);
                clamp_to_bounds(v, bounds)
            },
            _ => ramp_target(load, bounds),
        }
    }

    /// Ramp time in milliseconds.
    pub fn ramp_time_ms(&self) -> (r: u64)
        ensures
            r == match *self {
                UndervoltPolicy::Conservative => 5000u64,
                UndervoltPolicy::Aggressive => 500u64,
                _ => 2000u64,
            },
    {
        match self {
            UndervoltPolicy::Conservative => 5000,
            UndervoltPolicy::Aggressive => 500,
            _ => 2000,
        }
    }

    /// The policy's name.
    pub fn name(&self) -> (r: &'static str)
        ensures
            r@ == match *self {
                UndervoltPolicy::Conservative => "conservative"@,
                UndervoltPolicy::Balanced => "balanced"@,
                UndervoltPolicy::Aggressive => "aggressive"@,
                UndervoltPolicy::Custom(_) => "custom"@,
            },
    {
        match self {
            UndervoltPolicy::Conservative => "conservative",
            UndervoltPolicy::Balanced => "balanced",
            UndervoltPolicy::Aggressive => "aggressive",
            UndervoltPolicy::Custom(_) => "custom",
        }
    }
}

/// The curve a custom policy uses when none is given: the most aggressive
/// offset at no load, none at full load.
pub open spec fn default_custom_curve() -> Seq<(u32, i32)> {
    seq![(0u32, -35i32), (10_000u32, 0i32)]
}

/// The policy for a strategy; a custom strategy takes the given curve, or
/// the default one.
pub fn create_strategy(strategy: Strategy, custom_curve: Option<Vec<(u32, i32)>>) -> (r: UndervoltPolicy)
    ensures
        policy_ok(r),
        strategy == Strategy::Conservative ==> r is Conservative,
        strategy == Strategy::Balanced ==> r is Balanced,
        strategy == Strategy::Aggressive ==> r is Aggressive,
        strategy == Strategy::Custom ==> (r matches UndervoltPolicy::Custom(c) && c.spec_curve().len() > 0 && match custom_curve {
            Some(v) => v@.len() > 0 ==> c.spec_curve() == sort_by_load(v@),
            None => c.spec_curve() == sort_by_load(default_custom_curve()),
        }),
{
    match strategy {
        Strategy::Conservative => UndervoltPolicy::Conservative,
        Strategy::Balanced => UndervoltPolicy::Balanced,
        Strategy::Aggressive => UndervoltPolicy::Aggressive,
        Strategy::Custom => {
            let curve = match custom_curve {
                Some(v) => v,
                None => {
                    let v = vec![(0u32, -35i32), (10_000u32, 0i32)];
                    assert(v@ =~= default_custom_curve());
                    v
                },
            };
            UndervoltPolicy::Custom(CustomStrategy::new(curve))
        },
    }
}

/// The filtered target of one core after a sample.
pub open spec fn filtered(s: HysteresisState, margin: int, p: UndervoltPolicy, load: u32, b: CoreBounds) -> HysteresisState {
    next_state(s, margin, load, policy_target(p, load, b) as i32)
}

/// The undervolt pipeline for a fixed set of cores.
pub struct UndervoltLoop {
    policy: UndervoltPolicy,
    bounds: Vec<CoreBounds>,
    hysteresis: HysteresisController,
    interpolator: Interpolator,
}

impl UndervoltLoop {
    pub closed spec fn spec_policy(&self) -> UndervoltPolicy {
        self.policy
    }

    pub closed spec fn spec_bounds(&self) -> Seq<CoreBounds> {
        self.bounds@
    }

    pub closed spec fn filters(&self) -> Seq<HysteresisState> {
        self.hysteresis.states()
    }

    pub closed spec fn margin(&self) -> int {
        self.hysteresis.margin() as int
    }

    pub closed spec fn ramp(&self) -> Interpolator {
        self.interpolator
    }

    pub open spec fn wf(&self) -> bool {
        &&& policy_ok(self.spec_policy())
        &&& self.filters().len() == self.spec_bounds().len()
        &&& self.ramp().wf()
        &&& self.ramp().currents().len() == self.spec_bounds().len()
    }

    /// A pipeline for one core per entry of `bounds`, all at zero, with the
    /// dead-band margin (1 % to 20 %, in hundredths of a percent) and the
    /// rate limiter's positive step (mV per tick).
    pub fn new(policy: UndervoltPolicy, bounds: Vec<CoreBounds>, margin: u32, step_mv: i32) -> (r: Self)
        requires
            policy_ok(policy),
            MIN_HYSTERESIS_PERCENT <= margin <= MAX_HYSTERESIS_PERCENT,
            step_mv > 0,
        ensures
            r.wf(),
            r.spec_policy() == policy,
            r.spec_bounds() == bounds@,
            r.margin() == margin,
            r.ramp().step() == step_mv,
            r.ramp().currents() == Seq::new(bounds@.len(), |i: int| 0i32),
    {
        let n = bounds.len();
        UndervoltLoop {
            policy,
            bounds,
            hysteresis: HysteresisController::new(margin, n),
            interpolator: Interpolator::with_step_size(n, step_mv),
        }
    }

    /// Number of cores.
    pub fn num_cores(&self) -> (r: usize)
        ensures
            r == self.spec_bounds().len(),
    {
        self.bounds.len()
    }

    /// One tick with one load per core: each core's policy target passes the
    /// dead band, becomes the rate limiter's target, the limiter moves one
    /// step, and the value is clamped to the core's bounds.
    pub fn tick(&mut self, loads: &[u32]) -> (r: Vec<i32>)
        requires
            old(self).wf(),
            loads@.len() == old(self).spec_bounds().len(),
        ensures
            final(self).wf(),
            final(self).spec_policy() == old(self).spec_policy(),
            final(self).spec_bounds() == old(self).spec_bounds(),
            final(self).margin() == old(self).margin(),
            final(self).ramp().step() == old(self).ramp().step(),
            r@.len() == loads@.len(),
            forall|i: int| 0 <= i < loads@.len() ==> {
                let f = #[trigger] filtered(
                    old(self).filters()[i],
                    old(self).margin(),
                    old(self).spec_policy(),
                    loads@[i],
                    old(self).spec_bounds()[i],
                );
                &&& final(self).filters()[i] == f
                &&& final(self).ramp().targets()[i] == f.last_output
                &&& final(self).ramp().currents()[i] as int == step_toward(
                    old(self).ramp().currents()[i] as int,
                    f.last_output as int,
                    old(self).ramp().step() as int,
                )
                &&& r@[i] as int == clamp_spec(final(self).ramp().currents()[i] as int, old(self).spec_bounds()[i])
            },
            forall|i: int| 0 <= i < loads@.len() && old(self).spec_bounds()[i].max_mv <= old(self).spec_bounds()[i].min_mv
                ==> old(self).spec_bounds()[i].max_mv <= #[trigger] r@[i] <= old(self).spec_bounds()[i].min_mv,
    {
        let n = self.bounds.len();
        let mut targets: Vec<i32> = Vec::new();
        let mut i: usize = 0;
        while i < n
            invariant
                n == self.bounds@.len(),
                n == loads@.len(),
                i <= n,
                self.bounds@ == old(self).bounds@,
                self.policy == old(self).policy,
                self.interpolator == old(self).interpolator,
                policy_ok(self.policy),
                self.hysteresis.margin() == old(self).hysteresis.margin(),
                self.hysteresis.states().len() == n,
                targets@.len() == i,
                forall|j: int| 0 <= j < i ==> self.hysteresis.states()[j] == filtered(
                    old(self).hysteresis.states()[j],
                    old(self).hysteresis.margin() as int,
                    old(self).policy,
                    loads@[j],
                    old(self).bounds@[j],
                ),
                forall|j: int| 0 <= j < i ==> targets@[j] == self.hysteresis.states()[j].last_output,
                forall|j: int| i <= j < n ==> self.hysteresis.states()[j] == old(self).hysteresis.states()[j],
            decreases n - i,
        {
            let t = self.policy.calculate_target(loads[i], &self.bounds[i]);
            let f = self.hysteresis.process(i, loads[i], t);
            targets.push(f);
            i = i + 1;
        }
        self.interpolator.set_targets(targets);
        let values = self.interpolator.tick();
        let mut out: Vec<i32> = Vec::new();
        let mut k: usize = 0;
        while k < n
            invariant
                n == self.bounds@.len(),
                n == values@.len(),
                k <= n,
                out@.len() == k,
                forall|j: int| 0 <= j < k ==> out@[j] as int == clamp_spec(values@[j] as int, self.bounds@[j]),
            decreases n - k,
        {
            out.push(clamp_to_bounds(values[k], &self.bounds[k]));
            k = k + 1;
        }
        out
    }

    /// The rate limiter's current values, clamped to the bounds as `tick`
    /// hands them out.
    pub fn current_values(&self) -> (r: Vec<i32>)
        requires
            self.wf(),
        ensures
            r@ == self.ramp().currents(),
    {
        self.interpolator.current_values()
    }

    /// Shutdown: every core to zero at once, bypassing the rate limit, and
    /// the dead band cleared. Returns the zeros to apply.
    pub fn shutdown(&mut self) -> (r: Vec<i32>)
        requires
            old(self).wf(),
        ensures
            final(self).wf(),
            r@ == Seq::new(old(self).spec_bounds().len(), |i: int| 0i32),
            final(self).ramp().currents() == r@,
            final(self).ramp().targets() == r@,
            final(self).spec_bounds() == old(self).spec_bounds(),
            final(self).spec_policy() == old(self).spec_policy(),
    {
        self.interpolator.force_reset_to_zero();
        self.hysteresis.reset();
        self.interpolator.current_values()
    }
}

} // verus!
