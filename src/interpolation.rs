//! Fixed-step rate limiter for undervolt values.
//!
//! Each tick moves every core's current value one step toward its target,
//! or lands on the target once the remaining distance is at most one step.

use vstd::prelude::*;

verus! {

/// Default step size in millivolts per tick.
pub const DEFAULT_STEP_SIZE_MV: i32 = 1;

/// The value after one tick: one step toward `target`, or `target` itself
/// when the remaining distance is at most `step`.
pub open spec fn step_toward(current: int, target: int, step: int) -> int {
    if current == target {
        current
    } else if abs_int(target - current) <= step {
        target
    } else if target > current {
        current + step
    } else {
        current - step
    }
}

pub open spec fn abs_int(x: int) -> int {
    if x < 0 { -x } else { x }
}

/// The value after `k` ticks toward a fixed target.
pub open spec fn after_ticks(current: int, target: int, step: int, k: nat) -> int
    decreases k,
{
    if k == 0 {
        current
    } else {
        after_ticks(step_toward(current, target, step), target, step, (k - 1) as nat)
    }
}

/// Number of ticks needed to cover `distance` with steps of `step`.
pub open spec fn ceil_div(distance: int, step: int) -> int
    recommends step > 0, distance >= 0,
{
    (distance + step - 1) / step
}

pub open spec fn sum_distances(cur: Seq<i32>, tgt: Seq<i32>) -> int
    decreases cur.len(),
{
    if cur.len() == 0 {
        0
    } else {
        sum_distances(cur.drop_last(), tgt) + abs_int(
            tgt[cur.len() - 1] - cur[cur.len() - 1],
        )
    }
}

#[derive(Debug, Clone, Copy)]
struct CoreInterpolationState {
    current: i32,
    target: i32,
}

impl CoreInterpolationState {
    fn new() -> (r: Self)
        ensures
            r.current == 0,
            r.target == 0,
    {
        CoreInterpolationState { current: 0, target: 0 }
    }

    fn is_transitioning(&self) -> (r: bool)
        ensures
            r == (self.current != self.target),
    {
        self.current != self.target
    }

    fn tick(&mut self, step_size: i32) -> (r: i32)
        requires
            step_size > 0,
        ensures
            final(self).target == old(self).target,
            final(self).current as int == step_toward(
                old(self).current as int,
                old(self).target as int,
                step_size as int,
            ),
            r == final(self).current,
    {
        if self.current == self.target {
            return self.current;
        }
        let diff: i64 = self.target as i64 - self.current as i64;
        let dist: i64 = if diff < 0 { -diff } else { diff };
        if dist <= step_size as i64 {
            self.current = self.target;
        } else if diff > 0 {
            self.current = self.current + step_size;
        } else {
            self.current = self.current - step_size;
        }
        self.current
    }

    fn force_immediate(&mut self, value: i32)
        ensures
            final(self).current == value,
            final(self).target == value,
    {
        self.current = value;
        self.target = value;
    }
}

/// Rate limiter for several cores at once, with a shared positive step size.
#[derive(Debug, Clone)]
pub struct Interpolator {
    states: Vec<CoreInterpolationState>,
    step_size_mv: i32,
}

impl Interpolator {
    /// Current value of each core.
    pub closed spec fn currents(&self) -> Seq<i32> {
        self.states@.map_values(|s: CoreInterpolationState| s.current)
    }

    /// Target value of each core.
    pub closed spec fn targets(&self) -> Seq<i32> {
        self.states@.map_values(|s: CoreInterpolationState| s.target)
    }

    /// The step size in millivolts.
    pub closed spec fn step(&self) -> i32 {
        self.step_size_mv
    }

    pub open spec fn wf(&self) -> bool {
        &&& self.step() > 0
        &&& self.currents().len() == self.targets().len()
    }

    fn zeroed_states(num_cores: usize) -> (r: Vec<CoreInterpolationState>)
        ensures
            r@.len() == num_cores,
            forall|i: int| 0 <= i < num_cores ==> r@[i].current == 0 && r@[i].target == 0,
    {
        let mut v: Vec<CoreInterpolationState> = Vec::new();
        let mut k: usize = 0;
        while k < num_cores
            invariant
                k <= num_cores,
                v@.len() == k,
                forall|i: int| 0 <= i < k ==> v@[i].current == 0 && v@[i].target == 0,
            decreases num_cores - k,
        {
            v.push(CoreInterpolationState::new());
            k = k + 1;
        }
        v
    }

    /// Creates an interpolator for `num_cores` cores, all at zero, stepping
    /// by the default step size.
    pub fn new(num_cores: usize) -> (r: Self)
        ensures
            r.wf(),
            r.step() == DEFAULT_STEP_SIZE_MV,
            r.currents() == Seq::new(num_cores as nat, |i: int| 0i32),
            r.targets() == Seq::new(num_cores as nat, |i: int| 0i32),
    {
        let r = Interpolator { states: Self::zeroed_states(num_cores), step_size_mv: DEFAULT_STEP_SIZE_MV };
        assert(r.currents() =~= Seq::new(num_cores as nat, |i: int| 0i32));
        assert(r.targets() =~= Seq::new(num_cores as nat, |i: int| 0i32));
        r
    }

    /// Creates an interpolator with a custom positive step size.
    pub fn with_step_size(num_cores: usize, step_size_mv: i32) -> (r: Self)
        requires
            step_size_mv > 0,
        ensures
            r.wf(),
            r.step() == step_size_mv,
            r.currents() == Seq::new(num_cores as nat, |i: int| 0i32),
            r.targets() == Seq::new(num_cores as nat, |i: int| 0i32),
    {
        let r = Interpolator { states: Self::zeroed_states(num_cores), step_size_mv };
        assert(r.currents() =~= Seq::new(num_cores as nat, |i: int| 0i32));
        assert(r.targets() =~= Seq::new(num_cores as nat, |i: int| 0i32));
        r
    }

    /// Number of cores tracked.
    pub fn num_cores(&self) -> (r: usize)
        ensures
            r == self.currents().len(),
    {
        self.states.len()
    }

    /// The configured step size.
    pub fn step_size(&self) -> (r: i32)
        ensures
            r == self.step(),
    {
        self.step_size_mv
    }

    /// Sets the target of every core; current values are kept.
    pub fn set_targets(&mut self, targets: Vec<i32>)
        requires
            old(self).wf(),
            targets@.len() == old(self).currents().len(),
        ensures
            final(self).wf(),
            final(self).step() == old(self).step(),
            final(self).currents() == old(self).currents(),
            final(self).targets() == targets@,
    {
        let n = self.states.len();
        let mut k: usize = 0;
        while k < n
            invariant
                n == self.states@.len(),
                n == targets@.len(),
                k <= n,
                self.step_size_mv == old(self).step_size_mv,
                forall|i: int| 0 <= i < n ==> self.states@[i].current == old(self).states@[i].current,
                forall|i: int| 0 <= i < k ==> self.states@[i].target == targets@[i],
                forall|i: int| k <= i < n ==> self.states@[i].target == old(self).states@[i].target,
            decreases n - k,
        {
            let mut st = self.states[k];
            st.target = targets[k];
            self.states.set(k, st);
            k = k + 1;
        }
        assert(self.currents() =~= old(self).currents());
        assert(self.targets() =~= targets@);
    }

    /// Sets the target of one core.
    pub fn set_target(&mut self, core_idx: usize, target: i32)
        requires
            old(self).wf(),
            core_idx < old(self).currents().len(),
        ensures
            final(self).wf(),
            final(self).step() == old(self).step(),
            final(self).currents() == old(self).currents(),
            final(self).targets() == old(self).targets().update(core_idx as int, target),
    {
        let mut st = self.states[core_idx];
        st.target = target;
        self.states.set(core_idx, st);
        assert(self.currents() =~= old(self).currents());
        assert(self.targets() =~= old(self).targets().update(core_idx as int, target));
    }

    /// Moves every core one step toward its target and returns the new
    /// current values.
    pub fn tick(&mut self) -> (r: Vec<i32>)
        requires
            old(self).wf(),
        ensures
            final(self).wf(),
            final(self).step() == old(self).step(),
            final(self).targets() == old(self).targets(),
            final(self).currents().len() == old(self).currents().len(),
            forall|i: int| 0 <= i < old(self).currents().len() ==>
                final(self).currents()[i] as int == step_toward(
                    old(self).currents()[i] as int,
                    old(self).targets()[i] as int,
                    old(self).step() as int,
                ),
            r@ == final(self).currents(),
    {
        let n = self.states.len();
        let step = self.step_size_mv;
        let mut out: Vec<i32> = Vec::new();
        let mut k: usize = 0;
        while k < n
            invariant
                n == self.states@.len(),
                n == old(self).states@.len(),
                k <= n,
                step == self.step_size_mv,
                step == old(self).step_size_mv,
                step > 0,
                out@.len() == k,
                forall|i: int| 0 <= i < n ==> self.states@[i].target == old(self).states@[i].target,
                forall|i: int| 0 <= i < k ==> self.states@[i].current as int == step_toward(
                    old(self).states@[i].current as int,
                    old(self).states@[i].target as int,
                    step as int,
                ),
                forall|i: int| 0 <= i < k ==> out@[i] == self.states@[i].current,
                forall|i: int| k <= i < n ==> self.states@[i].current == old(self).states@[i].current,
            decreases n - k,
        {
            let mut st = self.states[k];
            let v = st.tick(step);
            self.states.set(k, st);
            out.push(v);
            k = k + 1;
        }
        assert(self.targets() =~= old(self).targets());
        assert(out@ =~= self.currents());
        out
    }

    /// Sets current and target of every core to the given values at once,
    /// bypassing the rate limit.
    pub fn force_immediate(&mut self, values: Vec<i32>)
        requires
            old(self).wf(),
            values@.len() == old(self).currents().len(),
        ensures
            final(self).wf(),
            final(self).step() == old(self).step(),
            final(self).currents() == values@,
            final(self).targets() == values@,
    {
        let n = self.states.len();
        let mut k: usize = 0;
        while k < n
            invariant
                n == self.states@.len(),
                n == values@.len(),
                k <= n,
                self.step_size_mv == old(self).step_size_mv,
                forall|i: int| 0 <= i < k ==> self.states@[i].current == values@[i]
                    && self.states@[i].target == values@[i],
            decreases n - k,
        {
            let mut st = self.states[k];
            st.force_immediate(values[k]);
            self.states.set(k, st);
            k = k + 1;
        }
        assert(self.currents() =~= values@);
        assert(self.targets() =~= values@);
    }

    /// Sets every core's current and target to zero at once.
    pub fn force_reset_to_zero(&mut self)
        requires
            old(self).wf(),
        ensures
            final(self).wf(),
            final(self).step() == old(self).step(),
            final(self).currents() == Seq::new(old(self).currents().len(), |i: int| 0i32),
            final(self).targets() == Seq::new(old(self).currents().len(), |i: int| 0i32),
    {
        let n = self.states.len();
        let mut k: usize = 0;
        while k < n
            invariant
                n == self.states@.len(),
                n == old(self).states@.len(),
                k <= n,
                self.step_size_mv == old(self).step_size_mv,
                forall|i: int| 0 <= i < k ==> self.states@[i].current == 0
                    && self.states@[i].target == 0,
            decreases n - k,
        {
            let mut st = self.states[k];
            st.force_immediate(0);
            self.states.set(k, st);
            k = k + 1;
        }
        assert(self.currents() =~= Seq::new(old(self).currents().len(), |i: int| 0i32));
        assert(self.targets() =~= Seq::new(old(self).currents().len(), |i: int| 0i32));
    }

    /// Whether any core differs from its target.
    pub fn is_transitioning(&self) -> (r: bool)
        requires
            self.wf(),
        ensures
            r == exists|i: int| 0 <= i < self.currents().len()
                && self.currents()[i] != self.targets()[i],
    {
        let n = self.states.len();
        let mut k: usize = 0;
        while k < n
            invariant
                n == self.states@.len(),
                k <= n,
                forall|i: int| 0 <= i < k ==> self.states@[i].current == self.states@[i].target,
            decreases n - k,
        {
            if self.states[k].is_transitioning() {
                assert(self.currents()[k as int] != self.targets()[k as int]);
                return true;
            }
            k = k + 1;
        }
        assert(forall|i: int| 0 <= i < self.currents().len() ==>
            self.currents()[i] == self.targets()[i]);
        false
    }

    /// Whether the given core differs from its target.
    pub fn is_core_transitioning(&self, core_idx: usize) -> (r: bool)
        requires
            self.wf(),
            core_idx < self.currents().len(),
        ensures
            r == (self.currents()[core_idx as int] != self.targets()[core_idx as int]),
    {
        self.states[core_idx].is_transitioning()
    }

    /// Current values of all cores.
    pub fn current_values(&self) -> (r: Vec<i32>)
        ensures
            r@ == self.currents(),
    {
        let n = self.states.len();
        let mut out: Vec<i32> = Vec::new();
        let mut k: usize = 0;
        while k < n
            invariant
                n == self.states@.len(),
                k <= n,
                out@.len() == k,
                forall|i: int| 0 <= i < k ==> out@[i] == self.states@[i].current,
            decreases n - k,
        {
            out.push(self.states[k].current);
            k = k + 1;
        }
        assert(out@ =~= self.currents());
        out
    }

    /// Target values of all cores.
    pub fn target_values(&self) -> (r: Vec<i32>)
        ensures
            r@ == self.targets(),
    {
        let n = self.states.len();
        let mut out: Vec<i32> = Vec::new();
        let mut k: usize = 0;
        while k < n
            invariant
                n == self.states@.len(),
                k <= n,
                out@.len() == k,
                forall|i: int| 0 <= i < k ==> out@[i] == self.states@[i].target,
            decreases n - k,
        {
            out.push(self.states[k].target);
            k = k + 1;
        }
        assert(out@ =~= self.targets());
        out
    }

    /// Current value of one core.
    pub fn current_value(&self, core_idx: usize) -> (r: i32)
        requires
            core_idx < self.currents().len(),
        ensures
            r == self.currents()[core_idx as int],
    {
        self.states[core_idx].current
    }

    /// Target value of one core.
    pub fn target_value(&self, core_idx: usize) -> (r: i32)
        requires
            self.wf(),
            core_idx < self.targets().len(),
        ensures
            r == self.targets()[core_idx as int],
    {
        self.states[core_idx].target
    }

    /// Distance between one core's current value and its target; the
    /// distance must fit in an `i32`.
    pub fn remaining_distance(&self, core_idx: usize) -> (r: i32)
        requires
            self.wf(),
            core_idx < self.currents().len(),
            abs_int(self.targets()[core_idx as int] - self.currents()[core_idx as int]) <= i32::MAX,
        ensures
            r as int == abs_int(self.targets()[core_idx as int] - self.currents()[core_idx as int]),
    {
        let st = self.states[core_idx];
        let d: i64 = st.target as i64 - st.current as i64;
        if d < 0 { (-d) as i32 } else { d as i32 }
    }

    /// Sum over all cores of the distance to target; the sum must fit in an
    /// `i32`.
    pub fn total_remaining_distance(&self) -> (r: i32)
        requires
            self.wf(),
            sum_distances(self.currents(), self.targets()) <= i32::MAX,
        ensures
            r as int == sum_distances(self.currents(), self.targets()),
    {
        let n = self.states.len();
        let mut total: i64 = 0;
        let mut k: usize = 0;
        while k < n
            invariant
                n == self.states@.len(),
                k <= n,
                self.wf(),
                sum_distances(self.currents(), self.targets()) <= i32::MAX,
                total >= 0,
                total as int == sum_distances(self.currents().subrange(0, k as int), self.targets()),
            decreases n - k,
        {
            let st = self.states[k];
            let d: i64 = st.target as i64 - st.current as i64;
            let ad: i64 = if d < 0 { -d } else { d };
            proof {
                let c = self.currents();
                assert(c.subrange(0, k as int + 1).drop_last() =~= c.subrange(0, k as int));
                lemma_sum_prefix_bound(c, self.targets(), k as int + 1);
            }
            total = total + ad;
            k = k + 1;
        }
        assert(self.currents().subrange(0, n as int) =~= self.currents());
        total as i32
    }
}

proof fn lemma_sum_prefix_bound(cur: Seq<i32>, tgt: Seq<i32>, k: int)
    requires
        0 <= k <= cur.len(),
    ensures
        sum_distances(cur.subrange(0, k), tgt) <= sum_distances(cur, tgt),
    decreases cur.len(),
{
    if k < cur.len() {
        assert(cur.drop_last().subrange(0, k) =~= cur.subrange(0, k));
        lemma_sum_prefix_bound(cur.drop_last(), tgt, k);
    } else {
        assert(cur.subrange(0, k) =~= cur);
    }
}

/// A tick moves a value exactly one step toward its target, or lands on the
/// target when the remaining distance is at most one step.
pub proof fn lemma_tick_moves_one_step(current: int, target: int, step: int)
    requires
        step > 0,
    ensures
        abs_int(target - current) <= step ==> step_toward(current, target, step) == target,
        abs_int(target - current) > step ==> abs_int(step_toward(current, target, step) - current)
            == step,
        abs_int(target - current) > step ==> abs_int(target - step_toward(current, target, step))
            == abs_int(target - current) - step,
{
}

/// Starting at distance `d` from a fixed target, the value reaches the
/// target after exactly `ceil(d / step)` ticks, and at no earlier tick.
pub proof fn lemma_ticks_to_converge(current: int, target: int, step: int)
    requires
        step > 0,
    ensures
        after_ticks(current, target, step, ceil_div(abs_int(target - current), step) as nat)
            == target,
        forall|k: nat| k < ceil_div(abs_int(target - current), step) ==>
            #[trigger] after_ticks(current, target, step, k) != target,
    decreases abs_int(target - current),
{
    let d = abs_int(target - current);
    if d == 0 {
        assert(ceil_div(d, step) == 0) by (nonlinear_arith)
            requires d == 0, step > 0;
    } else if d <= step {
        assert(ceil_div(d, step) == 1) by (nonlinear_arith)
            requires 0 < d <= step;
        assert(after_ticks(current, target, step, 1) == after_ticks(target, target, step, 0));
        assert forall|k: nat| k < ceil_div(d, step) implies
            #[trigger] after_ticks(current, target, step, k) != target by {
            assert(k == 0);
        }
    } else {
        let next = step_toward(current, target, step);
        lemma_ticks_to_converge(next, target, step);
        let d2 = abs_int(target - next);
        assert(d2 == d - step);
        assert(ceil_div(d, step) == ceil_div(d2, step) + 1) by (nonlinear_arith)
            requires d2 == d - step, step > 0, d2 > 0,
        {
            assert((d2 + step - 1) + step == d + step - 1);
            vstd::arithmetic::div_mod::lemma_div_plus_one(d2 + step - 1, step);
        }
        let c = ceil_div(d, step);
        assert(after_ticks(current, target, step, c as nat) == after_ticks(
            next,
            target,
            step,
            (c - 1) as nat,
        ));
        assert forall|k: nat| k < ceil_div(d, step) implies
            #[trigger] after_ticks(current, target, step, k) != target by {
            if k > 0 {
                assert(after_ticks(current, target, step, k) == after_ticks(
                    next,
                    target,
                    step,
                    (k - 1) as nat,
                ));
            }
        }
    }
}

} // verus!
