//! Per-core dead-band filter for undervolt targets.
//!
//! Loads are integers in hundredths of a percent (`10_000` is 100 %). While a
//! core's load stays within ±margin of the load that last changed its output,
//! the output is held.

use vstd::prelude::*;
use vstd::string::*;

verus! {

/// Smallest accepted margin: 1 % in hundredths of a percent.
pub const MIN_HYSTERESIS_PERCENT: u32 = 100;

/// Largest accepted margin: 20 % in hundredths of a percent.
pub const MAX_HYSTERESIS_PERCENT: u32 = 2000;

/// Filter state of one core.
#[derive(Debug, Clone, Copy, PartialEq, Eq, Structural)]
pub struct HysteresisState {
    /// Load that last changed the output; `None` before the first sample.
    pub last_stable_load: Option<u32>,
    /// Output last returned.
    pub last_output: i32,
    /// Whether the last sample fell in the dead band.
    pub in_dead_band: bool,
}

/// The state of a core before any sample.
pub open spec fn initial_state() -> HysteresisState {
    HysteresisState { last_stable_load: None, last_output: 0, in_dead_band: false }
}

/// Whether `load` lies within `margin` of `baseline`, bounds included.
pub open spec fn within_band(baseline: int, margin: int, load: int) -> bool {
    baseline - margin <= load && load <= baseline + margin
}

/// State after one sample.
pub open spec fn next_state(s: HysteresisState, margin: int, load: u32, candidate: i32) -> HysteresisState {
    match s.last_stable_load {
        None => HysteresisState { last_stable_load: Some(load), last_output: candidate, in_dead_band: false },
        Some(b) => if within_band(b as int, margin, load as int) {
            HysteresisState { in_dead_band: true, ..s }
        } else {
            HysteresisState { last_stable_load: Some(load), last_output: candidate, in_dead_band: false }
        },
    }
}

impl HysteresisState {
    fn new() -> (r: Self)
        ensures
            r == initial_state(),
    {
        HysteresisState { last_stable_load: None, last_output: 0, in_dead_band: false }
    }
}

/// Dead-band filters for a fixed number of cores with one shared margin.
#[derive(Debug, Clone)]
pub struct HysteresisController {
    margin_percent: u32,
    per_core_state: Vec<HysteresisState>,
}

impl HysteresisController {
    /// The state of each core.
    pub closed spec fn states(&self) -> Seq<HysteresisState> {
        self.per_core_state@
    }

    /// The margin in hundredths of a percent.
    pub closed spec fn margin(&self) -> u32 {
        self.margin_percent
    }

    /// A controller for `num_cores` cores, none with a baseline yet. The
    /// margin lies within 1 % to 20 %.
    pub fn new(margin_percent: u32, num_cores: usize) -> (r: Self)
        requires
            MIN_HYSTERESIS_PERCENT <= margin_percent <= MAX_HYSTERESIS_PERCENT,
        ensures
            r.margin() == margin_percent,
            r.states() == Seq::new(num_cores as nat, |i: int| initial_state()),
    {
        let mut v: Vec<HysteresisState> = Vec::new();
        let mut k: usize = 0;
        while k < num_cores
            invariant
                k <= num_cores,
                v@.len() == k,
                forall|i: int| 0 <= i < k ==> v@[i] == initial_state(),
            decreases num_cores - k,
        {
            v.push(HysteresisState::new());
            k = k + 1;
        }
        let r = HysteresisController { margin_percent, per_core_state: v };
        assert(r.states() =~= Seq::new(num_cores as nat, |i: int| initial_state()));
        r
    }

    /// The margin in hundredths of a percent.
    pub fn margin_percent(&self) -> (r: u32)
        ensures
            r == self.margin(),
    {
        self.margin_percent
    }

    /// Number of cores tracked.
    pub fn num_cores(&self) -> (r: usize)
        ensures
            r == self.states().len(),
    {
        self.per_core_state.len()
    }

    /// Filters a candidate output for one core. The first sample sets the
    /// baseline and passes the candidate through. Later, a load within
    /// ±margin of the baseline returns the held output; any other load
    /// re-centres the baseline on itself and passes the candidate through.
    /// No other core's state changes.
    pub fn process(&mut self, core_idx: usize, load: u32, raw_target: i32) -> (r: i32)
        requires
            core_idx < old(self).states().len(),
        ensures
            final(self).margin() == old(self).margin(),
            final(self).states() == old(self).states().update(
                core_idx as int,
                next_state(old(self).states()[core_idx as int], old(self).margin() as int, load, raw_target),
            ),
            r == final(self).states()[core_idx as int].last_output,
            forall|j: int| 0 <= j < old(self).states().len() && j != core_idx ==>
                final(self).states()[j] == old(self).states()[j],
    {
        let mut st = self.per_core_state[core_idx];
        let out: i32;
        match st.last_stable_load {
            None => {
                st = HysteresisState { last_stable_load: Some(load), last_output: raw_target, in_dead_band: false };
                out = raw_target;
            },
            Some(b) => {
                let lower: i64 = b as i64 - self.margin_percent as i64;
                let upper: i64 = b as i64 + self.margin_percent as i64;
                if load as i64 >= lower && load as i64 <= upper {
                    st.in_dead_band = true;
                    out = st.last_output;
                } else {
                    st = HysteresisState { last_stable_load: Some(load), last_output: raw_target, in_dead_band: false };
                    out = raw_target;
                }
            },
        }
        self.per_core_state.set(core_idx, st);
        out
    }

    /// Whether the core's last sample fell in the dead band.
    pub fn is_in_dead_band(&self, core_idx: usize) -> (r: bool)
        requires
            core_idx < self.states().len(),
        ensures
            r == self.states()[core_idx as int].in_dead_band,
    {
        self.per_core_state[core_idx].in_dead_band
    }

    /// The load that last changed the core's output, if any.
    pub fn last_stable_load(&self, core_idx: usize) -> (r: Option<u32>)
        requires
            core_idx < self.states().len(),
        ensures
            r == self.states()[core_idx as int].last_stable_load,
    {
        self.per_core_state[core_idx].last_stable_load
    }

    /// The core's last output.
    pub fn last_output(&self, core_idx: usize) -> (r: i32)
        requires
            core_idx < self.states().len(),
        ensures
            r == self.states()[core_idx as int].last_output,
    {
        self.per_core_state[core_idx].last_output
    }

    /// Returns every core to its state before any sample.
    pub fn reset(&mut self)
        ensures
            final(self).margin() == old(self).margin(),
            final(self).states() == Seq::new(old(self).states().len(), |i: int| initial_state()),
    {
        let n = self.per_core_state.len();
        let mut k: usize = 0;
        while k < n
            invariant
                n == self.per_core_state@.len(),
                k <= n,
                self.margin_percent == old(self).margin_percent,
                forall|i: int| 0 <= i < k ==> self.per_core_state@[i] == initial_state(),
            decreases n - k,
        {
            self.per_core_state.set(k, HysteresisState::new());
            k = k + 1;
        }
        assert(self.states() =~= Seq::new(old(self).states().len(), |i: int| initial_state()));
    }

    /// Returns one core to its state before any sample.
    pub fn reset_core(&mut self, core_idx: usize)
        requires
            core_idx < old(self).states().len(),
        ensures
            final(self).margin() == old(self).margin(),
            final(self).states() == old(self).states().update(core_idx as int, initial_state()),
    {
        self.per_core_state.set(core_idx, HysteresisState::new());
    }
}

/// Accepts a margin within 1 % to 20 % (in hundredths of a percent).
pub fn validate_hysteresis_margin(margin: u32) -> (r: Result<u32, String>)
    ensures
        r.is_ok() <==> MIN_HYSTERESIS_PERCENT <= margin <= MAX_HYSTERESIS_PERCENT,
        r matches Ok(m) ==> m == margin,
{
    if margin < MIN_HYSTERESIS_PERCENT {
        return Err(String::from_str("Hysteresis margin is too small (minimum: 1%)"));
    }
    if margin > MAX_HYSTERESIS_PERCENT {
        return Err(String::from_str("Hysteresis margin is too large (maximum: 20%)"));
    }
    Ok(margin)
}

/// Once a baseline is set, a load within ±margin of it keeps the previous
/// output and the baseline, whatever the candidate; a load outside re-centres
/// the baseline on that load and takes the candidate.
pub proof fn lemma_dead_band(s: HysteresisState, margin: int, load: u32, candidate: i32)
    requires
        s.last_stable_load.is_some(),
    ensures
        within_band(s.last_stable_load.unwrap() as int, margin, load as int) ==> {
            &&& next_state(s, margin, load, candidate).last_output == s.last_output
            &&& next_state(s, margin, load, candidate).last_stable_load == s.last_stable_load
            &&& next_state(s, margin, load, candidate).in_dead_band
        },
        !within_band(s.last_stable_load.unwrap() as int, margin, load as int) ==> {
            &&& next_state(s, margin, load, candidate).last_output == candidate
            &&& next_state(s, margin, load, candidate).last_stable_load == Some(load)
            &&& !next_state(s, margin, load, candidate).in_dead_band
        },
{
}

/// State after a run of samples, in order.
pub open spec fn run_samples(s: HysteresisState, margin: int, loads: Seq<u32>, candidates: Seq<i32>) -> HysteresisState
    decreases loads.len(),
{
    if loads.len() == 0 || candidates.len() < loads.len() {
        s
    } else {
        next_state(
            run_samples(s, margin, loads.drop_last(), candidates),
            margin,
            loads.last(),
            candidates[loads.len() - 1],
        )
    }
}

/// Once a baseline is set, any run of later loads that all stay within
/// ±margin of it leaves the output and the baseline as they were, whatever
/// the candidates.
pub proof fn lemma_dead_band_run(s: HysteresisState, margin: int, loads: Seq<u32>, candidates: Seq<i32>)
    requires
        s.last_stable_load.is_some(),
        candidates.len() >= loads.len(),
        forall|i: int| 0 <= i < loads.len() ==> within_band(
            s.last_stable_load.unwrap() as int,
            margin,
            #[trigger] loads[i] as int,
        ),
    ensures
        run_samples(s, margin, loads, candidates).last_output == s.last_output,
        run_samples(s, margin, loads, candidates).last_stable_load == s.last_stable_load,
    decreases loads.len(),
{
    if loads.len() > 0 {
        let prefix = loads.drop_last();
        assert forall|i: int| 0 <= i < prefix.len() implies within_band(
            s.last_stable_load.unwrap() as int,
            margin,
            #[trigger] prefix[i] as int,
        ) by {
            assert(prefix[i] == loads[i]);
        }
        lemma_dead_band_run(s, margin, prefix, candidates);
        assert(within_band(s.last_stable_load.unwrap() as int, margin, loads[loads.len() - 1] as int));
    }
}

/// Filtering one core leaves every other core's baseline, output and
/// dead-band flag as they were.
pub proof fn lemma_cores_independent(
    states: Seq<HysteresisState>,
    i: int,
    margin: int,
    load: u32,
    candidate: i32,
    j: int,
)
    requires
        0 <= i < states.len(),
        0 <= j < states.len(),
        i != j,
    ensures
        states.update(i, next_state(states[i], margin, load, candidate))[j] == states[j],
{
}

} // verus!
