//! Load-to-undervolt decision curves.
//!
//! Loads are integers in hundredths of a percent (`10_000` is 100 %). A low
//! load maps to the aggressive bound, a full load to the safe bound, with
//! linear interpolation rounded half away from zero in between.

use vstd::prelude::*;
use crate::fan_curve::{lerp_round, lerp_round_exec, lemma_lerp_round_bounds};
use crate::config::CoreConfig;

verus! {

/// Full load in hundredths of a percent.
pub const FULL_LOAD: u32 = 10_000;

/// Undervolt range of one core. `max_mv` is the more negative, aggressive
/// bound; `min_mv` the bound closer to zero, used at full load.
#[derive(Debug, Clone, Copy, PartialEq, Eq, Structural)]
pub struct CoreBounds {
    pub min_mv: i32,
    pub max_mv: i32,
    /// Load threshold in hundredths of a percent.
    pub threshold: u32,
}

impl<'a> From<&'a CoreConfig> for CoreBounds {
    fn from(config: &'a CoreConfig) -> (r: CoreBounds) {
        CoreBounds { min_mv: config.min_mv, max_mv: config.max_mv, threshold: config.threshold }
    }
}

impl<'a> vstd::std_specs::convert::FromSpecImpl<&'a CoreConfig> for CoreBounds {
    open spec fn obeys_from_spec() -> bool {
        true
    }

    open spec fn from_spec(config: &'a CoreConfig) -> CoreBounds {
        CoreBounds { min_mv: config.min_mv, max_mv: config.max_mv, threshold: config.threshold }
    }
}

/// `value` raised to `max_mv`, then lowered to `min_mv`.
pub open spec fn clamp_spec(value: int, b: CoreBounds) -> int {
    let v = if value < b.max_mv { b.max_mv as int } else { value };
    if v > b.min_mv { b.min_mv as int } else { v }
}

/// The value a fraction `t / 10_000` of the way from `a` to `b` (with `t`
/// capped to that range), rounded half away from zero.
pub open spec fn lerp_spec(a: int, b: int, t: int) -> int {
    let tc = if t > FULL_LOAD { FULL_LOAD as int } else { t };
    lerp_round(a, b, tc, FULL_LOAD as int)
}

/// Target undervolt at `load` for a core with the given bounds.
pub open spec fn target_spec(load: u32, b: CoreBounds) -> int {
    clamp_spec(lerp_spec(b.max_mv as int, b.min_mv as int, load as int), b)
}

/// Raises `value` to the aggressive bound and lowers it to the safe bound.
pub fn clamp_to_bounds(value: i32, bounds: &CoreBounds) -> (r: i32)
    ensures
        r as int == clamp_spec(value as int, *bounds),
{
    let v = if value < bounds.max_mv { bounds.max_mv } else { value };
    if v > bounds.min_mv { bounds.min_mv } else { v }
}

/// Linear interpolation from `a` to `b` at `t` hundredths of a percent
/// (capped at 100 %), rounded half away from zero.
pub fn lerp(a: i32, b: i32, t: u32) -> (r: i32)
    ensures
        r as int == lerp_spec(a as int, b as int, t as int),
{
    let tc: i64 = if t > FULL_LOAD { FULL_LOAD as i64 } else { t as i64 };
    lerp_round_exec(a as i64, b as i64, tc, FULL_LOAD as i64) as i32
}

/// Target undervolt at `load`: the aggressive bound at no load, the safe
/// bound at full load, linear in between, always within the bounds.
pub fn ramp_target(load: u32, bounds: &CoreBounds) -> (r: i32)
    ensures
        r as int == target_spec(load, *bounds),
        bounds.max_mv <= bounds.min_mv ==> bounds.max_mv <= r <= bounds.min_mv,
{
    let t = lerp(bounds.max_mv, bounds.min_mv, load);
    clamp_to_bounds(t, bounds)
}

/// Slow adaptation: 5 s ramp.
#[derive(Debug, Clone, Copy)]
pub struct ConservativeStrategy;

/// Moderate adaptation: 2 s ramp.
#[derive(Debug, Clone, Copy)]
pub struct BalancedStrategy;

/// Fast adaptation: 500 ms ramp.
#[derive(Debug, Clone, Copy)]
pub struct AggressiveStrategy;

impl ConservativeStrategy {
    pub fn new() -> (r: Self) {
        ConservativeStrategy
    }

    /// Target undervolt at `load` (hundredths of a percent).
    pub fn calculate_target(&self, load: u32, bounds: &CoreBounds) -> (r: i32)
        ensures
            r as int == target_spec(load, *bounds),
    {
        ramp_target(load, bounds)
    }

    /// Ramp time in milliseconds.
    pub fn ramp_time_ms(&self) -> (r: u64)
        ensures
            r == 5000,
    {
        5000
    }

    /// The strategy's name.
    pub fn name(&self) -> (r: &'static str)
        ensures
            r@ == "conservative"@,
    {
        "conservative"
    }
}

impl BalancedStrategy {
    pub fn new() -> (r: Self) {
        BalancedStrategy
    }

    /// Target undervolt at `load` (hundredths of a percent).
    pub fn calculate_target(&self, load: u32, bounds: &CoreBounds) -> (r: i32)
        ensures
            r as int == target_spec(load, *bounds),
    {
        ramp_target(load, bounds)
    }

    /// Ramp time in milliseconds.
    pub fn ramp_time_ms(&self) -> (r: u64)
        ensures
            r == 2000,
    {
        2000
    }

    /// The strategy's name.
    pub fn name(&self) -> (r: &'static str)
        ensures
            r@ == "balanced"@,
    {
        "balanced"
    }
}

impl AggressiveStrategy {
    pub fn new() -> (r: Self) {
        AggressiveStrategy
    }

    /// Target undervolt at `load` (hundredths of a percent).
    pub fn calculate_target(&self, load: u32, bounds: &CoreBounds) -> (r: i32)
        ensures
            r as int == target_spec(load, *bounds),
    {
        ramp_target(load, bounds)
    }

    /// Ramp time in milliseconds.
    pub fn ramp_time_ms(&self) -> (r: u64)
        ensures
            r == 500,
    {
        500
    }

    /// The strategy's name.
    pub fn name(&self) -> (r: &'static str)
        ensures
            r@ == "aggressive"@,
    {
        "aggressive"
    }
}

/// Number of leading pairs, counted from the end, whose load is at most `l`.
pub open spec fn load_insert_position(s: Seq<(u32, i32)>, l: u32) -> int
    decreases s.len(),
{
    if s.len() == 0 {
        0
    } else if s.last().0 <= l {
        s.len() as int
    } else {
        load_insert_position(s.drop_last(), l)
    }
}

/// Stable insertion sort of `(load, millivolts)` pairs by load.
pub open spec fn sort_by_load(s: Seq<(u32, i32)>) -> Seq<(u32, i32)>
    decreases s.len(),
{
    if s.len() == 0 {
        s
    } else {
        let t = sort_by_load(s.drop_last());
        t.insert(load_insert_position(t, s.last().0), s.last())
    }
}

proof fn lemma_load_position_range(s: Seq<(u32, i32)>, l: u32)
    ensures
        0 <= load_insert_position(s, l) <= s.len(),
    decreases s.len(),
{
    if s.len() > 0 {
        lemma_load_position_range(s.drop_last(), l);
    }
}

proof fn lemma_sort_by_load_len(s: Seq<(u32, i32)>)
    ensures
        sort_by_load(s).len() == s.len(),
    decreases s.len(),
{
    if s.len() > 0 {
        lemma_sort_by_load_len(s.drop_last());
        lemma_load_position_range(sort_by_load(s.drop_last()), s.last().0);
    }
}

fn insert_by_load(v: &mut Vec<(u32, i32)>, p: (u32, i32))
    ensures
        final(v)@ == old(v)@.insert(load_insert_position(old(v)@, p.0), p),
{
    let mut j: usize = v.len();
    assert(v@.subrange(0, j as int) =~= v@);
    proof { lemma_load_position_range(v@, p.0); }
    while j > 0 && v[j - 1].0 > p.0
        invariant
            j <= v@.len(),
            v@ == old(v)@,
            load_insert_position(v@, p.0) == load_insert_position(v@.subrange(0, j as int), p.0),
        decreases j,
    {
        assert(v@.subrange(0, j as int).drop_last() =~= v@.subrange(0, j as int - 1));
        j = j - 1;
    }
    if j > 0 {
        assert(v@.subrange(0, j as int).last() == v@[j as int - 1]);
    }
    v.insert(j, p);
}

/// First index from `i` on whose load is at least `l`; the last index if none.
pub open spec fn first_at_least(s: Seq<(u32, i32)>, l: int, i: int) -> int
    decreases s.len() - i,
{
    if i >= s.len() - 1 {
        s.len() - 1
    } else if s[i].0 >= l {
        i
    } else {
        first_at_least(s, l, i + 1)
    }
}

/// Last index at or below `hi` whose load is at most `l`; 0 if none.
pub open spec fn last_at_most(s: Seq<(u32, i32)>, l: int, hi: int) -> int
    decreases hi + 1,
{
    if hi < 0 {
        0
    } else if s[hi].0 <= l {
        hi
    } else {
        last_at_most(s, l, hi - 1)
    }
}

/// Value of a user curve at `load` (capped at 100 %): the single point's
/// value, the first point's below it, the last point's above it, and linear
/// interpolation (rounded half away from zero) between the bracketing points.
pub open spec fn custom_value(s: Seq<(u32, i32)>, load: u32) -> int {
    let l: int = if load > FULL_LOAD { FULL_LOAD as int } else { load as int };
    if s.len() == 1 || l <= s[0].0 {
        s[0].1 as int
    } else if l >= s.last().0 {
        s.last().1 as int
    } else {
        let hi = first_at_least(s, l, 0);
        let lo = last_at_most(s, l, hi);
        let (l1, v1) = s[lo];
        let (l2, v2) = s[hi];
        if l1 == l2 {
            v1 as int
        } else {
            lerp_round(v1 as int, v2 as int, l - l1, l2 - l1)
        }
    }
}

proof fn lemma_first_at_least(s: Seq<(u32, i32)>, l: int, i: int)
    requires
        0 <= i < s.len(),
    ensures
        i <= first_at_least(s, l, i) < s.len(),
        first_at_least(s, l, i) < s.len() - 1 ==> s[first_at_least(s, l, i)].0 >= l,
    decreases s.len() - i,
{
    if i < s.len() - 1 && s[i].0 < l {
        lemma_first_at_least(s, l, i + 1);
    }
}

proof fn lemma_last_at_most(s: Seq<(u32, i32)>, l: int, hi: int)
    requires
        0 <= hi < s.len(),
        s[0].0 <= l,
    ensures
        0 <= last_at_most(s, l, hi) <= hi,
        s[last_at_most(s, l, hi)].0 <= l,
    decreases hi + 1,
{
    if hi > 0 && s[hi].0 > l {
        lemma_last_at_most(s, l, hi - 1);
    }
}

/// A user-defined curve of `(load, millivolts)` points, loads in hundredths
/// of a percent, kept in order of load.
#[derive(Debug, Clone)]
pub struct CustomStrategy {
    curve: Vec<(u32, i32)>,
}

impl CustomStrategy {
    pub closed spec fn spec_curve(&self) -> Seq<(u32, i32)> {
        self.curve@
    }

    /// A curve from points in any order; with no points it is the single
    /// point `(0, 0)`, no undervolt.
    pub fn new(curve: Vec<(u32, i32)>) -> (r: Self)
        ensures
            curve@.len() == 0 ==> r.spec_curve() == seq![(0u32, 0i32)],
            curve@.len() > 0 ==> r.spec_curve() == sort_by_load(curve@),
            r.spec_curve().len() > 0,
    {
        let mut sorted: Vec<(u32, i32)> = Vec::new();
        let n = curve.len();
        let mut k: usize = 0;
        while k < n
            invariant
                n == curve@.len(),
                k <= n,
                sorted@ == sort_by_load(curve@.subrange(0, k as int)),
            decreases n - k,
        {
            proof {
                let sub = curve@.subrange(0, k as int + 1);
                assert(sub.drop_last() =~= curve@.subrange(0, k as int));
            }
            insert_by_load(&mut sorted, curve[k]);
            k = k + 1;
        }
        assert(curve@.subrange(0, n as int) =~= curve@);
        proof { lemma_sort_by_load_len(curve@); }
        if sorted.len() == 0 {
            sorted.push((0, 0));
            assert(sorted@ =~= seq![(0u32, 0i32)]);
        }
        CustomStrategy { curve: sorted }
    }

    /// The points, in order of load.
    pub fn curve(&self) -> (r: &[(u32, i32)])
        ensures
            r@ == self.spec_curve(),
    {
        self.curve.as_slice()
    }

    /// The curve's value at `load` (hundredths of a percent).
    pub fn interpolate(&self, load: u32) -> (r: i32)
        requires
            self.spec_curve().len() > 0,
        ensures
            r as int == custom_value(self.spec_curve(), load),
    {
        let s = &self.curve;
        let n = s.len();
        let l: u32 = if load > FULL_LOAD { FULL_LOAD } else { load };
        if n == 1 || l <= s[0].0 {
            return s[0].1;
        }
        if l >= s[n - 1].0 {
            return s[n - 1].1;
        }
        let mut hi: usize = 0;
        while hi < n - 1 && s[hi].0 < l
            invariant
                n == s@.len(),
                n >= 2,
                hi <= n - 1,
                first_at_least(s@, l as int, 0) == first_at_least(s@, l as int, hi as int),
            decreases n - hi,
        {
            hi = hi + 1;
        }
        proof { lemma_first_at_least(s@, l as int, 0); }
        let mut lo: usize = hi;
        while lo > 0 && s[lo].0 > l
            invariant
                n == s@.len(),
                lo <= hi < n,
                hi == first_at_least(s@, l as int, 0),
                last_at_most(s@, l as int, hi as int) == last_at_most(s@, l as int, lo as int),
            decreases lo,
        {
            lo = lo - 1;
        }
        proof { lemma_last_at_most(s@, l as int, hi as int); }
        let (l1, v1) = s[lo];
        let (l2, v2) = s[hi];
        if l1 == l2 {
            return v1;
        }
        let range: i64 = l2 as i64 - l1 as i64;
        let off: i64 = l as i64 - l1 as i64;
        lerp_round_exec(v1 as i64, v2 as i64, off, range) as i32
    }

    /// Target undervolt at `load`, within the bounds.
    pub fn calculate_target(&self, load: u32, bounds: &CoreBounds) -> (r: i32)
        requires
            self.spec_curve().len() > 0,
        ensures
            r as int == clamp_spec(custom_value(self.spec_curve(), load), *bounds),
    {
        let t = self.interpolate(load);
        clamp_to_bounds(t, bounds)
    }

    /// Ramp time in milliseconds.
    pub fn ramp_time_ms(&self) -> (r: u64)
        ensures
            r == 2000,
    {
        2000
    }

    /// The strategy's name.
    pub fn name(&self) -> (r: &'static str)
        ensures
            r@ == "custom"@,
    {
        "custom"
    }
}

/// A user curve with loads strictly increasing and within 0 % to 100 %.
pub open spec fn valid_custom_curve(s: Seq<(u32, i32)>) -> bool {
    &&& s.len() > 0
    &&& forall|i: int, j: int| 0 <= i < j < s.len() ==> s[i].0 < s[j].0
    &&& forall|i: int| 0 <= i < s.len() ==> #[trigger] s[i].0 <= FULL_LOAD
}

proof fn lemma_first_at_least_is(s: Seq<(u32, i32)>, l: int, i: int, k: int)
    requires
        valid_custom_curve(s),
        0 <= i <= k < s.len(),
        forall|j: int| i <= j < k ==> #[trigger] s[j].0 < l,
        k == s.len() - 1 || s[k].0 >= l,
    ensures
        first_at_least(s, l, i) == k,
    decreases k - i,
{
    if i < k {
        lemma_first_at_least_is(s, l, i + 1, k);
    }
}

proof fn lemma_last_at_most_is(s: Seq<(u32, i32)>, l: int, hi: int, k: int)
    requires
        valid_custom_curve(s),
        0 <= k <= hi < s.len(),
        s[k].0 <= l,
        forall|j: int| k < j <= hi ==> #[trigger] s[j].0 > l,
    ensures
        last_at_most(s, l, hi) == k,
    decreases hi - k,
{
    if hi > k {
        lemma_last_at_most_is(s, l, hi - 1, k);
    }
}

/// At the load of any of its points, a valid user curve gives exactly that
/// point's value.
pub proof fn lemma_custom_curve_exact(s: Seq<(u32, i32)>, i: int)
    requires
        valid_custom_curve(s),
        0 <= i < s.len(),
    ensures
        custom_value(s, s[i].0) == s[i].1,
{
    let l = s[i].0 as int;
    assert(s[i].0 <= FULL_LOAD);
    if s.len() > 1 && l > s[0].0 && l < s.last().0 {
        lemma_first_at_least_is(s, l, 0, i);
        lemma_last_at_most_is(s, l, i, i);
    } else if s.len() > 1 && l <= s[0].0 {
        if i > 0 {
            assert(s[0].0 < s[i].0);
        }
    } else if s.len() > 1 {
        if i < s.len() - 1 {
            assert(s[i].0 < s[s.len() - 1].0);
        }
    }
}

/// At or below its first point a valid user curve gives the first point's
/// value, and at or above its last point (up to 100 %) the last point's.
pub proof fn lemma_custom_curve_clamps(s: Seq<(u32, i32)>, load: u32)
    requires
        valid_custom_curve(s),
    ensures
        load <= s[0].0 ==> custom_value(s, load) == s[0].1,
        s.last().0 <= load ==> custom_value(s, load) == s.last().1,
{
    assert(s[s.len() - 1].0 <= FULL_LOAD);
    if s.len() > 1 {
        assert(s[0].0 < s[s.len() - 1].0);
    }
}

/// Between two neighbouring points a valid user curve gives a value between
/// their two values, inclusive.
pub proof fn lemma_custom_curve_between(s: Seq<(u32, i32)>, i: int, load: u32)
    requires
        valid_custom_curve(s),
        0 <= i,
        i + 1 < s.len(),
        s[i].0 <= load <= s[i + 1].0,
    ensures
        s[i].1 <= s[i + 1].1 ==> s[i].1 <= custom_value(s, load) <= s[i + 1].1,
        s[i + 1].1 <= s[i].1 ==> s[i + 1].1 <= custom_value(s, load) <= s[i].1,
{
    let l = load as int;
    let last = s.len() - 1;
    assert(s[i + 1].0 <= FULL_LOAD);
    assert(s[0].0 < s[last].0);
    if l <= s[0].0 {
        if i > 0 {
            assert(s[0].0 < s[i].0);
        }
    } else if l >= s[last].0 {
        if i + 1 < last {
            assert(s[i + 1].0 < s[last].0);
        }
    } else if l == s[i].0 {
        lemma_first_at_least_is(s, l, 0, i);
        lemma_last_at_most_is(s, l, i, i);
    } else if l == s[i + 1].0 {
        lemma_first_at_least_is(s, l, 0, i + 1);
        lemma_last_at_most_is(s, l, i + 1, i + 1);
    } else {
        lemma_first_at_least_is(s, l, 0, i + 1);
        lemma_last_at_most_is(s, l, i + 1, i);
        lemma_lerp_round_bounds(s[i].1 as int, s[i + 1].1 as int, l - s[i].0, s[i + 1].0 - s[i].0);
    }
}

} // verus!
