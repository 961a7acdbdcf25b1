//! Frequency-to-undervolt curve: a piecewise-linear map from CPU frequency
//! (MHz) to an undervolt offset (mV), clamped outside its points.

use vstd::prelude::*;
use vstd::string::*;
use crate::fan_curve::{lerp_round, lerp_round_exec, lemma_lerp_round_bounds};

verus! {

/// Most aggressive undervolt a curve may hold (mV).
pub const MIN_CURVE_MV: i32 = -100;

/// A tested point of the curve.
#[derive(Debug, Clone, Copy, PartialEq, Eq, Structural)]
pub struct FrequencyPoint {
    pub frequency_mhz: u32,
    pub voltage_mv: i32,
    pub stable: bool,
    pub test_duration: u32,
}

impl FrequencyPoint {
    pub fn new(frequency_mhz: u32, voltage_mv: i32, stable: bool, test_duration: u32) -> (r: Self)
        ensures
            r == (FrequencyPoint { frequency_mhz, voltage_mv, stable, test_duration }),
    {
        FrequencyPoint { frequency_mhz, voltage_mv, stable, test_duration }
    }
}

/// A core's curve, points in order of frequency.
#[derive(Debug, Clone)]
pub struct FrequencyCurve {
    pub core_id: usize,
    pub points: Vec<FrequencyPoint>,
}

pub open spec fn freq_interp(f: int, p1: FrequencyPoint, p2: FrequencyPoint) -> int {
    let range = p2.frequency_mhz - p1.frequency_mhz;
    if range == 0 {
        p1.voltage_mv as int
    } else {
        lerp_round(p1.voltage_mv as int, p2.voltage_mv as int, f - p1.frequency_mhz, range)
    }
}

pub open spec fn freq_brackets(s: Seq<FrequencyPoint>, f: int, i: int) -> bool {
    s[i].frequency_mhz <= f && f <= s[i + 1].frequency_mhz
}

/// Interpolation on the first segment, from index `i` on, that brackets `f`.
pub open spec fn freq_segment(s: Seq<FrequencyPoint>, f: int, i: int) -> Option<int>
    decreases s.len() - i,
{
    if i < 0 || i + 1 >= s.len() {
        None
    } else if freq_brackets(s, f, i) {
        Some(freq_interp(f, s[i], s[i + 1]))
    } else {
        freq_segment(s, f, i + 1)
    }
}

/// Undervolt at frequency `f`: `None` for an empty curve or when no
/// segment brackets `f` (points out of order).
pub open spec fn voltage_at(s: Seq<FrequencyPoint>, f: int) -> Option<int> {
    if s.len() == 0 {
        None
    } else if s.len() == 1 || f <= s[0].frequency_mhz {
        Some(s[0].voltage_mv as int)
    } else if f >= s.last().frequency_mhz {
        Some(s.last().voltage_mv as int)
    } else {
        freq_segment(s, f, 0)
    }
}

/// Whether a curve is usable: at least one point, every offset within
/// -100 to 0 mV, and frequencies strictly increasing.
pub open spec fn valid_frequency_curve(s: Seq<FrequencyPoint>) -> bool {
    &&& s.len() > 0
    &&& forall|i: int| 0 <= i < s.len() ==> MIN_CURVE_MV <= #[trigger] s[i].voltage_mv <= 0
    &&& forall|i: int| 0 <= i < s.len() - 1 ==> #[trigger] s[i].frequency_mhz < s[i + 1].frequency_mhz
}

impl FrequencyCurve {
    pub fn new(core_id: usize, points: Vec<FrequencyPoint>) -> (r: Self)
        ensures
            r.core_id == core_id,
            r.points@ == points@,
    {
        FrequencyCurve { core_id, points }
    }

    /// Undervolt at `freq_mhz`: the first point's below its frequency, the
    /// last point's above its frequency, linear interpolation (rounded half
    /// away from zero) in between. Fails on an empty curve, and when points
    /// out of order leave the frequency without a bracketing segment.
    pub fn get_voltage_at_frequency(&self, freq_mhz: u32) -> (r: Result<i32, String>)
        ensures
            match r {
                Ok(v) => voltage_at(self.points@, freq_mhz as int) == Some(v as int),
                Err(_) => voltage_at(self.points@, freq_mhz as int) is None,
            },
    {
        let n = self.points.len();
        if n == 0 {
            return Err(String::from_str("Cannot interpolate voltage from empty curve"));
        }
        if n == 1 || freq_mhz <= self.points[0].frequency_mhz {
            return Ok(self.points[0].voltage_mv);
        }
        if freq_mhz >= self.points[n - 1].frequency_mhz {
            return Ok(self.points[n - 1].voltage_mv);
        }
        let mut i: usize = 0;
        while i + 1 < n
            invariant
                n == self.points@.len(),
                n >= 2,
                i < n,
                voltage_at(self.points@, freq_mhz as int) == freq_segment(self.points@, freq_mhz as int, 0),
                freq_segment(self.points@, freq_mhz as int, 0) == freq_segment(self.points@, freq_mhz as int, i as int),
            decreases n - i,
        {
            let p1 = self.points[i];
            let p2 = self.points[i + 1];
            if p1.frequency_mhz <= freq_mhz && freq_mhz <= p2.frequency_mhz {
                let range: i64 = p2.frequency_mhz as i64 - p1.frequency_mhz as i64;
                if range == 0 {
                    return Ok(p1.voltage_mv);
                }
                let off: i64 = freq_mhz as i64 - p1.frequency_mhz as i64;
                let v = lerp_round_exec(p1.voltage_mv as i64, p2.voltage_mv as i64, off, range);
                return Ok(v as i32);
            }
            i = i + 1;
        }
        Err(String::from_str("Failed to interpolate voltage: points are out of order"))
    }

    /// Checks the curve: `Ok` exactly when it is usable.
    pub fn validate(&self) -> (r: Result<(), String>)
        ensures
            r.is_ok() <==> valid_frequency_curve(self.points@),
    {
        let n = self.points.len();
        if n == 0 {
            return Err(String::from_str("Curve has no points"));
        }
        let mut i: usize = 0;
        while i < n
            invariant
                n == self.points@.len(),
                i <= n,
                forall|k: int| 0 <= k < i ==> MIN_CURVE_MV <= #[trigger] self.points@[k].voltage_mv <= 0,
            decreases n - i,
        {
            let v = self.points[i].voltage_mv;
            if v < MIN_CURVE_MV || v > 0 {
                return Err(String::from_str("Voltage is outside valid range [-100, 0] mV"));
            }
            i = i + 1;
        }
        let mut i: usize = 0;
        while i + 1 < n
            invariant
                n == self.points@.len(),
                n >= 1,
                i < n,
                forall|k: int| 0 <= k < i ==> #[trigger] self.points@[k].frequency_mhz < self.points@[k + 1].frequency_mhz,
            decreases n - i,
        {
            if self.points[i].frequency_mhz >= self.points[i + 1].frequency_mhz {
                if self.points[i].frequency_mhz == self.points[i + 1].frequency_mhz {
                    return Err(String::from_str("Duplicate frequency found in curve"));
                }
                return Err(String::from_str("Frequencies not in ascending order"));
            }
            i = i + 1;
        }
        Ok(())
    }
}

proof fn lemma_pairwise_upto(s: Seq<FrequencyPoint>, j: int)
    requires
        valid_frequency_curve(s),
        0 <= j < s.len(),
    ensures
        forall|i: int| 0 <= i < j ==> s[i].frequency_mhz < s[j].frequency_mhz,
    decreases j,
{
    if j > 0 {
        lemma_pairwise_upto(s, j - 1);
        assert(s[j - 1].frequency_mhz < s[j].frequency_mhz);
    }
}

proof fn lemma_segment_skip(s: Seq<FrequencyPoint>, f: int, a: int, b: int)
    requires
        0 <= a <= b,
        b + 1 < s.len(),
        forall|k: int| a <= k < b ==> !freq_brackets(s, f, k),
    ensures
        freq_segment(s, f, a) == freq_segment(s, f, b),
    decreases b - a,
{
    if a < b {
        lemma_segment_skip(s, f, a + 1, b);
    }
}

/// At the frequency of any of its points, a valid curve gives exactly that
/// point's offset.
pub proof fn lemma_frequency_curve_exact(s: Seq<FrequencyPoint>, i: int)
    requires
        valid_frequency_curve(s),
        0 <= i < s.len(),
    ensures
        voltage_at(s, s[i].frequency_mhz as int) == Some(s[i].voltage_mv as int),
{
    let f = s[i].frequency_mhz as int;
    lemma_pairwise_upto(s, i);
    lemma_pairwise_upto(s, s.len() - 1);
    if i > 0 && i < s.len() - 1 {
        assert forall|k: int| 0 <= k < i - 1 implies !freq_brackets(s, f, k) by {
            assert(s[k + 1].frequency_mhz < s[i].frequency_mhz);
        }
        lemma_segment_skip(s, f, 0, i - 1);
        assert(s[i - 1].frequency_mhz < s[i].frequency_mhz);
        lemma_lerp_round_bounds(
            s[i - 1].voltage_mv as int,
            s[i].voltage_mv as int,
            f - s[i - 1].frequency_mhz,
            f - s[i - 1].frequency_mhz,
        );
    }
}

/// At or below its first point a valid curve gives the first point's
/// offset, and at or above its last point the last point's.
pub proof fn lemma_frequency_curve_clamps(s: Seq<FrequencyPoint>, f: int)
    requires
        valid_frequency_curve(s),
    ensures
        f <= s[0].frequency_mhz ==> voltage_at(s, f) == Some(s[0].voltage_mv as int),
        f >= s.last().frequency_mhz ==> voltage_at(s, f) == Some(s.last().voltage_mv as int),
{
    lemma_pairwise_upto(s, s.len() - 1);
}

/// Between two neighbouring points a valid curve gives an offset between
/// their two offsets, inclusive.
pub proof fn lemma_frequency_curve_between(s: Seq<FrequencyPoint>, i: int, f: int)
    requires
        valid_frequency_curve(s),
        0 <= i,
        i + 1 < s.len(),
        s[i].frequency_mhz <= f <= s[i + 1].frequency_mhz,
    ensures
        voltage_at(s, f) matches Some(v) && (s[i].voltage_mv <= s[i + 1].voltage_mv ==> s[i].voltage_mv <= v
            <= s[i + 1].voltage_mv) && (s[i + 1].voltage_mv <= s[i].voltage_mv ==> s[i + 1].voltage_mv <= v
            <= s[i].voltage_mv),
{
    let last = s.len() - 1;
    lemma_pairwise_upto(s, i);
    lemma_pairwise_upto(s, i + 1);
    lemma_pairwise_upto(s, last);
    assert(s[i].frequency_mhz < s[i + 1].frequency_mhz);
    if f <= s[0].frequency_mhz {
    } else if f >= s.last().frequency_mhz {
    } else if i > 0 && f == s[i].frequency_mhz {
        assert forall|k: int| 0 <= k < i - 1 implies !freq_brackets(s, f, k) by {
            assert(s[k + 1].frequency_mhz < s[i].frequency_mhz);
        }
        lemma_segment_skip(s, f, 0, i - 1);
        assert(s[i - 1].frequency_mhz < s[i].frequency_mhz);
        lemma_lerp_round_bounds(
            s[i - 1].voltage_mv as int,
            s[i].voltage_mv as int,
            f - s[i - 1].frequency_mhz,
            f - s[i - 1].frequency_mhz,
        );
    } else {
        assert forall|k: int| 0 <= k < i implies !freq_brackets(s, f, k) by {
            if k + 1 < i {
                assert(s[k + 1].frequency_mhz < s[i].frequency_mhz);
            }
        }
        lemma_segment_skip(s, f, 0, i);
        lemma_lerp_round_bounds(
            s[i].voltage_mv as int,
            s[i + 1].voltage_mv as int,
            f - s[i].frequency_mhz,
            s[i + 1].frequency_mhz - s[i].frequency_mhz,
        );
    }
}

} // verus!
