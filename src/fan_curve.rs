//! Temperature-to-speed fan curve: a piecewise-linear map with clamping
//! outside the defined points.

use vstd::prelude::*;
use vstd::string::*;
use vstd::arithmetic::div_mod::{lemma_fundamental_div_mod_converse, lemma_div_is_ordered};

verus! {

/// Lowest PWM value.
pub const MIN_PWM: u8 = 0;

/// Highest PWM value.
pub const MAX_PWM: u8 = 255;

/// Highest fan speed in percent.
pub const MAX_SPEED_PERCENT: u8 = 100;

/// A point of the fan curve: temperature (°C) to speed (percent).
#[derive(Debug, Clone, Copy, PartialEq, Eq, Structural)]
pub struct FanCurvePoint {
    pub temp_c: i32,
    pub speed_percent: u8,
}

impl FanCurvePoint {
    /// A point whose speed is capped at 100 percent.
    pub fn new(temp_c: i32, speed_percent: u8) -> (r: Self)
        ensures
            r == point_of(temp_c, speed_percent),
    {
        let s = if speed_percent > MAX_SPEED_PERCENT { MAX_SPEED_PERCENT } else { speed_percent };
        FanCurvePoint { temp_c, speed_percent: s }
    }
}

pub open spec fn point_of(temp_c: i32, speed_percent: u8) -> FanCurvePoint {
    FanCurvePoint {
        temp_c,
        speed_percent: if speed_percent > MAX_SPEED_PERCENT { MAX_SPEED_PERCENT } else { speed_percent },
    }
}

/// Number of leading points of a temperature-sorted sequence whose
/// temperature is at most `t`, counted from the end.
pub open spec fn insert_position(s: Seq<FanCurvePoint>, t: i32) -> int
    decreases s.len(),
{
    if s.len() == 0 {
        0
    } else if s.last().temp_c <= t {
        s.len() as int
    } else {
        insert_position(s.drop_last(), t)
    }
}

/// `p` inserted after every point whose temperature is at most its own.
pub open spec fn insert_by_temp(s: Seq<FanCurvePoint>, p: FanCurvePoint) -> Seq<FanCurvePoint> {
    s.insert(insert_position(s, p.temp_c), p)
}

/// Stable insertion sort by temperature.
pub open spec fn sort_by_temp(s: Seq<FanCurvePoint>) -> Seq<FanCurvePoint>
    decreases s.len(),
{
    if s.len() == 0 {
        s
    } else {
        insert_by_temp(sort_by_temp(s.drop_last()), s.last())
    }
}

pub open spec fn strictly_increasing(s: Seq<FanCurvePoint>) -> bool {
    forall|i: int, j: int| 0 <= i < j < s.len() ==> s[i].temp_c < s[j].temp_c
}

pub open spec fn speeds_in_range(s: Seq<FanCurvePoint>) -> bool {
    forall|i: int| 0 <= i < s.len() ==> s[i].speed_percent <= MAX_SPEED_PERCENT
}

/// A valid curve: at least two points, strictly increasing temperatures,
/// speeds within 0..=100.
pub open spec fn valid_curve(s: Seq<FanCurvePoint>) -> bool {
    &&& s.len() >= 2
    &&& strictly_increasing(s)
    &&& speeds_in_range(s)
}

/// Whether a list of points makes a curve once sorted.
pub open spec fn curve_accepts(points: Seq<FanCurvePoint>) -> bool {
    points.len() >= 2 && valid_curve(sort_by_temp(points))
}

/// `n / d` rounded to the nearest integer, halves away from zero.
pub open spec fn round_div(n: int, d: int) -> int
    recommends d != 0,
{
    if d < 0 {
        round_div_pos(-n, -d)
    } else {
        round_div_pos(n, d)
    }
}

pub open spec fn round_div_pos(n: int, d: int) -> int
    recommends d > 0,
{
    if n >= 0 {
        (2 * n + d) / (2 * d)
    } else {
        -((2 * (-n) + d) / (2 * d))
    }
}

/// The value a fraction `off / range` of the way from `v1` to `v2`, rounded
/// to the nearest integer, halves away from zero.
pub open spec fn lerp_round(v1: int, v2: int, off: int, range: int) -> int {
    round_div(v1 * range + (v2 - v1) * off, range)
}

pub open spec fn clamp_speed(v: int) -> int {
    if v < 0 { 0 } else if v > 100 { 100 } else { v }
}

/// Linear interpolation between two points at temperature `t`.
pub open spec fn interp(t: int, p1: FanCurvePoint, p2: FanCurvePoint) -> int {
    let range = p2.temp_c - p1.temp_c;
    if range == 0 {
        p1.speed_percent as int
    } else {
        clamp_speed(lerp_round(p1.speed_percent as int, p2.speed_percent as int, t - p1.temp_c, range))
    }
}

pub open spec fn brackets(s: Seq<FanCurvePoint>, t: int, i: int) -> bool {
    s[i].temp_c <= t && t <= s[i + 1].temp_c
}

/// Interpolation on the first segment, from index `i` on, that brackets `t`.
pub open spec fn segment_speed(s: Seq<FanCurvePoint>, t: int, i: int) -> int
    decreases s.len() - i,
{
    if i < 0 || i + 1 >= s.len() {
        50
    } else if brackets(s, t, i) {
        interp(t, s[i], s[i + 1])
    } else {
        segment_speed(s, t, i + 1)
    }
}

/// Fan speed (percent) of a curve at temperature `t`.
pub open spec fn curve_speed(s: Seq<FanCurvePoint>, t: int) -> int {
    if s.len() == 0 {
        50
    } else if t <= s[0].temp_c {
        s[0].speed_percent as int
    } else if t >= s.last().temp_c {
        s.last().speed_percent as int
    } else {
        segment_speed(s, t, 0)
    }
}

pub open spec fn speed_to_pwm_spec(speed: int) -> int {
    (if speed > 100 { 100 } else { speed }) * 255 / 100
}

/// A fan curve: at least two points with strictly increasing temperatures.
#[derive(Debug, Clone)]
pub struct FanCurve {
    points: Vec<FanCurvePoint>,
}

proof fn lemma_insert_position_range(s: Seq<FanCurvePoint>, t: i32)
    ensures
        0 <= insert_position(s, t) <= s.len(),
    decreases s.len(),
{
    if s.len() > 0 {
        lemma_insert_position_range(s.drop_last(), t);
    }
}

proof fn lemma_sort_len(s: Seq<FanCurvePoint>)
    ensures
        sort_by_temp(s).len() == s.len(),
    decreases s.len(),
{
    if s.len() > 0 {
        lemma_sort_len(s.drop_last());
        lemma_insert_position_range(sort_by_temp(s.drop_last()), s.last().temp_c);
    }
}

fn insert_sorted(v: &mut Vec<FanCurvePoint>, p: FanCurvePoint)
    ensures
        final(v)@ == insert_by_temp(old(v)@, p),
{
    let mut j: usize = v.len();
    assert(v@.subrange(0, j as int) =~= v@);
    proof { lemma_insert_position_range(v@, p.temp_c); }
    while j > 0 && v[j - 1].temp_c > p.temp_c
        invariant
            j <= v@.len(),
            v@ == old(v)@,
            insert_position(v@, p.temp_c) == insert_position(v@.subrange(0, j as int), p.temp_c),
        decreases j,
    {
        assert(v@.subrange(0, j as int).drop_last() =~= v@.subrange(0, j as int - 1));
        j = j - 1;
    }
    if j > 0 {
        assert(v@.subrange(0, j as int).last() == v@[j as int - 1]);
    }
    v.insert(j, p);
}

impl FanCurve {
    /// The curve's points, in order of temperature.
    pub closed spec fn spec_points(&self) -> Seq<FanCurvePoint> {
        self.points@
    }

    pub open spec fn wf(&self) -> bool {
        valid_curve(self.spec_points())
    }

    /// A curve from points given in any order. It is refused with fewer than
    /// two points, with a speed above 100 percent, or with two points at one
    /// temperature.
    pub fn new(points: Vec<FanCurvePoint>) -> (r: Result<Self, String>)
        ensures
            r.is_ok() <==> curve_accepts(points@),
            r.is_ok() <==> points@.len() >= 2 && speeds_in_range(points@) && distinct_temps(points@),
            r matches Ok(c) ==> c.wf() && c.spec_points() == sort_by_temp(points@),
    {
        proof {
            lemma_curve_accepts(points@);
        }
        if points.len() < 2 {
            return Err(String::from_str("Fan curve requires at least 2 points"));
        }
        let mut sorted: Vec<FanCurvePoint> = Vec::new();
        let n = points.len();
        let mut k: usize = 0;
        while k < n
            invariant
                n == points@.len(),
                k <= n,
                sorted@ == sort_by_temp(points@.subrange(0, k as int)),
            decreases n - k,
        {
            proof {
                let sub = points@.subrange(0, k as int + 1);
                assert(sub.drop_last() =~= points@.subrange(0, k as int));
                assert(sub.last() == points@[k as int]);
            }
            insert_sorted(&mut sorted, points[k]);
            k = k + 1;
        }
        assert(points@.subrange(0, n as int) =~= points@);
        proof { lemma_sort_len(points@); }
        let mut i: usize = 0;
        while i < n
            invariant
                n == sorted@.len(),
                sorted@ == sort_by_temp(points@),
                n == points@.len(),
                i <= n,
                forall|a: int| 0 <= a < i ==> sorted@[a].speed_percent <= MAX_SPEED_PERCENT,
            decreases n - i,
        {
            if sorted[i].speed_percent > MAX_SPEED_PERCENT {
                assert(!speeds_in_range(sorted@));
                proof { lemma_curve_accepts(points@); }
                return Err(String::from_str("Fan curve speeds must be between 0 and 100"));
            }
            i = i + 1;
        }
        let mut i: usize = 1;
        while i < n
            invariant
                n == sorted@.len(),
                sorted@ == sort_by_temp(points@),
                n == points@.len(),
                speeds_in_range(sorted@),
                n >= 2,
                1 <= i <= n,
                forall|a: int, b: int| 0 <= a < b < i ==> sorted@[a].temp_c < sorted@[b].temp_c,
            decreases n - i,
        {
            if sorted[i - 1].temp_c >= sorted[i].temp_c {
                assert(!(sorted@[i - 1].temp_c < sorted@[i as int].temp_c));
                assert(!strictly_increasing(sorted@));
                proof { lemma_curve_accepts(points@); }
                return Err(String::from_str("Fan curve temperatures must be distinct"));
            }
            assert forall|a: int, b: int| 0 <= a < b < i + 1 implies
                sorted@[a].temp_c < sorted@[b].temp_c by {
                if b == i && a < i - 1 {
                    assert(sorted@[a].temp_c < sorted@[i - 1].temp_c);
                }
            }
            i = i + 1;
        }
        Ok(FanCurve { points: sorted })
    }

    /// A curve from `(temperature, speed)` pairs, speeds capped at 100 percent.
    pub fn from_tuples(tuples: Vec<(i32, u8)>) -> (r: Result<Self, String>)
        ensures
            r.is_ok() <==> curve_accepts(tuples@.map_values(|t: (i32, u8)| point_of(t.0, t.1))),
            r.is_ok() <==> tuples@.len() >= 2 && distinct_temps(tuples@.map_values(|t: (i32, u8)| point_of(t.0, t.1))),
            r matches Ok(c) ==> c.wf() && c.spec_points() == sort_by_temp(
                tuples@.map_values(|t: (i32, u8)| point_of(t.0, t.1)),
            ),
    {
        let mut pts: Vec<FanCurvePoint> = Vec::new();
        let n = tuples.len();
        let mut k: usize = 0;
        while k < n
            invariant
                n == tuples@.len(),
                k <= n,
                pts@.len() == k,
                forall|a: int| 0 <= a < k ==> pts@[a] == point_of(tuples@[a].0, tuples@[a].1),
            decreases n - k,
        {
            let (t, s) = tuples[k];
            pts.push(FanCurvePoint::new(t, s));
            k = k + 1;
        }
        assert(pts@ =~= tuples@.map_values(|t: (i32, u8)| point_of(t.0, t.1)));
        assert(speeds_in_range(pts@));
        Self::new(pts)
    }

    /// A curve from points already in order; used for the built-in curves.
    pub(crate) fn from_sorted(points: Vec<FanCurvePoint>) -> (r: Self)
        requires
            valid_curve(points@),
        ensures
            r.wf(),
            r.spec_points() == points@,
    {
        FanCurve { points }
    }

    /// Number of points.
    pub fn len(&self) -> (r: usize)
        ensures
            r == self.spec_points().len(),
    {
        self.points.len()
    }

    /// Whether the curve has no points; a valid curve never has.
    pub fn is_empty(&self) -> (r: bool)
        ensures
            r == (self.spec_points().len() == 0),
    {
        self.points.len() == 0
    }

    /// The points, in order of temperature.
    pub fn points(&self) -> (r: &[FanCurvePoint])
        ensures
            r@ == self.spec_points(),
    {
        self.points.as_slice()
    }

    /// Fan speed at `temp_c`: the first point's speed at or below its
    /// temperature, the last point's at or above its temperature, and linear
    /// interpolation (rounded half away from zero) in between.
    pub fn calculate_speed(&self, temp_c: i32) -> (r: u8)
        ensures
            r as int == curve_speed(self.spec_points(), temp_c as int),
    {
        let n = self.points.len();
        if n == 0 {
            return 50;
        }
        if temp_c <= self.points[0].temp_c {
            return self.points[0].speed_percent;
        }
        let last = self.points[n - 1];
        if temp_c >= last.temp_c {
            return last.speed_percent;
        }
        assert(curve_speed(self.points@, temp_c as int) == segment_speed(
            self.points@,
            temp_c as int,
            0,
        ));
        let mut i: usize = 0;
        while i + 1 < n
            invariant
                n == self.points@.len(),
                n >= 1,
                i < n,
                curve_speed(self.points@, temp_c as int) == segment_speed(
                    self.points@,
                    temp_c as int,
                    0,
                ),
                segment_speed(self.points@, temp_c as int, 0) == segment_speed(
                    self.points@,
                    temp_c as int,
                    i as int,
                ),
            decreases n - i,
        {
            let p1 = self.points[i];
            let p2 = self.points[i + 1];
            if temp_c >= p1.temp_c && temp_c <= p2.temp_c {
                assert(brackets(self.points@, temp_c as int, i as int));
                assert(segment_speed(self.points@, temp_c as int, i as int) == interp(
                    temp_c as int,
                    p1,
                    p2,
                ));
                return Self::interpolate(temp_c, &p1, &p2);
            }
            i = i + 1;
        }
        50
    }

    fn interpolate(temp_c: i32, p1: &FanCurvePoint, p2: &FanCurvePoint) -> (r: u8)
        requires
            p1.temp_c <= temp_c <= p2.temp_c,
        ensures
            r as int == interp(temp_c as int, *p1, *p2),
    {
        let range: i64 = p2.temp_c as i64 - p1.temp_c as i64;
        if range == 0 {
            return p1.speed_percent;
        }
        let v = lerp_round_exec(
            p1.speed_percent as i64,
            p2.speed_percent as i64,
            temp_c as i64 - p1.temp_c as i64,
            range,
        );
        let c: i64 = if v < 0 { 0 } else if v > 100 { 100 } else { v };
        c as u8
    }

    /// Converts a speed in percent (capped at 100) to a PWM value.
    pub fn speed_to_pwm(speed_percent: u8) -> (r: u8)
        ensures
            r as int == speed_to_pwm_spec(speed_percent as int),
    {
        let s: u16 = if speed_percent > MAX_SPEED_PERCENT { 100 } else { speed_percent as u16 };
        ((s * 255) / 100) as u8
    }

    /// Converts a PWM value to a speed in percent, rounded down.
    pub fn pwm_to_speed(pwm: u8) -> (r: u8)
        ensures
            r as int == (pwm as int) * 100 / 255,
    {
        ((pwm as u16 * 100) / 255) as u8
    }
}

/// The built-in curve: quiet at low temperatures, aggressive at high ones.
pub open spec fn default_curve_points() -> Seq<FanCurvePoint> {
    seq![
        FanCurvePoint { temp_c: 40, speed_percent: 20 },
        FanCurvePoint { temp_c: 50, speed_percent: 30 },
        FanCurvePoint { temp_c: 60, speed_percent: 45 },
        FanCurvePoint { temp_c: 70, speed_percent: 60 },
        FanCurvePoint { temp_c: 80, speed_percent: 80 },
        FanCurvePoint { temp_c: 85, speed_percent: 100 },
    ]
}

impl Default for FanCurve {
    fn default() -> (r: Self)
        ensures
            r.wf(),
            r.spec_points() == default_curve_points(),
    {
        let v = vec![
            FanCurvePoint { temp_c: 40, speed_percent: 20 },
            FanCurvePoint { temp_c: 50, speed_percent: 30 },
            FanCurvePoint { temp_c: 60, speed_percent: 45 },
            FanCurvePoint { temp_c: 70, speed_percent: 60 },
            FanCurvePoint { temp_c: 80, speed_percent: 80 },
            FanCurvePoint { temp_c: 85, speed_percent: 100 },
        ];
        assert(v@ =~= default_curve_points());
        FanCurve::from_sorted(v)
    }
}

proof fn lemma_round_div_exact(q: int, d: int)
    requires
        d > 0,
    ensures
        round_div(q * d, d) == q,
{
    if q >= 0 {
        assert(q * d >= 0) by (nonlinear_arith) requires q >= 0, d > 0;
        assert(2 * (q * d) + d == q * (2 * d) + d) by (nonlinear_arith);
        lemma_fundamental_div_mod_converse(2 * (q * d) + d, 2 * d, q, d);
    } else {
        assert(q * d < 0) by (nonlinear_arith) requires q < 0, d > 0;
        assert(2 * (-(q * d)) + d == (-q) * (2 * d) + d) by (nonlinear_arith);
        lemma_fundamental_div_mod_converse(2 * (-(q * d)) + d, 2 * d, -q, d);
    }
}

/// `round_div` does not decrease as its numerator grows.
pub(crate) proof fn lemma_round_div_monotone(n1: int, n2: int, d: int)
    requires
        d > 0,
        n1 <= n2,
    ensures
        round_div(n1, d) <= round_div(n2, d),
{
    if n1 >= 0 {
        lemma_div_is_ordered(2 * n1 + d, 2 * n2 + d, 2 * d);
    } else if n2 < 0 {
        lemma_div_is_ordered(2 * (-n2) + d, 2 * (-n1) + d, 2 * d);
    } else {
        lemma_div_is_ordered(0, 2 * (-n1) + d, 2 * d);
        lemma_div_is_ordered(0, 2 * n2 + d, 2 * d);
    }
}

/// The rounded interpolation lies between its two ends and meets them at the
/// ends of the range.
pub(crate) proof fn lemma_lerp_round_bounds(v1: int, v2: int, off: int, range: int)
    requires
        range > 0,
        0 <= off <= range,
    ensures
        v1 <= v2 ==> v1 <= lerp_round(v1, v2, off, range) <= v2,
        v2 <= v1 ==> v2 <= lerp_round(v1, v2, off, range) <= v1,
        off == range ==> lerp_round(v1, v2, off, range) == v2,
        off == 0 ==> lerp_round(v1, v2, off, range) == v1,
{
    let n = v1 * range + (v2 - v1) * off;
    lemma_round_div_exact(v1, range);
    lemma_round_div_exact(v2, range);
    if v1 <= v2 {
        assert(v1 * range <= n <= v2 * range) by (nonlinear_arith)
            requires n == v1 * range + (v2 - v1) * off, v1 <= v2, 0 <= off <= range;
        lemma_round_div_monotone(v1 * range, n, range);
        lemma_round_div_monotone(n, v2 * range, range);
    } else {
        assert(v2 * range <= n <= v1 * range) by (nonlinear_arith)
            requires n == v1 * range + (v2 - v1) * off, v2 < v1, 0 <= off <= range;
        lemma_round_div_monotone(v2 * range, n, range);
        lemma_round_div_monotone(n, v1 * range, range);
    }
    if off == range {
        assert(n == v2 * range) by (nonlinear_arith) requires n == v1 * range + (v2 - v1) * off, off == range;
    }
    if off == 0 {
        assert(n == v1 * range) by (nonlinear_arith) requires n == v1 * range + (v2 - v1) * off, off == 0;
    }
}

/// Rounded linear interpolation on machine integers.
pub(crate) fn lerp_round_exec(v1: i64, v2: i64, off: i64, range: i64) -> (r: i64)
    requires
        0 < range <= 0x2_0000_0000,
        0 <= off <= range,
        -0x1_0000_0000 <= v1 <= 0x1_0000_0000,
        -0x1_0000_0000 <= v2 <= 0x1_0000_0000,
    ensures
        r as int == lerp_round(v1 as int, v2 as int, off as int, range as int),
        v1 <= v2 ==> v1 <= r <= v2,
        v2 <= v1 ==> v2 <= r <= v1,
{
    proof {
        lemma_lerp_round_bounds(v1 as int, v2 as int, off as int, range as int);
    }
    assert(-0x2_0000_0000 * 0x2_0000_0000 <= v1 * range <= 0x2_0000_0000 * 0x2_0000_0000) by (nonlinear_arith)
        requires -0x1_0000_0000 <= v1 <= 0x1_0000_0000, 0 < range <= 0x2_0000_0000;
    assert(-0x2_0000_0000 * 0x2_0000_0000 <= (v2 - v1) * off <= 0x2_0000_0000 * 0x2_0000_0000) by (nonlinear_arith)
        requires -0x2_0000_0000 <= v2 - v1 <= 0x2_0000_0000, 0 <= off <= 0x2_0000_0000;
    let n: i128 = v1 as i128 * range as i128 + (v2 as i128 - v1 as i128) * off as i128;
    let d2: i128 = 2 * range as i128;
    let q: i128 = if n >= 0 { (2 * n + range as i128) / d2 } else { -((2 * (-n) + range as i128) / d2) };
    q as i64
}

proof fn lemma_interp_exact_right(p1: FanCurvePoint, p2: FanCurvePoint)
    requires
        p1.temp_c < p2.temp_c,
        p1.speed_percent <= MAX_SPEED_PERCENT,
        p2.speed_percent <= MAX_SPEED_PERCENT,
    ensures
        interp(p2.temp_c as int, p1, p2) == p2.speed_percent,
{
    lemma_lerp_round_bounds(
        p1.speed_percent as int,
        p2.speed_percent as int,
        p2.temp_c - p1.temp_c,
        p2.temp_c - p1.temp_c,
    );
}

proof fn lemma_interp_bounded(t: int, p1: FanCurvePoint, p2: FanCurvePoint)
    requires
        p1.temp_c < p2.temp_c,
        p1.temp_c <= t <= p2.temp_c,
        p1.speed_percent <= MAX_SPEED_PERCENT,
        p2.speed_percent <= MAX_SPEED_PERCENT,
    ensures
        p1.speed_percent <= p2.speed_percent ==> p1.speed_percent <= interp(t, p1, p2)
            <= p2.speed_percent,
        p2.speed_percent <= p1.speed_percent ==> p2.speed_percent <= interp(t, p1, p2)
            <= p1.speed_percent,
{
    lemma_lerp_round_bounds(
        p1.speed_percent as int,
        p2.speed_percent as int,
        t - p1.temp_c,
        p2.temp_c - p1.temp_c,
    );
}

proof fn lemma_segment_skip(s: Seq<FanCurvePoint>, t: int, a: int, b: int)
    requires
        0 <= a <= b,
        b + 1 < s.len(),
        forall|k: int| a <= k < b ==> !brackets(s, t, k),
    ensures
        segment_speed(s, t, a) == segment_speed(s, t, b),
    decreases b - a,
{
    if a < b {
        lemma_segment_skip(s, t, a + 1, b);
    }
}

/// At the temperature of any of its points, a valid curve gives exactly that
/// point's speed.
pub proof fn lemma_curve_exact(s: Seq<FanCurvePoint>, i: int)
    requires
        valid_curve(s),
        0 <= i < s.len(),
    ensures
        curve_speed(s, s[i].temp_c as int) == s[i].speed_percent,
{
    let t = s[i].temp_c as int;
    if i > 0 && i < s.len() - 1 {
        assert(s[0].temp_c < t);
        assert(t < s.last().temp_c);
        assert forall|k: int| 0 <= k < i - 1 implies !brackets(s, t, k) by {
            assert(s[k + 1].temp_c < s[i].temp_c);
        }
        lemma_segment_skip(s, t, 0, i - 1);
        lemma_interp_exact_right(s[i - 1], s[i]);
    } else if i == s.len() - 1 {
        assert(s[0].temp_c < s[i].temp_c);
    }
}

/// Below its first point a valid curve gives the first point's speed, and
/// above its last point the last point's speed.
pub proof fn lemma_curve_clamps(s: Seq<FanCurvePoint>, t: int)
    requires
        valid_curve(s),
    ensures
        t <= s[0].temp_c ==> curve_speed(s, t) == s[0].speed_percent,
        t >= s.last().temp_c ==> curve_speed(s, t) == s.last().speed_percent,
{
    if t >= s.last().temp_c && t <= s[0].temp_c {
        assert(s[0].temp_c < s[s.len() - 1].temp_c);
    }
}

/// Between two neighbouring points a valid curve gives a speed between
/// their two speeds, inclusive.
pub proof fn lemma_curve_between(s: Seq<FanCurvePoint>, i: int, t: int)
    requires
        valid_curve(s),
        0 <= i,
        i + 1 < s.len(),
        s[i].temp_c <= t <= s[i + 1].temp_c,
    ensures
        s[i].speed_percent <= s[i + 1].speed_percent ==> s[i].speed_percent <= curve_speed(s, t)
            <= s[i + 1].speed_percent,
        s[i + 1].speed_percent <= s[i].speed_percent ==> s[i + 1].speed_percent <= curve_speed(
            s,
            t,
        ) <= s[i].speed_percent,
{
    let last = s.len() - 1;
    if t <= s[0].temp_c {
        if i > 0 {
            assert(s[0].temp_c < s[i].temp_c);
        }
    } else if t >= s.last().temp_c {
        if i + 1 < last {
            assert(s[i + 1].temp_c < s[last].temp_c);
        }
    } else if i > 0 && t == s[i].temp_c {
        assert forall|k: int| 0 <= k < i - 1 implies !brackets(s, t, k) by {
            assert(s[k + 1].temp_c < s[i].temp_c);
        }
        lemma_segment_skip(s, t, 0, i - 1);
        lemma_interp_exact_right(s[i - 1], s[i]);
    } else {
        assert forall|k: int| 0 <= k < i implies !brackets(s, t, k) by {
            if k + 1 < i {
                assert(s[k + 1].temp_c < s[i].temp_c);
            }
        }
        lemma_segment_skip(s, t, 0, i);
        lemma_interp_bounded(t, s[i], s[i + 1]);
    }
}

pub open spec fn sorted_by_temp(s: Seq<FanCurvePoint>) -> bool {
    forall|i: int, j: int| 0 <= i < j < s.len() ==> s[i].temp_c <= s[j].temp_c
}

/// No two points share a temperature.
pub open spec fn distinct_temps(s: Seq<FanCurvePoint>) -> bool {
    forall|i: int, j: int| 0 <= i < s.len() && 0 <= j < s.len() && i != j ==> s[i].temp_c != s[j].temp_c
}

proof fn lemma_insert_position_props(t: Seq<FanCurvePoint>, x: i32)
    requires
        sorted_by_temp(t),
    ensures
        forall|i: int| 0 <= i < insert_position(t, x) ==> t[i].temp_c <= x,
        forall|i: int| insert_position(t, x) <= i < t.len() ==> t[i].temp_c > x,
    decreases t.len(),
{
    lemma_insert_position_range(t, x);
    if t.len() > 0 {
        if t.last().temp_c <= x {
            assert forall|i: int| 0 <= i < t.len() implies t[i].temp_c <= x by {
                if i < t.len() - 1 {
                    assert(t[i].temp_c <= t[t.len() - 1].temp_c);
                }
            }
        } else {
            let u = t.drop_last();
            assert(sorted_by_temp(u)) by {
                assert forall|i: int, j: int| 0 <= i < j < u.len() implies u[i].temp_c <= u[j].temp_c by {
                    assert(t[i].temp_c <= t[j].temp_c);
                }
            }
            lemma_insert_position_props(u, x);
            lemma_insert_position_range(u, x);
            assert forall|i: int| 0 <= i < insert_position(t, x) implies t[i].temp_c <= x by {
                assert(t[i] == u[i]);
            }
            assert forall|i: int| insert_position(t, x) <= i < t.len() implies t[i].temp_c > x by {
                if i < t.len() - 1 {
                    assert(t[i] == u[i]);
                }
            }
        }
    }
}

/// Sorting keeps exactly the given points (as a multiset) and puts them in
/// order of temperature.
pub proof fn lemma_sort_by_temp(s: Seq<FanCurvePoint>)
    ensures
        sort_by_temp(s).len() == s.len(),
        sort_by_temp(s).to_multiset() == s.to_multiset(),
        sorted_by_temp(sort_by_temp(s)),
    decreases s.len(),
{
    broadcast use vstd::seq_lib::group_to_multiset_ensures;

    lemma_sort_len(s);
    if s.len() > 0 {
        let u = s.drop_last();
        let t = sort_by_temp(u);
        let x = s.last();
        lemma_sort_by_temp(u);
        lemma_insert_position_range(t, x.temp_c);
        lemma_insert_position_props(t, x.temp_c);
        let pos = insert_position(t, x.temp_c);
        vstd::seq_lib::to_multiset_insert(t, pos, x);
        assert(u.push(x) =~= s);
        vstd::seq_lib::to_multiset_build(u, x);
        let r = t.insert(pos, x);
        assert forall|i: int, j: int| 0 <= i < j < r.len() implies r[i].temp_c <= r[j].temp_c by {
            if j < pos {
                assert(r[i] == t[i] && r[j] == t[j]);
            } else if j == pos {
                assert(r[i] == t[i]);
            } else if i < pos {
                assert(r[i] == t[i] && r[j] == t[j - 1]);
            } else if i == pos {
                assert(r[j] == t[j - 1]);
            } else {
                assert(r[i] == t[i - 1] && r[j] == t[j - 1]);
            }
        }
    }
}

proof fn lemma_distinct_transfer(a: Seq<FanCurvePoint>, b: Seq<FanCurvePoint>)
    requires
        a.to_multiset() == b.to_multiset(),
        distinct_temps(a),
    ensures
        distinct_temps(b),
{
    broadcast use vstd::seq_lib::group_to_multiset_ensures;

    assert(a.no_duplicates()) by {
        assert forall|i: int, j: int| 0 <= i < a.len() && 0 <= j < a.len() && i != j implies a[i] != a[j] by {
            assert(a[i].temp_c != a[j].temp_c);
        }
    }
    a.lemma_multiset_has_no_duplicates();
    b.lemma_multiset_has_no_duplicates_conv();
    assert forall|i: int, j: int| 0 <= i < b.len() && 0 <= j < b.len() && i != j implies b[i].temp_c
        != b[j].temp_c by {
        assert(b.contains(b[i]));
        assert(b.contains(b[j]));
        assert(b.to_multiset().count(b[i]) > 0);
        assert(b.to_multiset().count(b[j]) > 0);
        assert(a.contains(b[i]));
        assert(a.contains(b[j]));
        let p = choose|p: int| 0 <= p < a.len() && a[p] == b[i];
        let q = choose|q: int| 0 <= q < a.len() && a[q] == b[j];
        assert(b[i] != b[j]);
        assert(p != q);
    }
}

proof fn lemma_speeds_transfer(a: Seq<FanCurvePoint>, b: Seq<FanCurvePoint>)
    requires
        a.to_multiset() == b.to_multiset(),
        speeds_in_range(a),
    ensures
        speeds_in_range(b),
{
    broadcast use vstd::seq_lib::group_to_multiset_ensures;

    assert forall|i: int| 0 <= i < b.len() implies b[i].speed_percent <= MAX_SPEED_PERCENT by {
        assert(b.contains(b[i]));
        assert(b.to_multiset().count(b[i]) > 0);
        assert(a.contains(b[i]));
        let p = choose|p: int| 0 <= p < a.len() && a[p] == b[i];
    }
}

/// A list of points makes a curve exactly when it has at least two points,
/// every speed is at most 100 percent, and no two points share a
/// temperature.
pub proof fn lemma_curve_accepts(points: Seq<FanCurvePoint>)
    ensures
        curve_accepts(points) <==> points.len() >= 2 && speeds_in_range(points) && distinct_temps(points),
{
    let r = sort_by_temp(points);
    lemma_sort_by_temp(points);
    if points.len() >= 2 && speeds_in_range(points) && distinct_temps(points) {
        lemma_speeds_transfer(points, r);
        lemma_distinct_transfer(points, r);
        assert forall|i: int, j: int| 0 <= i < j < r.len() implies r[i].temp_c < r[j].temp_c by {
            assert(r[i].temp_c <= r[j].temp_c);
            assert(r[i].temp_c != r[j].temp_c);
        }
    }
    if curve_accepts(points) {
        lemma_speeds_transfer(r, points);
        assert(distinct_temps(r)) by {
            assert forall|i: int, j: int| 0 <= i < r.len() && 0 <= j < r.len() && i != j implies r[i].temp_c
                != r[j].temp_c by {
                if i < j {
                    assert(r[i].temp_c < r[j].temp_c);
                } else {
                    assert(r[j].temp_c < r[i].temp_c);
                }
            }
        }
        lemma_distinct_transfer(r, points);
    }
}

} // verus!
