//! Preset fan curves for different noise and cooling trade-offs.
//!
//! Every preset stays subject to the safety overrides.

use vstd::prelude::*;
use vstd::string::*;
use crate::fan_curve::{FanCurve, FanCurvePoint, valid_curve, default_curve_points};
use crate::text::str_eq;

verus! {

/// Preset fan profiles.
#[derive(Debug, Clone, Copy, PartialEq, Eq, Structural)]
pub enum AcousticProfile {
    /// Low noise: still until 40 °C, at most 60 % until 85 °C.
    Silent,
    /// Linear from 30 % at 30 °C to 90 % at 70 °C.
    Balanced,
    /// Full speed from 60 °C.
    MaxCooling,
    /// A curve set by the user; stands for the default curve until one is set.
    Custom,
}

/// Name of what `str::to_lowercase` returns for a string.
pub uninterp spec fn lower_of(s: Seq<char>) -> Seq<char>;

/// Relies on `str::to_lowercase`: the lower-case form of a string, which
/// depends on its characters alone.
#[verifier::external_body]
fn lowercase(s: &str) -> (r: String)
    ensures
        r@ == lower_of(s@),
{
    s.to_lowercase()
}

pub open spec fn silent_points() -> Seq<FanCurvePoint> {
    seq![
        FanCurvePoint { temp_c: 40, speed_percent: 0 },
        FanCurvePoint { temp_c: 60, speed_percent: 20 },
        FanCurvePoint { temp_c: 75, speed_percent: 40 },
        FanCurvePoint { temp_c: 85, speed_percent: 60 },
        FanCurvePoint { temp_c: 90, speed_percent: 100 },
    ]
}

pub open spec fn balanced_points() -> Seq<FanCurvePoint> {
    seq![
        FanCurvePoint { temp_c: 30, speed_percent: 30 },
        FanCurvePoint { temp_c: 50, speed_percent: 50 },
        FanCurvePoint { temp_c: 70, speed_percent: 90 },
        FanCurvePoint { temp_c: 80, speed_percent: 100 },
    ]
}

pub open spec fn max_cooling_points() -> Seq<FanCurvePoint> {
    seq![
        FanCurvePoint { temp_c: 40, speed_percent: 50 },
        FanCurvePoint { temp_c: 60, speed_percent: 100 },
    ]
}

pub open spec fn profile_points(p: AcousticProfile) -> Seq<FanCurvePoint> {
    match p {
        AcousticProfile::Silent => silent_points(),
        AcousticProfile::Balanced => balanced_points(),
        AcousticProfile::MaxCooling => max_cooling_points(),
        AcousticProfile::Custom => default_curve_points(),
    }
}

pub open spec fn profile_name(p: AcousticProfile) -> Seq<char> {
    match p {
        AcousticProfile::Silent => "silent"@,
        AcousticProfile::Balanced => "balanced"@,
        AcousticProfile::MaxCooling => "max_cooling"@,
        AcousticProfile::Custom => "custom"@,
    }
}

/// The profile that a lower-case name stands for.
pub open spec fn profile_of_lowered(s: Seq<char>) -> Option<AcousticProfile> {
    if s == "silent"@ {
        Some(AcousticProfile::Silent)
    } else if s == "balanced"@ {
        Some(AcousticProfile::Balanced)
    } else if s == "max_cooling"@ || s == "maxcooling"@ || s == "max-cooling"@ {
        Some(AcousticProfile::MaxCooling)
    } else if s == "custom"@ {
        Some(AcousticProfile::Custom)
    } else {
        None
    }
}

impl AcousticProfile {
    /// The profile's fan curve.
    pub fn curve(&self) -> (r: FanCurve)
        ensures
            r.wf(),
            r.spec_points() == profile_points(*self),
    {
        match self {
            AcousticProfile::Silent => {
                let v = vec![
                    FanCurvePoint { temp_c: 40, speed_percent: 0 },
                    FanCurvePoint { temp_c: 60, speed_percent: 20 },
                    FanCurvePoint { temp_c: 75, speed_percent: 40 },
                    FanCurvePoint { temp_c: 85, speed_percent: 60 },
                    FanCurvePoint { temp_c: 90, speed_percent: 100 },
                ];
                assert(v@ =~= silent_points());
                FanCurve::from_sorted(v)
            },
            AcousticProfile::Balanced => {
                let v = vec![
                    FanCurvePoint { temp_c: 30, speed_percent: 30 },
                    FanCurvePoint { temp_c: 50, speed_percent: 50 },
                    FanCurvePoint { temp_c: 70, speed_percent: 90 },
                    FanCurvePoint { temp_c: 80, speed_percent: 100 },
                ];
                assert(v@ =~= balanced_points());
                FanCurve::from_sorted(v)
            },
            AcousticProfile::MaxCooling => {
                let v = vec![
                    FanCurvePoint { temp_c: 40, speed_percent: 50 },
                    FanCurvePoint { temp_c: 60, speed_percent: 100 },
                ];
                assert(v@ =~= max_cooling_points());
                FanCurve::from_sorted(v)
            },
            AcousticProfile::Custom => FanCurve::default(),
        }
    }

    /// The profile's name.
    pub fn name(&self) -> (r: &'static str)
        ensures
            r@ == profile_name(*self),
    {
        match self {
            AcousticProfile::Silent => "silent",
            AcousticProfile::Balanced => "balanced",
            AcousticProfile::MaxCooling => "max_cooling",
            AcousticProfile::Custom => "custom",
        }
    }

    /// The profile named by an already lower-case string.
    pub fn from_lowered_name(name: &str) -> (r: Option<Self>)
        ensures
            r == profile_of_lowered(name@),
    {
        if str_eq(name, "silent") {
            Some(AcousticProfile::Silent)
        } else if str_eq(name, "balanced") {
            Some(AcousticProfile::Balanced)
        } else if str_eq(name, "max_cooling") || str_eq(name, "maxcooling") || str_eq(name, "max-cooling") {
            Some(AcousticProfile::MaxCooling)
        } else if str_eq(name, "custom") {
            Some(AcousticProfile::Custom)
        } else {
            None
        }
    }

    /// The profile named by a string, in any letter case.
    pub fn from_name(name: &str) -> (r: Option<Self>)
        ensures
            r == profile_of_lowered(lower_of(name@)),
    {
        let lower = lowercase(name);
        Self::from_lowered_name(lower.as_str())
    }

    /// The preset profiles, without `Custom`.
    pub fn presets() -> (r: &'static [AcousticProfile])
        ensures
            r@ == seq![AcousticProfile::Silent, AcousticProfile::Balanced, AcousticProfile::MaxCooling],
    {
        let r: &'static [AcousticProfile] = &[AcousticProfile::Silent, AcousticProfile::Balanced, AcousticProfile::MaxCooling];
        assert(r@ =~= seq![AcousticProfile::Silent, AcousticProfile::Balanced, AcousticProfile::MaxCooling]);
        r
    }

    /// The profile's name as an owned string.
    pub fn to_string(&self) -> (r: String)
        ensures
            r@ == profile_name(*self),
    {
        String::from_str(self.name())
    }
}

impl Default for AcousticProfile {
    fn default() -> (r: Self)
        ensures
            r == AcousticProfile::Balanced,
    {
        AcousticProfile::Balanced
    }
}

} // verus!
