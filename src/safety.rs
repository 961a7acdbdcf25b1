//! Bounds checks on undervolt values before they reach the actuator.

use vstd::prelude::*;
use crate::strategy::{CoreBounds, clamp_spec, clamp_to_bounds};

verus! {

/// Exit code when the process lacks root privilege.
pub const EXIT_CODE_NOT_ROOT: i32 = 6;

pub open spec fn in_bounds(value: int, b: CoreBounds) -> bool {
    b.max_mv <= value && value <= b.min_mv
}

/// The value raised to the aggressive bound, then lowered to the safe bound.
pub fn clamp_value(value: i32, bounds: &CoreBounds) -> (r: i32)
    ensures
        r as int == clamp_spec(value as int, *bounds),
        bounds.max_mv <= bounds.min_mv ==> in_bounds(r as int, *bounds),
        in_bounds(value as int, *bounds) ==> r == value,
{
    clamp_to_bounds(value, bounds)
}

/// Whether the value lies within its core's bounds.
pub fn is_value_in_bounds(value: i32, bounds: &CoreBounds) -> (r: bool)
    ensures
        r == in_bounds(value as int, *bounds),
{
    value >= bounds.max_mv && value <= bounds.min_mv
}

/// Each value clamped to the bounds at the same index; extra values or
/// bounds are ignored.
pub fn clamp_all_values(values: &[i32], bounds: &[CoreBounds]) -> (r: Vec<i32>)
    ensures
        r@.len() == if values@.len() <= bounds@.len() { values@.len() } else { bounds@.len() },
        forall|i: int| 0 <= i < r@.len() ==> r@[i] as int == clamp_spec(values@[i] as int, bounds@[i]),
{
    let n: usize = if values.len() <= bounds.len() { values.len() } else { bounds.len() };
    let mut out: Vec<i32> = Vec::new();
    let mut i: usize = 0;
    while i < n
        invariant
            n <= values@.len(),
            n <= bounds@.len(),
            n == if values@.len() <= bounds@.len() { values@.len() } else { bounds@.len() },
            i <= n,
            out@.len() == i,
            forall|k: int| 0 <= k < i ==> out@[k] as int == clamp_spec(values@[k] as int, bounds@[k]),
        decreases n - i,
    {
        out.push(clamp_value(values[i], &bounds[i]));
        i = i + 1;
    }
    out
}

/// Whether every value lies within the bounds at the same index; extra
/// values or bounds are ignored.
pub fn all_values_in_bounds(values: &[i32], bounds: &[CoreBounds]) -> (r: bool)
    ensures
        r == forall|i: int| 0 <= i < values@.len() && i < bounds@.len() ==> in_bounds(values@[i] as int, bounds@[i]),
{
    let n: usize = if values.len() <= bounds.len() { values.len() } else { bounds.len() };
    let mut i: usize = 0;
    while i < n
        invariant
            n <= values@.len(),
            n <= bounds@.len(),
            n == if values@.len() <= bounds@.len() { values@.len() } else { bounds@.len() },
            i <= n,
            forall|k: int| 0 <= k < i ==> in_bounds(values@[k] as int, bounds@[k]),
        decreases n - i,
    {
        if !is_value_in_bounds(values[i], &bounds[i]) {
            return false;
        }
        i = i + 1;
    }
    true
}

} // verus!
