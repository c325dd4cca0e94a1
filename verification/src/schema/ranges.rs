//! Numeric range constraints for schema fields.

use vstd::prelude::*;
use vstd::std_specs::cmp::{PartialOrdIs, PartialOrdSpec};
use vstd::laws_cmp::obeys_partial_cmp_spec_properties;

verus! {

/// Optional bounds carried by a field: the single source for parse-time
/// clamping, slider bounds and range validation. `step` is display metadata
/// only; clamping ignores it.
#[derive(Debug, Clone, Copy)]
pub struct Range<T: PartialOrd + Copy> {
    pub min: Option<T>,
    pub max: Option<T>,
    pub step: Option<T>,
}

impl<T: PartialOrd + Copy> Range<T> {
    /// A range with the given bounds and step.
    pub fn new(min: Option<T>, max: Option<T>, step: Option<T>) -> (r: Self)
        ensures
            r.min == min,
            r.max == max,
            r.step == step,
    {
        Range { min, max, step }
    }
}

/// `value` raised to `min` when below it, then lowered to `max` when above it.
pub open spec fn spec_apply_range<T: PartialOrd>(value: T, min: Option<T>, max: Option<T>) -> T {
    let raised = match min {
        Some(m) => if value.is_lt(&m) { m } else { value },
        None => value,
    };
    match max {
        Some(m) => if raised.is_gt(&m) { m } else { raised },
        None => raised,
    }
}

/// Clamps `value` into `range` (for any type whose ordering follows its specification).
pub fn apply_range<T: PartialOrd + Copy>(value: T, range: &Range<T>) -> (r: T)
    ensures
        T::obeys_partial_cmp_spec() ==> r == spec_apply_range(value, range.min, range.max),
{
    let mut v = value;
    if let Some(min) = range.min {
        if v < min {
            v = min;
        }
    }
    if let Some(max) = range.max {
        if v > max {
            v = max;
        }
    }
    v
}

/// Clamping into `[lo, hi]` (with `lo` not above `hi`), for any type whose
/// ordering obeys the laws of a partial order: the result is neither below
/// `lo` nor above `hi`; a value below `lo` becomes `lo`, one above `hi`
/// becomes `hi`, and one in between stays as it is; clamping the result again
/// changes nothing.
pub proof fn lemma_apply_range_clamps<T: PartialOrd>(value: T, lo: T, hi: T)
    requires
        obeys_partial_cmp_spec_properties::<T>(),
        !hi.is_lt(&lo),
    ensures
        !spec_apply_range(value, Some(lo), Some(hi)).is_lt(&lo),
        !spec_apply_range(value, Some(lo), Some(hi)).is_gt(&hi),
        value.is_lt(&lo) ==> spec_apply_range(value, Some(lo), Some(hi)) == lo,
        value.is_gt(&hi) ==> spec_apply_range(value, Some(lo), Some(hi)) == hi,
        !value.is_lt(&lo) && !value.is_gt(&hi) ==> spec_apply_range(value, Some(lo), Some(hi)) == value,
        spec_apply_range(spec_apply_range(value, Some(lo), Some(hi)), Some(lo), Some(hi))
            == spec_apply_range(value, Some(lo), Some(hi)),
{
    reveal(obeys_partial_cmp_spec_properties);
    // Less one way is Greater the other way, so nothing is below or above itself.
    assert(!lo.is_lt(&lo));
    assert(!hi.is_gt(&hi));
    assert(!lo.is_gt(&hi));
    if value.is_gt(&hi) && value.is_lt(&lo) {
        assert(hi.is_lt(&value));
        assert(hi.is_lt(&lo));
    }
}

} // verus!
