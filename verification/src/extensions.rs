//! Width and normalization of an inclusive range, and the clamp that respects
//! the direction of the range.
//!
//! A range may run downwards (`start` above `end`): a slider whose top stands
//! for the lower bound is such a range. Its width is then negative, and a
//! value is still normalized to zero at `start` and one at `end`.

use std::ops::RangeInclusive;
use vstd::prelude::*;
use crate::scalar::{clamp_int, clip, div_floor, saturate, times_unit, unit_ratio, Scalar, UNIT};
use crate::scalar::lemma_unit_ratio_within;

verus! {

/// `RangeInclusive::start` hands out the bound that the range starts at. The
/// contract names it by the range's view, of which `RangeInclusive::new` says
/// that it holds the two bounds the range was made with. Nothing here walks a
/// range, after which std leaves both bounds open.
pub assume_specification<Idx>[ RangeInclusive::<Idx>::start ](r: &RangeInclusive<Idx>) -> (ret:
    &Idx)
    ensures
        *ret == r@.start,
;

/// `RangeInclusive::end` hands out the bound that the range ends at, named by
/// the range's view as for `start`.
pub assume_specification<Idx>[ RangeInclusive::<Idx>::end ](r: &RangeInclusive<Idx>) -> (ret:
    &Idx)
    ensures
        *ret == r@.end,
;

/// The smaller of two integers.
pub open spec fn min_int(a: int, b: int) -> int {
    if a <= b {
        a
    } else {
        b
    }
}

/// The larger of two integers.
pub open spec fn max_int(a: int, b: int) -> int {
    if a >= b {
        a
    } else {
        b
    }
}

/// `value` moved to the nearest point between `start` and `end`, whichever of
/// the two is the smaller.
pub open spec fn range_clamp(start: int, end: int, value: int) -> int {
    clamp_int(value, min_int(start, end), max_int(start, end))
}

/// Width and normalization of a range of `T`.
pub trait RangeExt<T: Copy> {
    /// Whether the two bounds differ, so that the range can normalize a value.
    spec fn has_extent(&self) -> bool;

    /// The signed distance from `start` to `end`.
    spec fn spec_width(&self) -> T;

    /// The position of `value` in the range: zero at `start`, one at `end`.
    spec fn spec_map(&self, value: T) -> T;

    /// The signed distance from `start` to `end`; negative when the range runs
    /// downwards.
    fn width(&self) -> (w: T)
        ensures
            w == self.spec_width(),
    ;

    /// Normalizes `value`: zero at `start`, one at `end`, and outside that
    /// interval for a value outside the range.
    fn map(&self, value: T) -> (m: T)
        requires
            self.has_extent(),
        ensures
            m == self.spec_map(value),
    ;
}

impl RangeExt<Scalar> for RangeInclusive<Scalar> {
    open spec fn has_extent(&self) -> bool {
        self@.start@ != self@.end@
    }

    open spec fn spec_width(&self) -> Scalar {
        Scalar { raw: clip(self@.end@ - self@.start@) as i64 }
    }

    open spec fn spec_map(&self, value: Scalar) -> Scalar {
        Scalar {
            raw: clip(unit_ratio(value@ - self@.start@, self@.end@ - self@.start@)) as i64,
        }
    }

    fn width(&self) -> (w: Scalar) {
        Scalar { raw: saturate(self.end().raw as i128 - self.start().raw as i128) }
    }

    fn map(&self, value: Scalar) -> (m: Scalar) {
        let num: i128 = value.raw as i128 - self.start().raw as i128;
        let den: i128 = self.end().raw as i128 - self.start().raw as i128;
        Scalar { raw: saturate(div_floor(times_unit(num), den)) }
    }
}

/// Limits `value` to `range`. For a range that runs downwards the bounds swap
/// roles: a value above `start` becomes `start`, one below `end` becomes `end`.
pub fn clamp_to_range(range: &RangeInclusive<Scalar>, value: Scalar) -> (clamped: Scalar)
    ensures
        clamped@ == range_clamp(range@.start@, range@.end@, value@),
{
    let start: Scalar = *range.start();
    let end: Scalar = *range.end();
    if end.raw < start.raw {
        if value.raw > start.raw {
            start
        } else if value.raw < end.raw {
            end
        } else {
            value
        }
    } else {
        value.clamp(start, end)
    }
}

/// The width of a range is `end - start` wherever that difference is
/// representable; half the representable span on either side of zero is enough.
pub proof fn lemma_width_is_difference(range: RangeInclusive<Scalar>)
    requires
        i64::MIN <= range@.end@ - range@.start@ <= i64::MAX,
    ensures
        range.spec_width()@ == range@.end@ - range@.start@,
{
}

/// A value between the bounds of a range normalizes to a number from zero to
/// one, whether the range runs upwards or downwards.
pub proof fn lemma_map_within_unit(range: RangeInclusive<Scalar>, value: Scalar)
    requires
        range.has_extent(),
        min_int(range@.start@, range@.end@) <= value@ <= max_int(range@.start@, range@.end@),
    ensures
        0 <= range.spec_map(value)@ <= UNIT,
{
    lemma_unit_ratio_within(value@ - range@.start@, range@.end@ - range@.start@);
}

/// Whatever the candidate, the clamped value lies between the bounds of the
/// range, and so normalizes to a number from zero to one, also where the
/// range runs downwards.
pub proof fn lemma_clamped_maps_within_unit(range: RangeInclusive<Scalar>, candidate: Scalar)
    requires
        range.has_extent(),
    ensures
        ({
            let clamped = Scalar {
                raw: range_clamp(range@.start@, range@.end@, candidate@) as i64,
            };
            &&& clamped@ == range_clamp(range@.start@, range@.end@, candidate@)
            &&& 0 <= range.spec_map(clamped)@ <= UNIT
        }),
{
    let v = range_clamp(range@.start@, range@.end@, candidate@);
    lemma_unit_ratio_within(v - range@.start@, range@.end@ - range@.start@);
}

} // verus!
