//! Mapping between a widget's rectangle in pixels and normalized data space.
//!
//! Along each axis a pixel position becomes a fraction of the rectangle's
//! extent: zero at the left or top edge, one at the right or bottom edge. In
//! centered mode the fraction is rescaled so that the middle of the rectangle
//! is zero and the edges are minus one and one.

use vstd::prelude::*;
use vstd::arithmetic::div_mod::lemma_div_multiples_vanish_quotient;
use crate::scalar::{clamp_int, clip, div_floor, floor_div, saturate, times_unit, unit_ratio};
use crate::scalar::{lemma_floor_div_bounds, lemma_unit_ratio_within, Scalar, UNIT};
use crate::vec2::Vec2;

verus! {

/// An axis-aligned rectangle in pixels, as the layout of the host supplies it
/// for each event: `x` and `y` are its left and top edge, `w` and `h` its size.
#[derive(Clone, Copy, Debug, PartialEq, Eq, Structural)]
pub struct BoundingBox {
    pub x: Scalar,
    pub y: Scalar,
    pub w: Scalar,
    pub h: Scalar,
}

/// The fraction in normalized form: as it is, or rescaled around the middle.
pub open spec fn recenter(fraction: int, centered: bool) -> int {
    if centered {
        2 * fraction - UNIT
    } else {
        fraction
    }
}

/// Where the pixel position `p` lies along an axis that starts at `origin`
/// and is `extent` long, normalized, without regard to the axis' ends.
pub open spec fn axis_to_data_unbounded(origin: int, extent: int, p: int, centered: bool) -> int {
    clip(recenter(unit_ratio(p - origin, extent), centered))
}

/// Where the pixel position `p` lies along the axis after it has been moved
/// onto the axis, normalized.
pub open spec fn axis_to_data(origin: int, extent: int, p: int, centered: bool) -> int {
    axis_to_data_unbounded(origin, extent, clamp_int(p, origin, origin + extent), centered)
}

/// The pixel position of the normalized value `v` along the axis.
pub open spec fn axis_to_ui(origin: int, extent: int, v: int, centered: bool) -> int {
    clip(
        origin + if centered {
            ((v + UNIT) * extent) / (2 * UNIT)
        } else {
            (v * extent) / (UNIT as int)
        },
    )
}

/// Mapping between pixel positions and normalized data for a rectangle.
pub trait BoundingBoxExt {
    /// Whether the rectangle has a positive width and a positive height.
    spec fn non_degenerate(&self) -> bool;

    /// The normalized position of a pixel position moved into the rectangle.
    spec fn ui_to_data(&self, point: Vec2, centered: bool) -> Vec2;

    /// The pixel position of a normalized position.
    spec fn data_to_ui(&self, point: Vec2, centered: bool) -> Vec2;

    /// The normalized position of a pixel position, which may lie outside.
    spec fn ui_to_data_unbounded(&self, point: Vec2, centered: bool) -> Vec2;

    /// Whether the point lies in the rectangle, edges counted.
    spec fn contains(&self, point: Vec2) -> bool;

    /// Maps a pixel position to normalized data: `(0,0)` to `(1,1)` over the
    /// rectangle, or `(-1,-1)` to `(1,1)` if `centered`. A position outside
    /// the rectangle counts as the nearest position inside.
    fn map_ui_point(&self, point: Vec2, centered: bool) -> (data: Vec2)
        requires
            self.non_degenerate(),
        ensures
            data == self.ui_to_data(point, centered),
    ;

    /// Maps normalized data, `(0,0)` to `(1,1)` or `(-1,-1)` to `(1,1)` if
    /// `centered`, to the pixel position it has in the rectangle.
    fn map_data_point(&self, point: Vec2, centered: bool) -> (ui: Vec2)
        ensures
            ui == self.data_to_ui(point, centered),
    ;

    /// Maps a pixel position to normalized data without moving it into the
    /// rectangle first: a position outside gives a value beyond the
    /// normalized interval.
    fn map_ui_point_unbounded(&self, point: Vec2, centered: bool) -> (data: Vec2)
        requires
            self.non_degenerate(),
        ensures
            data == self.ui_to_data_unbounded(point, centered),
    ;

    /// Whether the point lies in the rectangle, edges counted.
    fn contains_point(&self, point: Vec2) -> (inside: bool)
        ensures
            inside == self.contains(point),
    ;
}

/// For a positive divisor the rounded quotient is no larger in magnitude than
/// the dividend and has its sign.
proof fn lemma_floor_div_magnitude(a: int, b: int)
    requires
        b > 0,
    ensures
        a >= 0 ==> 0 <= floor_div(a, b) <= a,
        a < 0 ==> a <= floor_div(a, b) < 0,
{
    let q = floor_div(a, b);
    lemma_floor_div_bounds(a, b);
    if a >= 0 {
        assert(0 <= q <= a) by (nonlinear_arith)
            requires
                q * b <= a < (q + 1) * b,
                b > 0,
                a >= 0,
        ;
    } else {
        assert(a <= q < 0) by (nonlinear_arith)
            requires
                q * b <= a < (q + 1) * b,
                b > 0,
                a < 0,
        ;
    }
}

/// One axis of the mapping from pixels to normalized data.
pub fn map_axis_to_data(origin: Scalar, extent: Scalar, p: i128, centered: bool) -> (v: Scalar)
    requires
        extent@ > 0,
        -0x1_0000_0000_0000_0000 <= p <= 0x1_0000_0000_0000_0000,
    ensures
        v@ == axis_to_data_unbounded(origin@, extent@, p as int, centered),
{
    let num: i128 = times_unit(p - origin.raw as i128);
    let fraction: i128 = div_floor(num, extent.raw as i128);
    proof {
        lemma_floor_div_magnitude(num as int, extent@);
    }
    if centered {
        Scalar { raw: saturate(2 * fraction - UNIT as i128) }
    } else {
        Scalar { raw: saturate(fraction) }
    }
}

/// The product of two factors that are wide but known to fit.
fn mul_wide(a: i128, b: i128) -> (r: i128)
    requires
        -0x8000_0000_0010_0000 <= a <= 0x8000_0000_0010_0000,
        -0x8000_0000_0000_0000 <= b <= 0x8000_0000_0000_0000,
    ensures
        r as int == a * b,
        -0x4000_0000_0008_0000_0000_0000_0000_0000 <= r <= 0x4000_0000_0008_0000_0000_0000_0000_0000,
{
    assert(-0x4000_0000_0008_0000_0000_0000_0000_0000 <= a * b
        <= 0x4000_0000_0008_0000_0000_0000_0000_0000) by (nonlinear_arith)
        requires
            -0x8000_0000_0010_0000 <= a <= 0x8000_0000_0010_0000,
            -0x8000_0000_0000_0000 <= b <= 0x8000_0000_0000_0000,
    ;
    a * b
}

/// One axis of the mapping from normalized data to pixels.
fn map_axis_to_ui(origin: Scalar, extent: Scalar, v: Scalar, centered: bool) -> (p: Scalar)
    ensures
        p@ == axis_to_ui(origin@, extent@, v@, centered),
{
    let steps: i128 = if centered {
        div_floor(mul_wide(v.raw as i128 + UNIT as i128, extent.raw as i128), 2 * UNIT as i128)
    } else {
        div_floor(mul_wide(v.raw as i128, extent.raw as i128), UNIT as i128)
    };
    proof {
        if centered {
            lemma_floor_div_magnitude((v@ + UNIT) * extent@, 2 * UNIT);
        } else {
            lemma_floor_div_magnitude(v@ * extent@, UNIT as int);
        }
    }
    Scalar { raw: saturate(origin.raw as i128 + steps) }
}

/// A position moved onto the axis from `origin` over `extent`.
fn clamp_to_axis(origin: Scalar, extent: Scalar, p: Scalar) -> (c: i128)
    requires
        extent@ > 0,
    ensures
        c as int == clamp_int(p@, origin@, origin@ + extent@),
{
    let far: i128 = origin.raw as i128 + extent.raw as i128;
    if p.raw < origin.raw {
        origin.raw as i128
    } else if p.raw as i128 > far {
        far
    } else {
        p.raw as i128
    }
}

impl BoundingBoxExt for BoundingBox {
    open spec fn non_degenerate(&self) -> bool {
        self.w@ > 0 && self.h@ > 0
    }

    open spec fn ui_to_data(&self, point: Vec2, centered: bool) -> Vec2 {
        Vec2 {
            x: Scalar { raw: axis_to_data(self.x@, self.w@, point.x@, centered) as i64 },
            y: Scalar { raw: axis_to_data(self.y@, self.h@, point.y@, centered) as i64 },
        }
    }

    open spec fn data_to_ui(&self, point: Vec2, centered: bool) -> Vec2 {
        Vec2 {
            x: Scalar { raw: axis_to_ui(self.x@, self.w@, point.x@, centered) as i64 },
            y: Scalar { raw: axis_to_ui(self.y@, self.h@, point.y@, centered) as i64 },
        }
    }

    open spec fn ui_to_data_unbounded(&self, point: Vec2, centered: bool) -> Vec2 {
        Vec2 {
            x: Scalar { raw: axis_to_data_unbounded(self.x@, self.w@, point.x@, centered) as i64 },
            y: Scalar { raw: axis_to_data_unbounded(self.y@, self.h@, point.y@, centered) as i64 },
        }
    }

    open spec fn contains(&self, point: Vec2) -> bool {
        &&& self.x@ <= point.x@ <= self.x@ + self.w@
        &&& self.y@ <= point.y@ <= self.y@ + self.h@
    }

    fn map_ui_point(&self, point: Vec2, centered: bool) -> (data: Vec2) {
        let px: i128 = clamp_to_axis(self.x, self.w, point.x);
        let py: i128 = clamp_to_axis(self.y, self.h, point.y);
        Vec2 {
            x: map_axis_to_data(self.x, self.w, px, centered),
            y: map_axis_to_data(self.y, self.h, py, centered),
        }
    }

    fn map_data_point(&self, point: Vec2, centered: bool) -> (ui: Vec2) {
        Vec2 {
            x: map_axis_to_ui(self.x, self.w, point.x, centered),
            y: map_axis_to_ui(self.y, self.h, point.y, centered),
        }
    }

    fn map_ui_point_unbounded(&self, point: Vec2, centered: bool) -> (data: Vec2) {
        Vec2 {
            x: map_axis_to_data(self.x, self.w, point.x.raw as i128, centered),
            y: map_axis_to_data(self.y, self.h, point.y.raw as i128, centered),
        }
    }

    fn contains_point(&self, point: Vec2) -> (inside: bool) {
        let right: i128 = self.x.raw as i128 + self.w.raw as i128;
        let bottom: i128 = self.y.raw as i128 + self.h.raw as i128;
        point.x.raw as i128 <= right && point.x.raw >= self.x.raw && point.y.raw as i128 <= bottom
            && point.y.raw >= self.y.raw
    }
}

/// Along one axis, a position strictly between the ends comes back from the
/// round trip no further than one step per whole of extent, plus one, towards
/// the origin.
proof fn lemma_axis_round_trip(origin: int, extent: int, p: int, centered: bool)
    requires
        extent > 0,
        origin < p < origin + extent,
        i64::MIN <= origin,
        p <= i64::MAX,
    ensures
        ({
            let v = axis_to_data(origin, extent, p, centered);
            let back = axis_to_ui(origin, extent, v, centered);
            0 <= p - back <= extent / (UNIT as int) + 1
        }),
{
    let d = p - origin;
    let q = unit_ratio(d, extent);
    lemma_unit_ratio_within(d, extent);
    lemma_floor_div_bounds(d * UNIT, extent);
    let v = axis_to_data(origin, extent, p, centered);
    assert(v == recenter(q, centered));
    let t = (q * extent) / (UNIT as int);
    assert(q * extent >= 0) by (nonlinear_arith)
        requires
            q >= 0,
            extent > 0,
    ;
    if centered {
        lemma_div_multiples_vanish_quotient(2, q * extent, UNIT as int);
        assert((v + UNIT) * extent == 2 * (q * extent)) by (nonlinear_arith)
            requires
                v + UNIT == 2 * q,
        ;
    }
    lemma_floor_div_bounds(q * extent, UNIT as int);
    assert((q + 1) * extent == q * extent + extent) by (nonlinear_arith);
    assert(t * UNIT <= d * UNIT);
    assert((d - t - 1) * UNIT < extent);
    assert(axis_to_ui(origin, extent, v, centered) == origin + t);
}

/// Mapping a point strictly inside the rectangle to data and back gives the
/// point again, up to rounding: each coordinate comes back no further than one
/// millionth of a pixel per whole pixel of the rectangle's size, plus one
/// millionth, towards the left or top edge. This holds in both modes.
pub proof fn lemma_round_trip(rect: BoundingBox, point: Vec2, centered: bool)
    requires
        rect.non_degenerate(),
        rect.x@ < point.x@ < rect.x@ + rect.w@,
        rect.y@ < point.y@ < rect.y@ + rect.h@,
    ensures
        ({
            let back = rect.data_to_ui(rect.ui_to_data(point, centered), centered);
            &&& 0 <= point.x@ - back.x@ <= rect.w@ / (UNIT as int) + 1
            &&& 0 <= point.y@ - back.y@ <= rect.h@ / (UNIT as int) + 1
        }),
{
    lemma_axis_round_trip(rect.x@, rect.w@, point.x@, centered);
    lemma_axis_round_trip(rect.y@, rect.h@, point.y@, centered);
    lemma_axis_to_data_within(rect.x@, rect.w@, point.x@, centered);
    lemma_axis_to_data_within(rect.y@, rect.h@, point.y@, centered);
}

/// Along one axis the bounded mapping stays in the normalized interval.
proof fn lemma_axis_to_data_within(origin: int, extent: int, p: int, centered: bool)
    requires
        extent > 0,
    ensures
        centered ==> -UNIT <= axis_to_data(origin, extent, p, centered) <= UNIT,
        !centered ==> 0 <= axis_to_data(origin, extent, p, centered) <= UNIT,
{
    lemma_unit_ratio_within(clamp_int(p, origin, origin + extent) - origin, extent);
}

/// The bounded mapping never leaves the normalized square: from zero to one
/// on both axes, or from minus one to one in centered mode.
pub proof fn lemma_ui_to_data_within(rect: BoundingBox, point: Vec2, centered: bool)
    requires
        rect.non_degenerate(),
    ensures
        ({
            let data = rect.ui_to_data(point, centered);
            let low = if centered { -UNIT } else { 0 };
            &&& low <= data.x@ <= UNIT
            &&& low <= data.y@ <= UNIT
        }),
{
    lemma_axis_to_data_within(rect.x@, rect.w@, point.x@, centered);
    lemma_axis_to_data_within(rect.y@, rect.h@, point.y@, centered);
}

/// Along an axis of positive extent the unbounded mapping keeps the order of
/// positions: a pointer further along never gives a smaller value.
pub proof fn lemma_axis_keeps_order(origin: int, extent: int, p: int, q: int, centered: bool)
    requires
        extent > 0,
        p <= q,
    ensures
        axis_to_data_unbounded(origin, extent, p, centered) <= axis_to_data_unbounded(
            origin,
            extent,
            q,
            centered,
        ),
{
    vstd::arithmetic::div_mod::lemma_div_is_ordered((p - origin) * UNIT, (q - origin) * UNIT, extent);
}

/// For a point in the rectangle the two mappings from pixels to data agree.
pub proof fn lemma_unbounded_agrees_inside(rect: BoundingBox, point: Vec2, centered: bool)
    requires
        rect.non_degenerate(),
        rect.contains(point),
    ensures
        rect.ui_to_data_unbounded(point, centered) == rect.ui_to_data(point, centered),
{
}

} // verus!
