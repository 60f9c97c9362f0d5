//! Points and offsets in the plane.

use vstd::prelude::*;
use crate::scalar::{clamp_int, clip, Scalar};

verus! {

/// A pair of fixed-point coordinates: a pointer position in pixels, or a
/// normalized value with one component per axis.
#[derive(Clone, Copy, Debug, PartialEq, Eq, Structural)]
pub struct Vec2 {
    pub x: Scalar,
    pub y: Scalar,
}

impl Vec2 {
    /// The point `(x, y)`.
    pub fn new(x: Scalar, y: Scalar) -> (v: Vec2)
        ensures
            v.x == x,
            v.y == y,
    {
        Vec2 { x, y }
    }

    /// The point with both coordinates equal to `value`.
    pub fn splat(value: Scalar) -> (v: Vec2)
        ensures
            v.x == value,
            v.y == value,
    {
        Vec2 { x: value, y: value }
    }

    /// The origin.
    pub fn zero() -> (v: Vec2)
        ensures
            v.x@ == 0,
            v.y@ == 0,
    {
        Vec2 { x: Scalar::zero(), y: Scalar::zero() }
    }

    /// The sum by components, each clipped if it is out of range.
    pub fn saturating_add(self, rhs: Vec2) -> (v: Vec2)
        ensures
            v.x@ == clip(self.x@ + rhs.x@),
            v.y@ == clip(self.y@ + rhs.y@),
    {
        Vec2 { x: self.x.saturating_add(rhs.x), y: self.y.saturating_add(rhs.y) }
    }

    /// The difference by components, each clipped if it is out of range.
    pub fn saturating_sub(self, rhs: Vec2) -> (v: Vec2)
        ensures
            v.x@ == clip(self.x@ - rhs.x@),
            v.y@ == clip(self.y@ - rhs.y@),
    {
        Vec2 { x: self.x.saturating_sub(rhs.x), y: self.y.saturating_sub(rhs.y) }
    }

    /// Each component limited to the interval that `min` and `max` give for it.
    pub fn clamp(self, min: Vec2, max: Vec2) -> (v: Vec2)
        requires
            min.x@ <= max.x@,
            min.y@ <= max.y@,
        ensures
            v.x@ == clamp_int(self.x@, min.x@, max.x@),
            v.y@ == clamp_int(self.y@, min.y@, max.y@),
    {
        Vec2 { x: self.x.clamp(min.x, max.x), y: self.y.clamp(min.y, max.y) }
    }
}

} // verus!
