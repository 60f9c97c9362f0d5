//! The points of an envelope and the edits that its owner applies to them.
//!
//! An envelope is a sequence of points in time order. Its first and last
//! point are its anchors: they may move, but the guarded removal never takes
//! them away, so an envelope with both anchors keeps them.

use vstd::prelude::*;
use vstd::std_specs::convert::FromSpecImpl;
use crate::scalar::Scalar;
use crate::vec2::Vec2;

verus! {

/// A point with an adjustable single-control exponential curve.
#[derive(Clone, Copy, Debug, PartialEq, Eq, Structural)]
pub struct CurvePoint {
    pub x: Scalar,
    pub y: Scalar,
    /// Shapes the segment that arrives at this point from the one before it;
    /// zero gives a straight line.
    pub curve: Scalar,
}

/// The point at `position`, reached by a straight line.
pub open spec fn straight(position: Vec2) -> CurvePoint {
    CurvePoint { x: position.x, y: position.y, curve: Scalar { raw: 0 } }
}

impl From<Vec2> for CurvePoint {
    /// The point at `v`, reached by a straight line.
    fn from(v: Vec2) -> (point: CurvePoint) {
        CurvePoint { x: v.x, y: v.y, curve: Scalar { raw: 0 } }
    }
}

impl FromSpecImpl<Vec2> for CurvePoint {
    open spec fn obeys_from_spec() -> bool {
        true
    }

    open spec fn from_spec(v: Vec2) -> CurvePoint {
        straight(v)
    }
}

impl From<(Scalar, Scalar)> for CurvePoint {
    /// The point at `(x, y)`, reached by a straight line.
    fn from(pair: (Scalar, Scalar)) -> (point: CurvePoint) {
        CurvePoint { x: pair.0, y: pair.1, curve: Scalar { raw: 0 } }
    }
}

impl FromSpecImpl<(Scalar, Scalar)> for CurvePoint {
    open spec fn obeys_from_spec() -> bool {
        true
    }

    open spec fn from_spec(pair: (Scalar, Scalar)) -> CurvePoint {
        CurvePoint { x: pair.0, y: pair.1, curve: Scalar { raw: 0 } }
    }
}

impl From<(Scalar, Scalar, Scalar)> for CurvePoint {
    /// The point at `(x, y)`, reached by a segment of the given curve.
    fn from(triple: (Scalar, Scalar, Scalar)) -> (point: CurvePoint) {
        CurvePoint { x: triple.0, y: triple.1, curve: triple.2 }
    }
}

impl FromSpecImpl<(Scalar, Scalar, Scalar)> for CurvePoint {
    open spec fn obeys_from_spec() -> bool {
        true
    }

    open spec fn from_spec(triple: (Scalar, Scalar, Scalar)) -> CurvePoint {
        CurvePoint { x: triple.0, y: triple.1, curve: triple.2 }
    }
}

/// Whether `index` is the first or the last place of a sequence of `len`
/// points.
pub open spec fn is_anchor(len: int, index: int) -> bool {
    index == 0 || index == len - 1
}

/// `point` moved to `position`, its curve kept.
pub open spec fn moved(point: CurvePoint, position: Vec2) -> CurvePoint {
    CurvePoint { x: position.x, y: position.y, curve: point.curve }
}

/// The points of an envelope in time order.
#[derive(Clone, Debug)]
pub struct CurvePoints(pub Vec<CurvePoint>);

impl View for CurvePoints {
    type V = Seq<CurvePoint>;

    open spec fn view(&self) -> Seq<CurvePoint> {
        self.0@
    }
}

impl CurvePoints {
    /// The envelope with the given points.
    pub fn new(points: Vec<CurvePoint>) -> (curve: CurvePoints)
        ensures
            curve@ == points@,
    {
        CurvePoints(points)
    }

    /// Whether the envelope has a first and a last point that differ in place.
    pub open spec fn has_anchors(&self) -> bool {
        self@.len() >= 2
    }

    /// The number of points.
    pub fn len(&self) -> (n: usize)
        ensures
            n == self@.len(),
    {
        self.0.len()
    }

    /// The point at `index`, if there is one.
    pub fn get(&self, index: usize) -> (point: Option<CurvePoint>)
        ensures
            point == if index < self@.len() {
                Some(self@[index as int])
            } else {
                None
            },
    {
        if index < self.0.len() {
            Some(self.0[index])
        } else {
            None
        }
    }

    /// Whether `index` is the place of the first or of the last point.
    pub fn is_anchor(&self, index: usize) -> (anchor: bool)
        ensures
            anchor == is_anchor(self@.len() as int, index as int),
    {
        index == 0 || (self.0.len() > 0 && index == self.0.len() - 1)
    }

    /// Moves the point at `index` to `position` and keeps its curve. Says
    /// whether there was such a point; without one nothing changes.
    pub fn move_point(&mut self, index: usize, position: Vec2) -> (applied: bool)
        ensures
            applied == (index < old(self)@.len()),
            applied ==> final(self)@ == old(self)@.update(
                index as int,
                moved(old(self)@[index as int], position),
            ),
            !applied ==> final(self)@ == old(self)@,
    {
        if index < self.0.len() {
            let curve: Scalar = self.0[index].curve;
            self.0[index] = CurvePoint { x: position.x, y: position.y, curve };
            true
        } else {
            false
        }
    }

    /// Puts a new point at `position`, reached by a straight line, in place
    /// `index`; the points from there on move one place up. Says whether
    /// `index` was a place of the sequence or the one after its last; for any
    /// other nothing changes.
    pub fn insert_point(&mut self, index: usize, position: Vec2) -> (applied: bool)
        ensures
            applied == (index <= old(self)@.len()),
            applied ==> final(self)@ == old(self)@.insert(
                index as int,
                straight(position),
            ),
            !applied ==> final(self)@ == old(self)@,
    {
        if index <= self.0.len() {
            self.0.insert(index, CurvePoint::from(position));
            true
        } else {
            false
        }
    }

    /// Takes the point at `index` out and returns it, unless it is the first
    /// or the last point or there is no such point: then nothing changes.
    pub fn remove_point(&mut self, index: usize) -> (removed: Option<CurvePoint>)
        ensures
            removed.is_some() == (0 < index < old(self)@.len() - 1),
            removed.is_some() ==> removed == Some(old(self)@[index as int]) && final(self)@ == old(
                self,
            )@.remove(index as int),
            removed.is_none() ==> final(self)@ == old(self)@,
    {
        if index > 0 && index < self.0.len() && index < self.0.len() - 1 {
            Some(self.0.remove(index))
        } else {
            None
        }
    }
}

/// An envelope with both anchors keeps them through any removal: after
/// `remove_point` it still has at least two points, and its first and its
/// last point are the ones it had.
pub proof fn lemma_removal_keeps_anchors(before: Seq<CurvePoint>, index: int)
    requires
        before.len() >= 2,
        0 < index < before.len() - 1,
    ensures
        before.remove(index).len() >= 2,
        before.remove(index).first() == before.first(),
        before.remove(index).last() == before.last(),
{
}

} // verus!
