//! A multi-stage envelope editor: a graph of curve points over a zoomer that
//! selects the visible part of the time axis.
//!
//! The editor does not change the points itself. It hands each edit on to the
//! owner of the points as an intent, and holds back the one edit that would
//! take an anchor away: the removal of the first or of the last point.

use vstd::prelude::*;
use crate::curve_point::{is_anchor, moved, straight, CurvePoint, CurvePoints};
use crate::scalar::Scalar;
use crate::vec2::Vec2;
use crate::zoomer::ZoomerChange;

verus! {

/// An edit of the envelope or of its visible window, as the parts of the
/// editor report it and as the editor hands it on.
#[derive(Clone, Copy, Debug, PartialEq, Eq, Structural)]
pub enum MsegInternalEvent {
    OnChangingRangeStart(Scalar),
    OnChangingRangeEnd(Scalar),
    OnChangingRangeBoth { start: Scalar, end: Scalar },
    OnChangingPoint { index: usize, point: Vec2 },
    OnRemovePoint { index: usize },
    OnInsertPoint { index: usize, point: Vec2 },
}

/// Whether the editor hands `event` on for an envelope of `len` points:
/// everything but the removal of an anchor.
pub open spec fn forwards(event: MsegInternalEvent, len: int) -> bool {
    match event {
        MsegInternalEvent::OnRemovePoint { index } => !is_anchor(len, index as int),
        _ => true,
    }
}

/// The points after the owner has applied `event` to them. An edit that
/// names a place that the envelope does not have changes nothing, and so
/// does an edit of the window.
pub open spec fn applied(points: Seq<CurvePoint>, event: MsegInternalEvent) -> Seq<CurvePoint> {
    match event {
        MsegInternalEvent::OnChangingPoint { index, point } => if index < points.len() {
            points.update(index as int, moved(points[index as int], point))
        } else {
            points
        },
        MsegInternalEvent::OnInsertPoint { index, point } => if index <= points.len() {
            points.insert(index as int, straight(point))
        } else {
            points
        },
        MsegInternalEvent::OnRemovePoint { index } => if 0 < index < points.len() - 1 {
            points.remove(index as int)
        } else {
            points
        },
        _ => points,
    }
}

/// The envelope editor.
#[derive(Clone, Copy, Debug, PartialEq, Eq, Structural)]
pub struct Mseg {}

impl Mseg {
    /// An editor.
    pub fn new() -> Mseg {
        Mseg {  }
    }

    /// The event that stands for a change reported by the zoomer.
    pub fn range_event(change: ZoomerChange) -> (event: MsegInternalEvent)
        ensures
            event == match change {
                ZoomerChange::Start(x) => MsegInternalEvent::OnChangingRangeStart(x),
                ZoomerChange::End(x) => MsegInternalEvent::OnChangingRangeEnd(x),
                ZoomerChange::Both(start, end) => MsegInternalEvent::OnChangingRangeBoth {
                    start,
                    end,
                },
            },
    {
        match change {
            ZoomerChange::Start(x) => MsegInternalEvent::OnChangingRangeStart(x),
            ZoomerChange::End(x) => MsegInternalEvent::OnChangingRangeEnd(x),
            ZoomerChange::Both(start, end) => MsegInternalEvent::OnChangingRangeBoth { start, end },
        }
    }

    /// Takes an event from the graph or the zoomer and gives the intent for
    /// the owner's callback: the event itself, or nothing where the event
    /// asks to remove the first or the last of `points`.
    pub fn event(&self, event: MsegInternalEvent, points: &CurvePoints) -> (intent: Option<
        MsegInternalEvent,
    >)
        ensures
            intent == if forwards(event, points@.len() as int) {
                Some(event)
            } else {
                None
            },
    {
        match event {
            MsegInternalEvent::OnRemovePoint { index } => {
                if points.is_anchor(index) {
                    None
                } else {
                    Some(event)
                }
            },
            _ => Some(event),
        }
    }
}

impl CurvePoints {
    /// Applies an intent of the editor as the owner of the points does. Says
    /// whether the points changed place, number or position.
    pub fn apply(&mut self, intent: &MsegInternalEvent) -> (changed: bool)
        ensures
            final(self)@ == applied(old(self)@, *intent),
            changed == match *intent {
                MsegInternalEvent::OnChangingPoint { index, point } => index < old(self)@.len(),
                MsegInternalEvent::OnInsertPoint { index, point } => index <= old(self)@.len(),
                MsegInternalEvent::OnRemovePoint { index } => 0 < index < old(self)@.len() - 1,
                _ => false,
            },
    {
        match intent {
            MsegInternalEvent::OnChangingPoint { index, point } => self.move_point(*index, *point),
            MsegInternalEvent::OnInsertPoint { index, point } => self.insert_point(*index, *point),
            MsegInternalEvent::OnRemovePoint { index } => self.remove_point(*index).is_some(),
            _ => false,
        }
    }
}

/// For an envelope of `len` points, a request to remove the point at place
/// zero or at place `len - 1` is held back, and a request to remove any point
/// between them is handed on unchanged.
pub proof fn lemma_removal_guard(len: int, index: usize)
    requires
        len >= 0,
    ensures
        (index == 0 || index == len - 1) ==> !forwards(
            MsegInternalEvent::OnRemovePoint { index },
            len,
        ),
        0 < index < len - 1 ==> forwards(MsegInternalEvent::OnRemovePoint { index }, len),
{
}

/// An envelope with both anchors keeps at least two points through every
/// intent that the editor hands on, and a removal that it hands on leaves the
/// first and the last point as they were.
pub proof fn lemma_envelope_keeps_anchors(points: Seq<CurvePoint>, event: MsegInternalEvent)
    requires
        points.len() >= 2,
        forwards(event, points.len() as int),
    ensures
        applied(points, event).len() >= 2,
        event is OnRemovePoint ==> applied(points, event).first() == points.first() && applied(
            points,
            event,
        ).last() == points.last(),
{
}

} // verus!
