//! A pad that controls one point on a normalized plane from `(-1,-1)` to
//! `(1,1)`.
//!
//! A press records how far the committed point is from the pointer; while the
//! drag lasts every move reports the pointer's position plus that offset, so
//! the point follows the pointer from where it was grabbed and does not jump.

use vstd::prelude::*;
use crate::bounding_box::{axis_to_data_unbounded, map_axis_to_data, BoundingBox, BoundingBoxExt};
use crate::interaction::{clamp_wide, pointer_request, request_for};
use crate::interaction::{InteractionState, MouseButton, Response, WindowEvent};
use crate::scalar::{clamp_int, Scalar, UNIT};
use crate::vec2::Vec2;

verus! {

/// The distance from a mapped pointer position to a committed value, kept
/// exact on each axis so that adding the same mapped position gives the value
/// back.
#[derive(Clone, Copy, Debug, PartialEq, Eq, Structural)]
pub struct Offset {
    pub x: i128,
    pub y: i128,
}

/// The interaction state of an XY pad.
#[derive(Clone, Copy, Debug, PartialEq, Eq, Structural)]
pub struct XyPad {
    /// Set when a drag starts, zero when none is going on.
    pub offset: Offset,
    pub state: InteractionState,
}

/// The value that a drag reports on one axis: the mapped pointer position
/// plus the offset, limited to the pad's interval.
pub open spec fn pad_value(offset: int, origin: int, extent: int, p: int) -> int {
    clamp_int(offset + axis_to_data_unbounded(origin, extent, p, true), -UNIT, UNIT as int)
}

impl XyPad {
    /// Whether the pad reads the rectangle for this event, which then has to
    /// have a positive width and height.
    pub open spec fn reads_bounds(self, event: WindowEvent) -> bool {
        self.state.starts_drag(event) || self.state.drags(event)
    }

    /// The offset after `event`: recorded at the start of a drag, cleared by
    /// the release of the left button, and kept otherwise.
    pub open spec fn offset_after(
        self,
        event: WindowEvent,
        bounds: BoundingBox,
        cursor: Vec2,
        point: Vec2,
    ) -> Offset {
        if self.state.starts_drag(event) {
            Offset {
                x: (point.x@ - axis_to_data_unbounded(bounds.x@, bounds.w@, cursor.x@, true))
                    as i128,
                y: (point.y@ - axis_to_data_unbounded(bounds.y@, bounds.h@, cursor.y@, true))
                    as i128,
            }
        } else if event == WindowEvent::MouseUp(MouseButton::Left) {
            Offset { x: 0, y: 0 }
        } else {
            self.offset
        }
    }

    /// The point that `event` reports, if it reports one: a move during a
    /// drag does, nothing else.
    pub open spec fn reported(self, event: WindowEvent, bounds: BoundingBox) -> Option<Vec2> {
        match event {
            WindowEvent::MouseMove(x, y) => if self.state is Dragging {
                Some(
                    Vec2 {
                        x: Scalar {
                            raw: pad_value(self.offset.x as int, bounds.x@, bounds.w@, x@) as i64,
                        },
                        y: Scalar {
                            raw: pad_value(self.offset.y as int, bounds.y@, bounds.h@, y@) as i64,
                        },
                    },
                )
            } else {
                None
            },
            _ => None,
        }
    }

    /// Whether the offset is one that a press can have recorded.
    pub open spec fn wf(self) -> bool {
        &&& -0x1_0000_0000_0000_0000 <= self.offset.x <= 0x1_0000_0000_0000_0000
        &&& -0x1_0000_0000_0000_0000 <= self.offset.y <= 0x1_0000_0000_0000_0000
    }

    /// An idle pad.
    pub fn new() -> (pad: XyPad)
        ensures
            pad.state == InteractionState::Idle,
            pad.offset == (Offset { x: 0, y: 0 }),
            pad.wf(),
    {
        XyPad { offset: Offset { x: 0, y: 0 }, state: InteractionState::Idle }
    }

    /// Takes one event. `bounds` is the pad's rectangle, `cursor` the
    /// pointer's position and `point` the committed point, all as they are
    /// when the event arrives.
    pub fn event(
        &mut self,
        event: &WindowEvent,
        bounds: &BoundingBox,
        cursor: Vec2,
        point: Vec2,
    ) -> (response: Response<Vec2>)
        requires
            old(self).wf(),
            old(self).reads_bounds(*event) ==> bounds.non_degenerate(),
        ensures
            final(self).wf(),
            final(self).state == old(self).state.after(*event, bounds.contains(cursor)),
            final(self).offset == old(self).offset_after(*event, *bounds, cursor, point),
            response.pointer == pointer_request(*event),
            response.changed == old(self).reported(*event, *bounds),
    {
        let pointer = request_for(event);
        let mut changed: Option<Vec2> = None;
        match event {
            WindowEvent::MouseMove(x, y) => {
                if let InteractionState::Dragging = self.state {
                    let mx: Scalar = map_axis_to_data(bounds.x, bounds.w, x.raw as i128, true);
                    let my: Scalar = map_axis_to_data(bounds.y, bounds.h, y.raw as i128, true);
                    changed = Some(
                        Vec2 {
                            x: Scalar { raw: clamp_wide(self.offset.x + mx.raw as i128, -UNIT, UNIT) },
                            y: Scalar { raw: clamp_wide(self.offset.y + my.raw as i128, -UNIT, UNIT) },
                        },
                    );
                }
            },
            WindowEvent::MouseDown(MouseButton::Left) => {
                if let InteractionState::Hovering = self.state {
                    let mx: Scalar = map_axis_to_data(bounds.x, bounds.w, cursor.x.raw as i128, true);
                    let my: Scalar = map_axis_to_data(bounds.y, bounds.h, cursor.y.raw as i128, true);
                    self.offset = Offset {
                        x: point.x.raw as i128 - mx.raw as i128,
                        y: point.y.raw as i128 - my.raw as i128,
                    };
                }
            },
            WindowEvent::MouseUp(MouseButton::Left) => {
                self.offset = Offset { x: 0, y: 0 };
            },
            _ => {},
        }
        let inside = bounds.contains_point(cursor);
        self.state = self.state.step(event, inside);
        Response { pointer, changed }
    }
}

/// A pad grabbed at a pointer position reports, for a move to that same
/// position, the point that was committed when it was grabbed: the offset
/// cancels the position of the press exactly. A committed point outside the
/// pad's square comes back moved onto its edge.
pub proof fn lemma_pad_grab_keeps_point(pad: XyPad, bounds: BoundingBox, cursor: Vec2, point: Vec2)
    requires
        pad.state == InteractionState::Hovering,
        bounds.non_degenerate(),
    ensures
        ({
            let press = WindowEvent::MouseDown(MouseButton::Left);
            let grabbed = XyPad {
                offset: pad.offset_after(press, bounds, cursor, point),
                state: pad.state.after(press, bounds.contains(cursor)),
            };
            let report = grabbed.reported(WindowEvent::MouseMove(cursor.x, cursor.y), bounds);
            &&& grabbed.state == InteractionState::Dragging
            &&& report matches Some(v)
            &&& v.x@ == clamp_int(point.x@, -UNIT, UNIT as int)
            &&& v.y@ == clamp_int(point.y@, -UNIT, UNIT as int)
        }),
{
}

/// Whatever the pointer does, a reported point lies in the pad's square.
pub proof fn lemma_pad_reports_within(pad: XyPad, event: WindowEvent, bounds: BoundingBox)
    ensures
        pad.reported(event, bounds) matches Some(v) ==> -UNIT <= v.x@ <= UNIT && -UNIT <= v.y@
            <= UNIT,
{
}

} // verus!
