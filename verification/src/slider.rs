//! A slider that drags one value along its longer side.
//!
//! The bar reads the pointer along the vertical axis when its rectangle is
//! taller than wide and along the horizontal axis otherwise. The value it
//! reports is limited to the slider's range, which may run downwards.

use std::ops::RangeInclusive;
use vstd::prelude::*;
use crate::bounding_box::{axis_to_data_unbounded, map_axis_to_data, BoundingBox, BoundingBoxExt};
use crate::extensions::{clamp_to_range, max_int, min_int, range_clamp};
use crate::interaction::{pointer_request, request_for};
use crate::interaction::{InteractionState, MouseButton, Response, WindowEvent};
use crate::scalar::{saturate, Scalar};
use crate::vec2::Vec2;

verus! {

/// What the bar of a slider tells the slider around it.
#[derive(Clone, Copy, Debug, PartialEq, Eq, Structural)]
pub enum InternalEvent {
    /// The value is being dragged to the given number.
    Changing(Scalar),
}

/// Whether a slider with this rectangle is a vertical one.
pub open spec fn is_vertical(bounds: BoundingBox) -> bool {
    bounds.h@ > bounds.w@
}

/// The pointer position `p` mapped along the slider's axis, centered.
pub open spec fn slider_position(bounds: BoundingBox, p: Vec2) -> int {
    if is_vertical(bounds) {
        axis_to_data_unbounded(bounds.y@, bounds.h@, p.y@, true)
    } else {
        axis_to_data_unbounded(bounds.x@, bounds.w@, p.x@, true)
    }
}

/// The interactive bar of a slider.
#[derive(Debug)]
pub struct SliderBar {
    pub range: RangeInclusive<Scalar>,
    pub state: InteractionState,
    /// The distance from the mapped pointer to the value, set at the press so
    /// that the value does not skip to the pointer when the drag starts.
    pub offset: i128,
}

impl SliderBar {
    /// Whether the bar reads the rectangle for this event, which then has to
    /// have a positive width and height.
    pub open spec fn reads_bounds(&self, event: WindowEvent) -> bool {
        self.state.starts_drag(event) || self.state.drags(event)
    }

    /// Whether the offset is one that a press can have recorded.
    pub open spec fn wf(&self) -> bool {
        -0x1_0000_0000_0000_0000 <= self.offset <= 0x1_0000_0000_0000_0000
    }

    /// The offset after `event`: recorded at the start of a drag, cleared by
    /// the release of the left button, and kept otherwise.
    pub open spec fn offset_after(
        &self,
        event: WindowEvent,
        bounds: BoundingBox,
        cursor: Vec2,
        value: Scalar,
    ) -> i128 {
        if self.state.starts_drag(event) {
            (value@ - slider_position(bounds, cursor)) as i128
        } else if event == WindowEvent::MouseUp(MouseButton::Left) {
            0
        } else {
            self.offset
        }
    }

    /// The value that `event` reports, if it reports one: a move during a
    /// drag reports the mapped pointer plus the offset, limited to the range.
    pub open spec fn reported(&self, event: WindowEvent, bounds: BoundingBox) -> Option<Scalar> {
        match event {
            WindowEvent::MouseMove(x, y) => if self.state is Dragging {
                Some(
                    Scalar {
                        raw: range_clamp(
                            self.range@.start@,
                            self.range@.end@,
                            self.offset + slider_position(bounds, Vec2 { x, y }),
                        ) as i64,
                    },
                )
            } else {
                None
            },
            _ => None,
        }
    }

    /// An idle bar for the given range.
    pub fn new(range: RangeInclusive<Scalar>) -> (bar: SliderBar)
        ensures
            bar.range == range,
            bar.state == InteractionState::Idle,
            bar.offset == 0,
            bar.wf(),
    {
        SliderBar { range, state: InteractionState::Idle, offset: 0 }
    }

    /// The pointer position mapped along the slider's axis.
    fn position(bounds: &BoundingBox, p: Vec2) -> (m: Scalar)
        requires
            bounds.non_degenerate(),
        ensures
            m@ == slider_position(*bounds, p),
    {
        if bounds.h.raw > bounds.w.raw {
            map_axis_to_data(bounds.y, bounds.h, p.y.raw as i128, true)
        } else {
            map_axis_to_data(bounds.x, bounds.w, p.x.raw as i128, true)
        }
    }

    /// Takes one event. `bounds` is the bar's rectangle, `cursor` the
    /// pointer's position and `value` the committed value, all as they are
    /// when the event arrives.
    pub fn event(
        &mut self,
        event: &WindowEvent,
        bounds: &BoundingBox,
        cursor: Vec2,
        value: Scalar,
    ) -> (response: Response<Scalar>)
        requires
            old(self).wf(),
            old(self).reads_bounds(*event) ==> bounds.non_degenerate(),
        ensures
            final(self).wf(),
            final(self).range == old(self).range,
            final(self).state == old(self).state.after(*event, bounds.contains(cursor)),
            final(self).offset == old(self).offset_after(*event, *bounds, cursor, value),
            response.pointer == pointer_request(*event),
            response.changed == old(self).reported(*event, *bounds),
    {
        let pointer = request_for(event);
        let mut changed: Option<Scalar> = None;
        match event {
            WindowEvent::MouseMove(x, y) => {
                if let InteractionState::Dragging = self.state {
                    let m: Scalar = Self::position(bounds, Vec2 { x: *x, y: *y });
                    let candidate = Scalar { raw: saturate(self.offset + m.raw as i128) };
                    changed = Some(clamp_to_range(&self.range, candidate));
                }
            },
            WindowEvent::MouseDown(MouseButton::Left) => {
                if let InteractionState::Hovering = self.state {
                    let m: Scalar = Self::position(bounds, cursor);
                    self.offset = value.raw as i128 - m.raw as i128;
                }
            },
            WindowEvent::MouseUp(MouseButton::Left) => {
                self.offset = 0;
            },
            _ => {},
        }
        let inside = bounds.contains_point(cursor);
        self.state = self.state.step(event, inside);
        Response { pointer, changed }
    }
}

/// A slider: a bar and the wiring that turns what the bar reports into the
/// value for the owner's callback.
#[derive(Debug)]
pub struct DragSlider {
    pub bar: SliderBar,
}

impl DragSlider {
    /// A slider over `range`. The range is arbitrary; most sliders want zero
    /// to one, or minus one to one for a centered slider.
    pub fn new(range: RangeInclusive<Scalar>) -> (slider: DragSlider)
        ensures
            slider.bar.range == range,
            slider.bar.state == InteractionState::Idle,
            slider.bar.offset == 0,
            slider.bar.wf(),
    {
        DragSlider { bar: SliderBar::new(range) }
    }

    /// What the slider is told for a response of its bar.
    pub fn bar_event(response: &Response<Scalar>) -> (message: Option<InternalEvent>)
        ensures
            message == match response.changed {
                Some(value) => Some(InternalEvent::Changing(value)),
                None => None,
            },
    {
        match response.changed {
            Some(value) => Some(InternalEvent::Changing(value)),
            None => None,
        }
    }

    /// The value that the owner's callback gets for a message of the bar.
    pub fn event(&self, message: &InternalEvent) -> (value: Scalar)
        ensures
            InternalEvent::Changing(value) == *message,
    {
        match message {
            InternalEvent::Changing(value) => *value,
        }
    }
}

/// A bar grabbed at a pointer position reports, for a move to that same
/// position, the value that was committed when it was grabbed, moved into the
/// range if it was outside: the offset cancels the position of the press.
pub proof fn lemma_bar_grab_keeps_value(
    bar: SliderBar,
    bounds: BoundingBox,
    cursor: Vec2,
    value: Scalar,
)
    requires
        bar.state == InteractionState::Hovering,
        bounds.non_degenerate(),
    ensures
        ({
            let press = WindowEvent::MouseDown(MouseButton::Left);
            let grabbed = SliderBar {
                range: bar.range,
                state: bar.state.after(press, bounds.contains(cursor)),
                offset: bar.offset_after(press, bounds, cursor, value),
            };
            let report = grabbed.reported(WindowEvent::MouseMove(cursor.x, cursor.y), bounds);
            &&& grabbed.state == InteractionState::Dragging
            &&& report matches Some(v)
            &&& v@ == range_clamp(bar.range@.start@, bar.range@.end@, value@)
            &&& (min_int(bar.range@.start@, bar.range@.end@) <= value@
                <= max_int(bar.range@.start@, bar.range@.end@) ==> v == value)
        }),
{
}

/// Whatever the pointer does, a reported value lies between the bounds of
/// the slider's range.
pub proof fn lemma_bar_reports_within(bar: SliderBar, event: WindowEvent, bounds: BoundingBox)
    ensures
        bar.reported(event, bounds) matches Some(v) ==> min_int(
            bar.range@.start@,
            bar.range@.end@,
        ) <= v@ <= max_int(bar.range@.start@, bar.range@.end@),
{
}

} // verus!
