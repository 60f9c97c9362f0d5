//! A control that selects a window `start..=end` out of the domain from zero
//! to one, with a handle at each end and a bar between them.
//!
//! Dragging a handle moves that end of the window; dragging the bar moves the
//! whole window and keeps its width. The handles never come closer to each
//! other than `SMALLEST_RANGE`, and the window never leaves the domain.

use std::ops::RangeInclusive;
use vstd::prelude::*;
use crate::bounding_box::{axis_to_data_unbounded, map_axis_to_data, BoundingBox};
use crate::interaction::{clamp_wide, pointer_request, request_for};
use crate::interaction::{MouseButton, Response, WindowEvent};
use crate::scalar::{clamp_int, Scalar, UNIT};
use crate::vec2::Vec2;

verus! {

/// The least width that a drag of a handle leaves to the window.
pub const SMALLEST_RANGE: i64 = 100_000;

/// What is being dragged. The handles and the bar say so when they are
/// pressed; `FinishSet` says that nothing is.
#[derive(Clone, Copy, Debug, PartialEq, Eq, Structural)]
pub enum ZoomerEvent {
    SetStart,
    SetEnd,
    SetBoth,
    FinishSet,
}

/// A change of the window that the zoomer reports to its owner.
#[derive(Clone, Copy, Debug, PartialEq, Eq, Structural)]
pub enum ZoomerChange {
    Start(Scalar),
    End(Scalar),
    /// The new start and the new end, as far apart as the old ones.
    Both(Scalar, Scalar),
}

/// The interaction state of a zoomer.
#[derive(Clone, Copy, Debug, PartialEq, Eq, Structural)]
pub struct Zoomer {
    pub status: ZoomerEvent,
    /// The distance from the mapped pointer to the dragged end of the window,
    /// set when the drag starts.
    pub offset: i128,
}

/// The horizontal position of the pointer as a fraction of the zoomer's width.
pub open spec fn zoomer_position(bounds: BoundingBox, x: Scalar) -> int {
    axis_to_data_unbounded(bounds.x@, bounds.w@, x@, false)
}

/// Whether a window lies in the domain with its ends in order and at least
/// `SMALLEST_RANGE` apart.
pub open spec fn window_wf(start: int, end: int) -> bool {
    0 <= start && start + SMALLEST_RANGE <= end && end <= UNIT
}

/// Whether the window leaves room for a drag in the given mode: the limits
/// that the dragged value is held to must not cross.
pub open spec fn window_allows(status: ZoomerEvent, start: int, end: int) -> bool {
    match status {
        ZoomerEvent::SetStart => 0 <= end - SMALLEST_RANGE,
        ZoomerEvent::SetEnd => start + SMALLEST_RANGE <= UNIT,
        ZoomerEvent::SetBoth => 0 <= end - start <= UNIT,
        ZoomerEvent::FinishSet => true,
    }
}

/// The change that a drag to `candidate` makes to the window in each mode.
pub open spec fn window_change(status: ZoomerEvent, start: int, end: int, candidate: int) -> Option<
    ZoomerChange,
> {
    match status {
        ZoomerEvent::SetStart => Some(
            ZoomerChange::Start(
                Scalar { raw: clamp_int(candidate, 0, end - SMALLEST_RANGE) as i64 },
            ),
        ),
        ZoomerEvent::SetEnd => Some(
            ZoomerChange::End(
                Scalar { raw: clamp_int(candidate, start + SMALLEST_RANGE, UNIT as int) as i64 },
            ),
        ),
        ZoomerEvent::SetBoth => {
            let moved = clamp_int(candidate, 0, UNIT - (end - start));
            Some(
                ZoomerChange::Both(
                    Scalar { raw: moved as i64 },
                    Scalar { raw: (moved + (end - start)) as i64 },
                ),
            )
        },
        ZoomerEvent::FinishSet => None,
    }
}

impl Zoomer {
    /// Whether the offset is one that the start of a drag can have recorded.
    pub open spec fn wf(self) -> bool {
        -0x1_0000_0000_0000_0000 <= self.offset <= 0x1_0000_0000_0000_0000
    }

    /// The offset that the start of a drag in mode `status` records.
    pub open spec fn grab_offset(
        status: ZoomerEvent,
        bounds: BoundingBox,
        cursor: Vec2,
        range: RangeInclusive<Scalar>,
    ) -> i128 {
        match status {
            ZoomerEvent::SetStart => (range@.start@ - zoomer_position(bounds, cursor.x)) as i128,
            ZoomerEvent::SetEnd => (range@.end@ - zoomer_position(bounds, cursor.x)) as i128,
            ZoomerEvent::SetBoth => (range@.start@ - zoomer_position(bounds, cursor.x)) as i128,
            ZoomerEvent::FinishSet => 0,
        }
    }

    /// What a move of the pointer to `x` reports.
    pub open spec fn reported(
        self,
        event: WindowEvent,
        bounds: BoundingBox,
        range: RangeInclusive<Scalar>,
    ) -> Option<ZoomerChange> {
        match event {
            WindowEvent::MouseMove(x, _) => window_change(
                self.status,
                range@.start@,
                range@.end@,
                self.offset + zoomer_position(bounds, x),
            ),
            _ => None,
        }
    }

    /// A zoomer that drags nothing.
    pub fn new() -> (zoomer: Zoomer)
        ensures
            zoomer.status == ZoomerEvent::FinishSet,
            zoomer.offset == 0,
            zoomer.wf(),
    {
        Zoomer { status: ZoomerEvent::FinishSet, offset: 0 }
    }

    /// Takes the word of a handle or of the bar that it was pressed, or that
    /// the drag is over. `cursor` is the pointer's position at that moment
    /// and `range` the committed window.
    pub fn set_status(
        &mut self,
        status: ZoomerEvent,
        bounds: &BoundingBox,
        cursor: Vec2,
        range: &RangeInclusive<Scalar>,
    )
        requires
            status != ZoomerEvent::FinishSet ==> bounds.w@ > 0,
        ensures
            final(self).status == status,
            final(self).offset == Self::grab_offset(status, *bounds, cursor, *range),
            final(self).wf(),
    {
        self.status = status;
        self.offset = match status {
            ZoomerEvent::SetStart | ZoomerEvent::SetBoth => {
                let m: Scalar = map_axis_to_data(bounds.x, bounds.w, cursor.x.raw as i128, false);
                range.start().raw as i128 - m.raw as i128
            },
            ZoomerEvent::SetEnd => {
                let m: Scalar = map_axis_to_data(bounds.x, bounds.w, cursor.x.raw as i128, false);
                range.end().raw as i128 - m.raw as i128
            },
            ZoomerEvent::FinishSet => 0,
        };
    }

    /// Takes one event of the host. `bounds` is the zoomer's rectangle and
    /// `range` the committed window, as they are when the event arrives.
    pub fn event(
        &mut self,
        event: &WindowEvent,
        bounds: &BoundingBox,
        range: &RangeInclusive<Scalar>,
    ) -> (response: Response<ZoomerChange>)
        requires
            old(self).wf(),
            (*event is MouseMove && old(self).status != ZoomerEvent::FinishSet) ==> bounds.w@ > 0
                && window_allows(old(self).status, range@.start@, range@.end@),
        ensures
            final(self).wf(),
            final(self).status == if *event == WindowEvent::MouseUp(MouseButton::Left) {
                ZoomerEvent::FinishSet
            } else {
                old(self).status
            },
            final(self).offset == if *event == WindowEvent::MouseUp(MouseButton::Left) {
                0
            } else {
                old(self).offset
            },
            response.pointer == pointer_request(*event),
            response.changed == old(self).reported(*event, *bounds, *range),
    {
        let pointer = request_for(event);
        let mut changed: Option<ZoomerChange> = None;
        match event {
            WindowEvent::MouseMove(x, _) => {
                let start: i64 = range.start().raw;
                let end: i64 = range.end().raw;
                match self.status {
                    ZoomerEvent::SetStart => {
                        let m: Scalar = map_axis_to_data(bounds.x, bounds.w, x.raw as i128, false);
                        let v: i64 = clamp_wide(self.offset + m.raw as i128, 0, end - SMALLEST_RANGE);
                        changed = Some(ZoomerChange::Start(Scalar { raw: v }));
                    },
                    ZoomerEvent::SetEnd => {
                        let m: Scalar = map_axis_to_data(bounds.x, bounds.w, x.raw as i128, false);
                        let v: i64 = clamp_wide(self.offset + m.raw as i128, start + SMALLEST_RANGE, UNIT);
                        changed = Some(ZoomerChange::End(Scalar { raw: v }));
                    },
                    ZoomerEvent::SetBoth => {
                        let m: Scalar = map_axis_to_data(bounds.x, bounds.w, x.raw as i128, false);
                        let width: i64 = end - start;
                        let v: i64 = clamp_wide(self.offset + m.raw as i128, 0, UNIT - width);
                        changed = Some(
                            ZoomerChange::Both(Scalar { raw: v }, Scalar { raw: v + width }),
                        );
                    },
                    ZoomerEvent::FinishSet => {},
                }
            },
            WindowEvent::MouseUp(MouseButton::Left) => {
                self.status = ZoomerEvent::FinishSet;
                self.offset = 0;
            },
            _ => {},
        }
        Response { pointer, changed }
    }
}

/// The window after the owner has applied a change to it.
pub open spec fn window_after(start: int, end: int, change: ZoomerChange) -> (int, int) {
    match change {
        ZoomerChange::Start(s) => (s@, end),
        ZoomerChange::End(e) => (start, e@),
        ZoomerChange::Both(s, e) => (s@, e@),
    }
}

/// The start handle cannot be dragged past `end - SMALLEST_RANGE` nor below
/// zero, and the end handle cannot be dragged past `start + SMALLEST_RANGE`
/// nor above one, wherever the pointer goes.
pub proof fn lemma_handles_keep_apart(start: Scalar, end: Scalar, candidate: int)
    ensures
        window_allows(ZoomerEvent::SetStart, start@, end@) ==> (window_change(
            ZoomerEvent::SetStart,
            start@,
            end@,
            candidate,
        ) matches Some(ZoomerChange::Start(s)) && 0 <= s@ <= end@ - SMALLEST_RANGE),
        window_allows(ZoomerEvent::SetEnd, start@, end@) ==> (window_change(
            ZoomerEvent::SetEnd,
            start@,
            end@,
            candidate,
        ) matches Some(ZoomerChange::End(e)) && start@ + SMALLEST_RANGE <= e@ <= UNIT),
{
}

/// A well-formed window stays well-formed under every change that a drag
/// reports, in every mode; a drag of the bar keeps its width.
pub proof fn lemma_window_stays_wf(status: ZoomerEvent, start: Scalar, end: Scalar, candidate: int)
    requires
        window_wf(start@, end@),
    ensures
        window_allows(status, start@, end@),
        window_change(status, start@, end@, candidate) matches Some(change) ==> ({
            let (s, e) = window_after(start@, end@, change);
            &&& window_wf(s, e)
            &&& (status == ZoomerEvent::SetBoth ==> e - s == end@ - start@)
        }),
{
}

/// A handle or bar grabbed at a pointer position reports, for a move to that
/// same position, the window that was committed when it was grabbed.
pub proof fn lemma_zoomer_grab_keeps_window(
    status: ZoomerEvent,
    bounds: BoundingBox,
    cursor: Vec2,
    range: RangeInclusive<Scalar>,
)
    requires
        status != ZoomerEvent::FinishSet,
        window_wf(range@.start@, range@.end@),
    ensures
        ({
            let grabbed = Zoomer {
                status,
                offset: Zoomer::grab_offset(status, bounds, cursor, range),
            };
            let report = grabbed.reported(
                WindowEvent::MouseMove(cursor.x, cursor.y),
                bounds,
                range,
            );
            report matches Some(change) && window_after(range@.start@, range@.end@, change) == (
                range@.start@,
                range@.end@,
            )
        }),
{
}

} // verus!
