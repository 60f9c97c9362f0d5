//! The pointer events a widget reacts to and the states it moves through.
//!
//! A widget is idle, hovered or dragged. The pointer entering and leaving
//! moves it between idle and hovered; a press of the left button while
//! hovered starts a drag; the release of the left button ends whatever was
//! going on, and the widget is hovered again if the pointer was released over
//! it. While a drag lasts, entering and leaving change nothing.

use vstd::prelude::*;
use crate::scalar::{clamp_int, Scalar};

verus! {

/// A button of the pointing device.
#[derive(Clone, Copy, Debug, PartialEq, Eq, Structural)]
pub enum MouseButton {
    Left,
    Right,
    Middle,
    Other,
}

/// An event that the host delivers to a widget. Positions are absolute, in
/// the pixel space of the host.
#[derive(Clone, Copy, Debug, PartialEq, Eq, Structural)]
pub enum WindowEvent {
    MouseEnter,
    MouseLeave,
    MouseDown(MouseButton),
    MouseUp(MouseButton),
    MouseMove(Scalar, Scalar),
    /// Any event that the widgets do not react to.
    Other,
}

/// What a widget is doing with the pointer.
#[derive(Clone, Copy, Debug, PartialEq, Eq, Structural)]
pub enum InteractionState {
    Idle,
    Hovering,
    Dragging,
}

/// What a widget asks of the host about pointer capture. While a widget holds
/// the capture, every move and release reaches it, wherever the pointer is.
#[derive(Clone, Copy, Debug, PartialEq, Eq, Structural)]
pub enum PointerRequest {
    Keep,
    Capture,
    Release,
}

/// What a widget hands back for one event: its request about pointer capture
/// and, if the event changed the value under control, the new value for the
/// owner's callback.
#[derive(Clone, Copy, Debug)]
pub struct Response<V> {
    pub pointer: PointerRequest,
    pub changed: Option<V>,
}

/// The request that goes with an event: the left button captures the pointer
/// when it goes down and releases it when it comes up.
pub open spec fn pointer_request(event: WindowEvent) -> PointerRequest {
    match event {
        WindowEvent::MouseDown(MouseButton::Left) => PointerRequest::Capture,
        WindowEvent::MouseUp(MouseButton::Left) => PointerRequest::Release,
        _ => PointerRequest::Keep,
    }
}

/// The request that goes with an event.
pub fn request_for(event: &WindowEvent) -> (request: PointerRequest)
    ensures
        request == pointer_request(*event),
{
    match event {
        WindowEvent::MouseDown(MouseButton::Left) => PointerRequest::Capture,
        WindowEvent::MouseUp(MouseButton::Left) => PointerRequest::Release,
        _ => PointerRequest::Keep,
    }
}

impl InteractionState {
    /// The state after `event`; `inside` says whether the pointer is over
    /// the widget, which decides where a release leads.
    pub open spec fn after(self, event: WindowEvent, inside: bool) -> InteractionState {
        match event {
            WindowEvent::MouseEnter => if self is Dragging {
                self
            } else {
                InteractionState::Hovering
            },
            WindowEvent::MouseLeave => if self is Dragging {
                self
            } else {
                InteractionState::Idle
            },
            WindowEvent::MouseDown(MouseButton::Left) => if self is Hovering {
                InteractionState::Dragging
            } else {
                self
            },
            WindowEvent::MouseUp(MouseButton::Left) => if inside {
                InteractionState::Hovering
            } else {
                InteractionState::Idle
            },
            _ => self,
        }
    }

    /// Whether `event` starts a drag from this state.
    pub open spec fn starts_drag(self, event: WindowEvent) -> bool {
        self is Hovering && event == WindowEvent::MouseDown(MouseButton::Left)
    }

    /// Whether `event` is a move of the pointer during a drag.
    pub open spec fn drags(self, event: WindowEvent) -> bool {
        self is Dragging && event is MouseMove
    }

    /// The state after `event`.
    pub fn step(self, event: &WindowEvent, inside: bool) -> (next: InteractionState)
        ensures
            next == self.after(*event, inside),
    {
        match event {
            WindowEvent::MouseEnter => match self {
                InteractionState::Dragging => self,
                _ => InteractionState::Hovering,
            },
            WindowEvent::MouseLeave => match self {
                InteractionState::Dragging => self,
                _ => InteractionState::Idle,
            },
            WindowEvent::MouseDown(MouseButton::Left) => match self {
                InteractionState::Hovering => InteractionState::Dragging,
                _ => self,
            },
            WindowEvent::MouseUp(MouseButton::Left) => if inside {
                InteractionState::Hovering
            } else {
                InteractionState::Idle
            },
            _ => self,
        }
    }
}

/// Limits a wide intermediate result to the interval from `lo` to `hi`.
pub fn clamp_wide(v: i128, lo: i64, hi: i64) -> (r: i64)
    requires
        lo <= hi,
    ensures
        r as int == clamp_int(v as int, lo as int, hi as int),
{
    if v < lo as i128 {
        lo
    } else if v > hi as i128 {
        hi
    } else {
        v as i64
    }
}

/// A drag ends only with the release of the left button: entering, leaving,
/// moving and the other buttons leave a dragged widget dragged.
pub proof fn lemma_drag_lasts_until_release(event: WindowEvent, inside: bool)
    requires
        event != WindowEvent::MouseUp(MouseButton::Left),
    ensures
        InteractionState::Dragging.after(event, inside) == InteractionState::Dragging,
{
}

/// A drag starts only from the hovered state, and only with a press of the
/// left button.
pub proof fn lemma_drag_starts_with_press(
    state: InteractionState,
    event: WindowEvent,
    inside: bool,
)
    requires
        state != InteractionState::Dragging,
    ensures
        state.after(event, inside) == InteractionState::Dragging <==> state.starts_drag(event),
{
}

/// After the release of the left button the widget is hovered if the pointer
/// is over it and idle if it is not, whatever went before.
pub proof fn lemma_release_settles(state: InteractionState, inside: bool)
    ensures
        state.after(WindowEvent::MouseUp(MouseButton::Left), inside) == if inside {
            InteractionState::Hovering
        } else {
            InteractionState::Idle
        },
{
}

} // verus!
