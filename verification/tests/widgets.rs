use lily::bounding_box::BoundingBox;
use lily::interaction::{
    request_for, InteractionState, MouseButton, PointerRequest, WindowEvent,
};
use lily::scalar::Scalar;
use lily::slider::{DragSlider, InternalEvent, SliderBar};
use lily::vec2::Vec2;
use lily::xy_pad::{Offset, XyPad};
use lily::zoomer::{Zoomer, ZoomerChange, ZoomerEvent, SMALLEST_RANGE};

fn sc(v: f64) -> Scalar {
    Scalar::from_raw((v * 1_000_000.0).round() as i64)
}

fn vec2(x: f64, y: f64) -> Vec2 {
    Vec2::new(sc(x), sc(y))
}

fn square() -> BoundingBox {
    BoundingBox { x: sc(100.0), y: sc(100.0), w: sc(100.0), h: sc(100.0) }
}

fn tall() -> BoundingBox {
    BoundingBox { x: sc(0.0), y: sc(0.0), w: sc(24.0), h: sc(200.0) }
}

fn wide() -> BoundingBox {
    BoundingBox { x: sc(0.0), y: sc(0.0), w: sc(200.0), h: sc(24.0) }
}

fn down() -> WindowEvent {
    WindowEvent::MouseDown(MouseButton::Left)
}

fn up() -> WindowEvent {
    WindowEvent::MouseUp(MouseButton::Left)
}

fn moved(x: f64, y: f64) -> WindowEvent {
    WindowEvent::MouseMove(sc(x), sc(y))
}

#[test]
fn states_follow_the_pointer() {
    let s = InteractionState::Idle;
    let s = s.step(&WindowEvent::MouseEnter, true);
    assert_eq!(s, InteractionState::Hovering);
    assert_eq!(s.step(&WindowEvent::MouseLeave, false), InteractionState::Idle);
    let d = s.step(&down(), true);
    assert_eq!(d, InteractionState::Dragging);
    assert_eq!(d.step(&WindowEvent::MouseLeave, false), InteractionState::Dragging);
    assert_eq!(d.step(&WindowEvent::MouseEnter, true), InteractionState::Dragging);
    assert_eq!(d.step(&WindowEvent::MouseUp(MouseButton::Right), true), InteractionState::Dragging);
    assert_eq!(d.step(&up(), true), InteractionState::Hovering);
    assert_eq!(d.step(&up(), false), InteractionState::Idle);
    assert_eq!(InteractionState::Idle.step(&down(), true), InteractionState::Idle);
    assert_eq!(s.step(&WindowEvent::MouseDown(MouseButton::Middle), true), InteractionState::Hovering);
    assert_eq!(s.step(&WindowEvent::Other, true), InteractionState::Hovering);
}

#[test]
fn left_button_asks_for_the_pointer() {
    assert_eq!(request_for(&down()), PointerRequest::Capture);
    assert_eq!(request_for(&up()), PointerRequest::Release);
    assert_eq!(request_for(&WindowEvent::MouseDown(MouseButton::Right)), PointerRequest::Keep);
    assert_eq!(request_for(&moved(1.0, 1.0)), PointerRequest::Keep);
}

#[test]
fn pad_drag_without_motion_keeps_the_point() {
    let mut pad = XyPad::new();
    let b = square();
    let cp = vec2(130.0, 170.0);
    let v0 = vec2(0.25, -0.5);
    pad.event(&WindowEvent::MouseEnter, &b, cp, v0);
    let r = pad.event(&down(), &b, cp, v0);
    assert_eq!(r.pointer, PointerRequest::Capture);
    assert_eq!(r.changed, None);
    assert_eq!(pad.state, InteractionState::Dragging);
    assert_eq!(pad.offset, Offset { x: 250_000 - (-400_000), y: -500_000 - 400_000 });
    let r = pad.event(&moved(130.0, 170.0), &b, cp, v0);
    assert_eq!(r.changed, Some(v0));
    assert_eq!(r.pointer, PointerRequest::Keep);
}

#[test]
fn pad_follows_the_pointer_and_stops_at_the_edge() {
    let mut pad = XyPad::new();
    let b = square();
    let cp = vec2(150.0, 150.0);
    let v0 = vec2(0.0, 0.0);
    pad.event(&WindowEvent::MouseEnter, &b, cp, v0);
    pad.event(&down(), &b, cp, v0);
    let r = pad.event(&moved(175.0, 125.0), &b, cp, v0);
    assert_eq!(r.changed, Some(vec2(0.5, -0.5)));
    let r = pad.event(&moved(1000.0, -1000.0), &b, cp, v0);
    assert_eq!(r.changed, Some(vec2(1.0, -1.0)));
    let r = pad.event(&up(), &b, vec2(1000.0, -1000.0), v0);
    assert_eq!(r.pointer, PointerRequest::Release);
    assert_eq!(pad.state, InteractionState::Idle);
    assert_eq!(pad.offset, Offset { x: 0, y: 0 });
    let r = pad.event(&moved(175.0, 125.0), &b, cp, v0);
    assert_eq!(r.changed, None);
}

#[test]
fn pad_release_inside_hovers() {
    let mut pad = XyPad::new();
    let b = square();
    let cp = vec2(150.0, 150.0);
    pad.event(&WindowEvent::MouseEnter, &b, cp, vec2(0.0, 0.0));
    pad.event(&down(), &b, cp, vec2(0.0, 0.0));
    pad.event(&WindowEvent::MouseLeave, &b, cp, vec2(0.0, 0.0));
    assert_eq!(pad.state, InteractionState::Dragging);
    pad.event(&up(), &b, cp, vec2(0.0, 0.0));
    assert_eq!(pad.state, InteractionState::Hovering);
}

#[test]
fn pad_press_while_idle_starts_no_drag() {
    let mut pad = XyPad::new();
    let b = square();
    let r = pad.event(&down(), &b, vec2(150.0, 150.0), vec2(0.3, 0.3));
    assert_eq!(r.pointer, PointerRequest::Capture);
    assert_eq!(pad.state, InteractionState::Idle);
    assert_eq!(pad.offset, Offset { x: 0, y: 0 });
}

#[test]
fn vertical_slider_reads_the_vertical_axis() {
    let mut bar = SliderBar::new(sc(1.0)..=sc(-1.0));
    let b = tall();
    let cp = vec2(12.0, 100.0);
    let v0 = sc(0.0);
    bar.event(&WindowEvent::MouseEnter, &b, cp, v0);
    bar.event(&down(), &b, cp, v0);
    assert_eq!(bar.offset, 0);
    let r = bar.event(&moved(500.0, 150.0), &b, cp, v0);
    assert_eq!(r.changed, Some(sc(0.5)));
    let r = bar.event(&moved(12.0, 400.0), &b, cp, v0);
    assert_eq!(r.changed, Some(sc(1.0)));
    let r = bar.event(&moved(12.0, -400.0), &b, cp, v0);
    assert_eq!(r.changed, Some(sc(-1.0)));
}

#[test]
fn horizontal_slider_keeps_the_grab_offset() {
    let mut bar = SliderBar::new(sc(0.0)..=sc(1.0));
    let b = wide();
    let cp = vec2(150.0, 12.0);
    let v0 = sc(0.25);
    bar.event(&WindowEvent::MouseEnter, &b, cp, v0);
    bar.event(&down(), &b, cp, v0);
    assert_eq!(bar.offset, 250_000 - 500_000);
    let r = bar.event(&moved(150.0, 12.0), &b, cp, v0);
    assert_eq!(r.changed, Some(v0));
    let r = bar.event(&moved(170.0, 90.0), &b, cp, v0);
    assert_eq!(r.changed, Some(sc(0.45)));
    let r = bar.event(&moved(0.0, 12.0), &b, cp, v0);
    assert_eq!(r.changed, Some(sc(0.0)));
    bar.event(&up(), &b, cp, v0);
    assert_eq!(bar.offset, 0);
    assert_eq!(bar.state, InteractionState::Hovering);
}

#[test]
fn square_slider_is_horizontal() {
    let mut bar = SliderBar::new(sc(-1.0)..=sc(1.0));
    let b = square();
    let cp = vec2(150.0, 150.0);
    bar.event(&WindowEvent::MouseEnter, &b, cp, sc(0.0));
    bar.event(&down(), &b, cp, sc(0.0));
    let r = bar.event(&moved(175.0, 110.0), &b, cp, sc(0.0));
    assert_eq!(r.changed, Some(sc(0.5)));
}

#[test]
fn slider_hands_the_value_on() {
    let slider = DragSlider::new(sc(0.0)..=sc(1.0));
    assert_eq!(slider.bar.state, InteractionState::Idle);
    let mut bar = slider.bar;
    let b = wide();
    let cp = vec2(100.0, 12.0);
    bar.event(&WindowEvent::MouseEnter, &b, cp, sc(0.5));
    bar.event(&down(), &b, cp, sc(0.5));
    let r = bar.event(&moved(120.0, 12.0), &b, cp, sc(0.5));
    let message = DragSlider::bar_event(&r);
    assert_eq!(message, Some(InternalEvent::Changing(sc(0.7))));
    let slider = DragSlider { bar };
    assert_eq!(slider.event(&message.unwrap()), sc(0.7));
    let idle = slider.bar.state;
    assert_eq!(idle, InteractionState::Dragging);
    let none = lily::interaction::Response { pointer: PointerRequest::Keep, changed: None };
    assert_eq!(DragSlider::bar_event(&none), None);
}

#[test]
fn zoomer_handles_keep_their_distance() {
    assert_eq!(SMALLEST_RANGE, 100_000);
    let b = wide();
    let range = sc(0.2)..=sc(0.6);
    let mut z = Zoomer::new();
    z.set_status(ZoomerEvent::SetStart, &b, vec2(40.0, 12.0), &range);
    assert_eq!(z.offset, 0);
    let r = z.event(&moved(60.0, 12.0), &b, &range);
    assert_eq!(r.changed, Some(ZoomerChange::Start(sc(0.3))));
    let r = z.event(&moved(190.0, 12.0), &b, &range);
    assert_eq!(r.changed, Some(ZoomerChange::Start(sc(0.5))));
    let r = z.event(&moved(-50.0, 12.0), &b, &range);
    assert_eq!(r.changed, Some(ZoomerChange::Start(sc(0.0))));
    z.set_status(ZoomerEvent::SetEnd, &b, vec2(120.0, 12.0), &range);
    let r = z.event(&moved(0.0, 12.0), &b, &range);
    assert_eq!(r.changed, Some(ZoomerChange::End(sc(0.3))));
    let r = z.event(&moved(500.0, 12.0), &b, &range);
    assert_eq!(r.changed, Some(ZoomerChange::End(sc(1.0))));
    let r = z.event(&moved(160.0, 12.0), &b, &range);
    assert_eq!(r.changed, Some(ZoomerChange::End(sc(0.8))));
}

#[test]
fn zoomer_bar_moves_the_window() {
    let b = wide();
    let range = sc(0.2)..=sc(0.6);
    let mut z = Zoomer::new();
    z.set_status(ZoomerEvent::SetBoth, &b, vec2(80.0, 12.0), &range);
    assert_eq!(z.offset, 200_000 - 400_000);
    let r = z.event(&moved(80.0, 12.0), &b, &range);
    assert_eq!(r.changed, Some(ZoomerChange::Both(sc(0.2), sc(0.6))));
    let r = z.event(&moved(100.0, 12.0), &b, &range);
    assert_eq!(r.changed, Some(ZoomerChange::Both(sc(0.3), sc(0.7))));
    let r = z.event(&moved(1000.0, 12.0), &b, &range);
    assert_eq!(r.changed, Some(ZoomerChange::Both(sc(0.6), sc(1.0))));
    let r = z.event(&moved(-1000.0, 12.0), &b, &range);
    assert_eq!(r.changed, Some(ZoomerChange::Both(sc(0.0), sc(0.4))));
}

#[test]
fn zoomer_release_ends_the_drag() {
    let b = wide();
    let range = sc(0.2)..=sc(0.6);
    let mut z = Zoomer::new();
    let r = z.event(&moved(60.0, 12.0), &b, &range);
    assert_eq!(r.changed, None);
    let r = z.event(&down(), &b, &range);
    assert_eq!(r.pointer, PointerRequest::Capture);
    z.set_status(ZoomerEvent::SetStart, &b, vec2(50.0, 12.0), &range);
    assert_eq!(z.status, ZoomerEvent::SetStart);
    assert_eq!(z.offset, 200_000 - 250_000);
    let r = z.event(&moved(50.0, 12.0), &b, &range);
    assert_eq!(r.changed, Some(ZoomerChange::Start(sc(0.2))));
    let r = z.event(&up(), &b, &range);
    assert_eq!(r.pointer, PointerRequest::Release);
    assert_eq!(z.status, ZoomerEvent::FinishSet);
    assert_eq!(z.offset, 0);
    let r = z.event(&moved(60.0, 12.0), &b, &range);
    assert_eq!(r.changed, None);
    z.set_status(ZoomerEvent::FinishSet, &b, vec2(50.0, 12.0), &range);
    assert_eq!(z.offset, 0);
}
