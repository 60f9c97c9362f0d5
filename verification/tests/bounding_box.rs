use lily::bounding_box::{BoundingBox, BoundingBoxExt};
use lily::scalar::Scalar;
use lily::vec2::Vec2;

fn sc(v: f64) -> Scalar {
    Scalar::from_raw((v * 1_000_000.0).round() as i64)
}

fn vec2(x: f64, y: f64) -> Vec2 {
    Vec2::new(sc(x), sc(y))
}

fn splat(v: f64) -> Vec2 {
    Vec2::splat(sc(v))
}

fn rect() -> BoundingBox {
    BoundingBox { x: sc(100.0), y: sc(100.0), w: sc(100.0), h: sc(100.0) }
}

#[test]
fn get_map_unbounded() {
    let rect = rect();
    let cursor = vec2(300.0, 300.0);
    assert_eq!(rect.map_ui_point_unbounded(cursor, false), splat(2.0));
}

#[test]
fn get_map_unbounded_center() {
    let rect = rect();
    let cursor = vec2(250.0, 250.0);
    assert_eq!(rect.map_ui_point_unbounded(cursor, true), splat(2.0));
}

#[test]
fn get_mapped_ui_point() {
    let rect = rect();
    let cursor = vec2(150.0, 150.0);
    assert_eq!(rect.map_ui_point(cursor, false), splat(0.5));
}

#[test]
fn get_mapped_data_point() {
    let rect = rect();
    let data = splat(0.5);
    assert_eq!(rect.map_data_point(data, false), vec2(150.0, 150.0));
}

#[test]
fn get_mapped_ui_point_center() {
    let rect = rect();
    let cursor = vec2(150.0, 150.0);
    assert_eq!(rect.map_ui_point(cursor, true), splat(0.0));
}

#[test]
fn get_mapped_data_point_center() {
    let rect = rect();
    let data = splat(0.0);
    assert_eq!(rect.map_data_point(data, true), vec2(150.0, 150.0));
}

#[test]
fn contains_point_counts_edges() {
    let rect = rect();
    assert!(rect.contains_point(vec2(150.0, 150.0)));
    assert!(!rect.contains_point(vec2(250.0, 250.0)));
    assert!(rect.contains_point(vec2(100.0, 100.0)));
    assert!(rect.contains_point(vec2(200.0, 200.0)));
    assert!(!rect.contains_point(vec2(200.000001, 150.0)));
    assert!(!rect.contains_point(vec2(150.0, 99.999999)));
}

#[test]
fn bounded_map_moves_outside_points_to_the_edge() {
    let rect = rect();
    assert_eq!(rect.map_ui_point(vec2(300.0, 0.0), false), vec2(1.0, 0.0));
    assert_eq!(rect.map_ui_point(vec2(300.0, 0.0), true), vec2(1.0, -1.0));
}

#[test]
fn unbounded_map_goes_below_zero() {
    let rect = rect();
    assert_eq!(rect.map_ui_point_unbounded(vec2(50.0, 0.0), false), vec2(-0.5, -1.0));
    assert_eq!(rect.map_ui_point_unbounded(vec2(50.0, 0.0), true), vec2(-2.0, -3.0));
}

#[test]
fn quotient_rounds_down() {
    let r = BoundingBox { x: sc(0.0), y: sc(0.0), w: sc(3.0), h: sc(3.0) };
    let d = r.map_ui_point_unbounded(vec2(1.0, -1.0), false);
    assert_eq!(d.x.raw(), 333_333);
    assert_eq!(d.y.raw(), -333_334);
}

#[test]
fn round_trip_stays_within_the_stated_error() {
    let r = BoundingBox { x: sc(10.0), y: sc(-20.0), w: sc(333.0), h: sc(7.0) };
    for centered in [false, true] {
        for i in 1..333 {
            let p = Vec2::new(
                Scalar::from_raw(10_000_000 + i * 1_000_003 % 333_000_000),
                Scalar::from_raw(-20_000_000 + 1 + i * 20_011),
            );
            let back = r.map_data_point(r.map_ui_point(p, centered), centered);
            let dx = p.x.raw() - back.x.raw();
            let dy = p.y.raw() - back.y.raw();
            assert!(0 <= dx && dx <= 333 + 1);
            assert!(0 <= dy && dy <= 7 + 1);
        }
    }
}

#[test]
fn data_point_saturates() {
    let r = BoundingBox {
        x: Scalar::from_raw(i64::MAX),
        y: Scalar::from_raw(i64::MIN),
        w: sc(100.0),
        h: sc(100.0),
    };
    let ui = r.map_data_point(vec2(1.0, -1.0), false);
    assert_eq!(ui.x.raw(), i64::MAX);
    assert_eq!(ui.y.raw(), i64::MIN);
}

#[test]
fn data_point_maps_any_rectangle() {
    let r = BoundingBox { x: sc(5.0), y: sc(5.0), w: sc(-10.0), h: sc(0.0) };
    assert_eq!(r.map_data_point(vec2(0.5, 0.5), false), vec2(0.0, 5.0));
}
