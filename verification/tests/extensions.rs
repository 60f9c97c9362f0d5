use lily::extensions::{clamp_to_range, RangeExt};
use lily::scalar::Scalar;

fn s(v: f64) -> Scalar {
    Scalar::from_raw((v * 1_000_000.0).round() as i64)
}

fn f(v: Scalar) -> f64 {
    v.raw() as f64 / 1_000_000.0
}

fn approx(a: f64, b: f64) -> bool {
    (a - b).abs() < 1.0e-6
}

#[test]
fn positive_range_width() {
    assert!(approx(f((s(0.2)..=s(0.8)).width()), 0.6));
}

#[test]
fn negative_range_width() {
    assert!(approx(f((s(-0.2)..=s(0.2)).width()), 0.4));
}

#[test]
fn get_mapped() {
    let tests = [
        (s(-1.0)..=s(1.0), s(0.0)),
        (s(0.0)..=s(1.0), s(0.5)),
        (s(-1.0)..=s(0.0), s(-0.5)),
        (s(0.0)..=s(5.0), s(2.5)),
        (s(-5.0)..=s(0.0), s(-2.5)),
        (s(2.5)..=s(-2.5), s(0.0)),
    ];
    for (range, value) in tests {
        let mapped = range.map(value);
        assert!(approx(f(mapped), 0.5));
    }
}

#[test]
fn width_is_exact_in_millionths() {
    assert_eq!((s(0.2)..=s(0.8)).width().raw(), 600_000);
    assert_eq!((s(0.8)..=s(0.2)).width().raw(), -600_000);
}

#[test]
fn width_saturates() {
    let r = Scalar::from_raw(i64::MIN)..=Scalar::from_raw(i64::MAX);
    assert_eq!(r.width().raw(), i64::MAX);
}

#[test]
fn inverted_range_clamp() {
    let r = s(1.0)..=s(0.0);
    assert_eq!(clamp_to_range(&r, s(1.5)), s(1.0));
    assert_eq!(clamp_to_range(&r, s(-0.5)), s(0.0));
    assert_eq!(clamp_to_range(&r, s(0.25)), s(0.25));
}
