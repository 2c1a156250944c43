use driftwm::geometry::IntPoint;
use driftwm::scalar::Scalar;

fn s(v: f64) -> Scalar {
    Scalar { bits: v.to_bits() }
}

fn samples() -> Vec<f64> {
    vec![
        f64::NEG_INFINITY,
        f64::MIN,
        -1.5,
        -1.0,
        -f64::MIN_POSITIVE,
        -5e-324,
        -0.0,
        0.0,
        5e-324,
        f64::MIN_POSITIVE,
        0.1,
        1.0,
        1.0000000000000002,
        1.5,
        1920.0,
        f64::MAX,
        f64::INFINITY,
        f64::NAN,
        -f64::NAN,
    ]
}

#[test]
fn comparisons_agree_with_doubles() {
    for a in samples() {
        assert_eq!(s(a).is_nan(), a.is_nan());
        for b in samples() {
            assert_eq!(s(a).less_than(s(b)), a < b, "{a} < {b}");
            assert_eq!(s(a).at_most(s(b)), a <= b, "{a} <= {b}");
            assert_eq!(s(a).equals(s(b)), a == b, "{a} == {b}");
        }
    }
}

#[test]
fn clamp_agrees_with_doubles() {
    for a in samples() {
        for (min, max) in [(0.0, 0.0), (-1.0, 1.5), (0.1, f64::INFINITY), (f64::MIN, -1.0)] {
            let got = f64::from_bits(s(a).clamp(s(min), s(max)).bits);
            let want = a.clamp(min, max);
            assert!(got == want || (got.is_nan() && want.is_nan()), "{a} in {min}..{max}");
        }
    }
}

#[test]
fn clamp_keeps_bounds_and_is_idempotent() {
    let once = s(-7.0).clamp(s(0.0), s(1919.0));
    assert_eq!(once, s(0.0));
    assert_eq!(once.clamp(s(0.0), s(1919.0)), once);
    assert_eq!(s(2000.5).clamp(s(0.0), s(1919.0)), s(1919.0));
    assert_eq!(s(12.25).clamp(s(0.0), s(1919.0)), s(12.25));
}

#[test]
fn order_is_total_and_transitive_on_numbers() {
    let (a, b, c) = (s(-3.0), s(-0.0), s(2.0));
    assert!(a.less_than(b) && b.less_than(c) && a.less_than(c));
    assert!(!b.less_than(a) && !c.less_than(a));
    assert!(b.equals(s(0.0)) && b != s(0.0));
}

#[test]
fn zero_is_positive_zero() {
    assert_eq!(Scalar::zero(), s(0.0));
}

#[test]
fn points_add_and_subtract() {
    let p = IntPoint { x: 10, y: -4 };
    let q = IntPoint { x: 3, y: 6 };
    assert_eq!(p.plus(q), IntPoint { x: 13, y: 2 });
    assert_eq!(p.minus(q), IntPoint { x: 7, y: -10 });
    assert_eq!(p.plus(q).minus(q), p);
}

#[test]
fn points_saturate() {
    let p = IntPoint { x: i32::MAX - 1, y: i32::MIN + 1 };
    let q = IntPoint { x: 5, y: -5 };
    assert_eq!(p.plus(q), IntPoint { x: i32::MAX, y: i32::MIN });
    assert_eq!(
        IntPoint { x: i32::MIN, y: i32::MAX }.minus(q),
        IntPoint { x: i32::MIN, y: i32::MAX }
    );
    assert_eq!(
        IntPoint { x: 0, y: 0 }.minus(IntPoint { x: i32::MIN, y: i32::MIN }),
        IntPoint { x: i32::MAX, y: i32::MAX }
    );
}
