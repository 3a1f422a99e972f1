use homotopy::fixed::UNIT;
use homotopy::{
    check, check2, CubicBezier, Dirac, Fixed, Homotopy, Inverse, Lerp, Linear, QuadraticBezier,
    Scalar, Square,
};

fn fx(units: i64, sixteenths: i64) -> Fixed {
    Fixed(units * UNIT + sixteenths * (UNIT / 16))
}

#[test]
fn fixed_constants_and_complement() {
    assert_eq!(Fixed::zero(), Fixed(0));
    assert_eq!(Fixed::one(), Fixed(65536));
    assert_eq!(Fixed::half(), Fixed(32768));
    assert!(Fixed(0).is_zero());
    assert!(!Fixed(1).is_zero());
    assert_eq!(Fixed(16384).complement(), Fixed(49152));
    assert_eq!(Fixed(-65536).complement(), Fixed(131072));
    assert_eq!(Fixed(i64::MIN).complement(), Fixed(65536i64.wrapping_sub(i64::MIN)));
}

#[test]
fn fixed_scale_rounds_toward_zero_and_plus_wraps() {
    assert_eq!(fx(3, 0).scale(fx(0, 8)), fx(1, 8));
    assert_eq!(Fixed(3).scale(Fixed(32768)), Fixed(1));
    assert_eq!(Fixed(-3).scale(Fixed(32768)), Fixed(-1));
    assert_eq!(Fixed(i64::MAX).plus(Fixed(1)), Fixed(i64::MIN));
    assert_eq!(Fixed(i64::MAX).scale(Fixed::one()), Fixed(i64::MAX));
}

#[test]
fn fixed_lerp_is_exact() {
    let a = Lerp(fx(3, 0), fx(10, 0));
    assert_eq!(a.h((), fx(0, 0)), fx(3, 0));
    assert_eq!(a.h((), fx(0, 8)), fx(6, 8));
    assert_eq!(a.h((), fx(1, 0)), fx(10, 0));
    assert!(check(&a, ()));
    assert!(check(&Inverse(&a), ()));
}

#[test]
fn fixed_beziers_and_square() {
    let q = QuadraticBezier::from_linear(fx(2, 0), fx(6, 0));
    assert_eq!((q.0, q.1, q.2), (fx(2, 0), fx(4, 0), fx(6, 0)));
    assert_eq!(q.h((), fx(0, 4)), fx(3, 0));
    let c = CubicBezier::from_quadratic(fx(0, 0), fx(4, 0), fx(0, 0));
    assert_eq!(c.h((), fx(0, 8)), QuadraticBezier(fx(0, 0), fx(4, 0), fx(0, 0)).h((), fx(0, 8)));
    let sq = Square::new(Lerp(fx(1, 0), fx(5, 0)), Lerp(fx(11, 0), fx(15, 0)));
    assert!(check2(&sq, ((), ())));
    assert_eq!(sq.diagonal().h(((), ()), fx(0, 8)), (fx(3, 0), fx(13, 0)));
}

#[test]
fn fixed_dirac() {
    assert_eq!(Dirac.h((), Fixed(0)), Fixed::one());
    assert_eq!(Dirac.h((), Fixed(1)), Fixed::zero());
    assert!(check::<_, _, Fixed>(&Dirac, ()));
}
