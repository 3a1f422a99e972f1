use homotopy::compose;
use homotopy::{
    check, check2, check3, Cube, CubicBezier, Dirac, DiracFrom, Future, Homotopy, Id, Inverse,
    Left, LeftRight, Lerp, Linear, Past, PastFuture, QuadraticBezier, Right, Scalar, Square, Top,
    TopBottom,
};

/// A real number for parameters and values, with the arithmetic of `f64`.
///
/// The `spec_` functions state what each operation computes; ordinary code never calls them.
#[derive(Copy, Clone, Debug, PartialEq)]
struct N(f64);

impl Scalar for N {
    fn spec_zero() -> N {
        N(0.0)
    }

    fn spec_one() -> N {
        N(1.0)
    }

    fn spec_half() -> N {
        N(0.5)
    }

    fn spec_complement(self) -> N {
        N(1.0 - self.0)
    }

    fn zero() -> N {
        N(0.0)
    }

    fn one() -> N {
        N(1.0)
    }

    fn half() -> N {
        N(0.5)
    }

    fn is_zero(&self) -> bool {
        self.0 == 0.0
    }

    fn complement(&self) -> N {
        N(1.0 - self.0)
    }
}

impl Linear for N {
    type Param = N;

    fn spec_scale(self, s: N) -> N {
        N(self.0 * s.0)
    }

    fn spec_plus(self, other: N) -> N {
        N(self.0 + other.0)
    }

    fn scale(self, s: N) -> N {
        N(self.0 * s.0)
    }

    fn plus(self, other: N) -> N {
        N(self.0 + other.0)
    }
}

#[test]
fn lerp_scenario_values() {
    let a = Lerp(N(3.0), N(10.0));
    assert_eq!(a.h((), N(0.0)), N(3.0));
    assert_eq!(a.h((), N(0.5)), N(6.5));
    assert_eq!(a.h((), N(1.0)), N(10.0));
    assert_eq!(a.h((), N(2.0)), N(17.0));
    assert_eq!(Homotopy::<(), N>::f(&a, ()), N(3.0));
    assert_eq!(Homotopy::<(), N>::g(&a, ()), N(10.0));
}

#[test]
fn dirac_scenario_values() {
    assert_eq!(Dirac.h((), N(0.0)), N(1.0));
    assert_eq!(Dirac.h((), N(0.3)), N(0.0));
    assert_eq!(Dirac.h((), N(1.0)), N(0.0));
    assert_eq!(Homotopy::<(), N>::f(&Dirac, ()), N(1.0));
    assert_eq!(Homotopy::<(), N>::g(&Dirac, ()), N(0.0));
}

#[test]
fn dirac_from_picks_branch() {
    let d = DiracFrom::new(|x: i32| x * 10, |x: i32| x + 1);
    assert_eq!(d.h(4, N(0.0)), 40);
    assert_eq!(d.h(4, N(0.5)), 5);
    assert_eq!(d.h(4, N(1.0)), 5);
    assert_eq!(Homotopy::<i32, N>::f(&d, 4), 40);
    assert_eq!(Homotopy::<i32, N>::g(&d, 4), 5);
}

#[test]
fn square_diagonal_at_half() {
    let c = Square::new(Lerp(N(1.0), N(5.0)), Lerp(N(11.0), N(15.0)));
    let unit = ((), ());
    assert_eq!(c.diagonal().h(unit, N(0.5)), (N(3.0), N(13.0)));
    assert_eq!(c.h(unit, [N(0.5), N(0.5)]), (N(3.0), N(13.0)));
    assert_eq!(c.h(unit, [N(0.0), N(1.0)]), (N(1.0), N(15.0)));
}

#[test]
fn square_faces_values() {
    let c = Square::new(Lerp(N(1.0), N(5.0)), Lerp(N(11.0), N(15.0)));
    let unit = ((), ());
    let left = Left(&c);
    assert_eq!(Homotopy::<_, N>::f(&left, unit), (N(1.0), N(11.0)));
    assert_eq!(Homotopy::<_, N>::g(&left, unit), (N(1.0), N(15.0)));
    let right = Right(&c);
    assert_eq!(Homotopy::<_, N>::f(&right, unit), (N(5.0), N(11.0)));
    assert_eq!(right.h(unit, N(0.5)), (N(5.0), N(13.0)));
    let top = Top(&c);
    assert_eq!(Homotopy::<_, N>::g(&top, unit), (N(5.0), N(11.0)));
    assert_eq!(top.h(unit, N(0.5)), (N(3.0), N(11.0)));
    for face_ok in [
        check::<_, _, N>(&left, unit),
        check::<_, _, N>(&right, unit),
        check::<_, _, N>(&top, unit),
        check::<_, _, N>(&c.bottom(), unit),
    ] {
        assert!(face_ok);
    }
}

#[test]
fn cross_sections_values() {
    let c = Square::new(Lerp(N(1.0), N(5.0)), Lerp(N(11.0), N(15.0)));
    let unit = ((), ());
    let lr = LeftRight(&c, N(0.5));
    assert_eq!(Homotopy::<_, N>::f(&lr, unit), (N(3.0), N(11.0)));
    assert_eq!(Homotopy::<_, N>::g(&lr, unit), (N(3.0), N(15.0)));
    let tb = TopBottom(&c, N(0.5));
    assert_eq!(Homotopy::<_, N>::f(&tb, unit), (N(1.0), N(13.0)));
    assert_eq!(Homotopy::<_, N>::g(&tb, unit), (N(5.0), N(13.0)));
}

#[test]
fn inverse_swaps_and_reverses() {
    let a = Lerp(N(2.0), N(4.0));
    let b = Inverse(&a);
    assert_eq!(Homotopy::<(), N>::f(&b, ()), N(4.0));
    assert_eq!(Homotopy::<(), N>::g(&b, ()), N(2.0));
    assert_eq!(b.h((), N(0.25)), N(3.5));
    assert!(check::<_, _, N>(&b, ()));
}

#[test]
fn inverse_twice_matches_original() {
    let a = Lerp(N(2.0), N(4.0));
    let b = Inverse(Inverse(&a));
    for s in [0.0, 0.25, 0.5, 0.75, 1.0] {
        assert_eq!(b.h((), N(s)), a.h((), N(s)));
    }
    assert_eq!(Homotopy::<(), N>::f(&b, ()), N(2.0));
    assert_eq!(Homotopy::<(), N>::g(&b, ()), N(4.0));
}

#[test]
fn cubic_from_quadratic_equals_quadratic_everywhere() {
    let cb = CubicBezier::from(QuadraticBezier(N(1.0), N(4.0), N(2.0)));
    assert_eq!((cb.0, cb.1, cb.2, cb.3), (N(1.0), N(4.0), N(4.0), N(2.0)));
    let qb = QuadraticBezier(N(1.0), N(4.0), N(2.0));
    for s in [0.0, 0.125, 0.5, 0.875, 1.0, 1.5] {
        assert_eq!(cb.h((), N(s)), qb.h((), N(s)));
    }
}

#[test]
fn quadratic_from_linear_has_midpoint_control() {
    let qb = QuadraticBezier::from_linear(N(2.0), N(6.0));
    assert_eq!((qb.0, qb.1, qb.2), (N(2.0), N(4.0), N(6.0)));
    let from_lerp = QuadraticBezier::from(Lerp(N(2.0), N(6.0)));
    assert_eq!((from_lerp.0, from_lerp.1, from_lerp.2), (N(2.0), N(4.0), N(6.0)));
    assert_eq!(qb.h((), N(0.0)), N(2.0));
    assert_eq!(qb.h((), N(1.0)), N(6.0));
    assert_eq!(qb.h((), N(0.5)), N(4.0));
}

#[test]
fn quadratic_and_cubic_bezier_formulas() {
    let qb = QuadraticBezier(N(0.0), N(4.0), N(0.0));
    assert_eq!(qb.h((), N(0.5)), N(2.0));
    let cb = CubicBezier(N(0.0), N(4.0), N(8.0), N(0.0));
    // lerp(lerp(0, 4, 0.5), lerp(8, 0, 0.5), 0.5) = lerp(2, 4, 0.5)
    assert_eq!(cb.h((), N(0.5)), N(3.0));
}

#[test]
fn compose_across_arities() {
    let a = Lerp(N(1.0), N(3.0));
    let b = Lerp(N(10.0), N(20.0));
    let pair = compose::Compose::<_, _, N, N>::new(a, Id);
    assert_eq!(pair.h((), [N(0.5), N(0.0)]), N(2.0));
    assert!(check2::<_, _, N>(&pair, ()));
    let sq = Square::new(a, b);
    let three = compose::Compose::<_, _, [N; 2], N>::new(&sq, Id);
    assert_eq!(three.h(((), ()), [N(1.0), N(0.5), N(0.0)]), (N(3.0), N(15.0)));
    assert!(check3::<_, _, N>(&three, ((), ())));
}

#[test]
fn four_parameter_faces_hold() {
    let sq = Square::new(Lerp(N(1.0), N(3.0)), Lerp(N(10.0), N(20.0)));
    let shift = Square::new(Id, Id);
    let four = compose::Compose::<_, _, [N; 2], [N; 2]>::new(&sq, shift);
    let unit = ((), ());
    assert_eq!(four.h(unit, [N(0.5), N(0.5), N(0.0), N(1.0)]), (N(2.0), N(15.0)));
    assert!(check3::<_, _, N>(&four.left(), unit));
    assert!(check3::<_, _, N>(&four.right(), unit));
    assert!(check3::<_, _, N>(&four.top(), unit));
    assert!(check3::<_, _, N>(&four.bottom(), unit));
    assert!(check3::<_, _, N>(&four.front(), unit));
    assert!(check3::<_, _, N>(&four.back(), unit));
    assert!(check3::<_, _, N>(&Past(&four), unit));
    assert!(check3::<_, _, N>(&Future(&four), unit));
    assert!(check3::<_, _, N>(&PastFuture(&four, N(0.5)), unit));
    assert!(check::<_, _, N>(&four.diagonal(), unit));
}

#[test]
fn cube_faces_and_sections() {
    let c = Cube::new(Lerp(N(1.0), N(2.0)), Lerp(N(3.0), N(4.0)), Lerp(N(5.0), N(6.0)));
    let unit = ((), (), ());
    assert_eq!(c.h(unit, [N(0.0), N(1.0), N(0.5)]), (N(1.0), N(4.0), N(5.5)));
    let front = c.front();
    assert_eq!(Homotopy::<_, [N; 2]>::g(&front, unit), (N(2.0), N(4.0), N(5.0)));
    let back = c.back();
    assert_eq!(Homotopy::<_, [N; 2]>::f(&back, unit), (N(1.0), N(3.0), N(6.0)));
    assert!(check2::<_, _, N>(&front, unit));
    assert!(check2::<_, _, N>(&back, unit));
}

#[test]
fn as_vec_converts_pairs_to_arrays() {
    let sq = Square::new(Lerp(N(0.0), N(1.0)), Lerp(N(0.0), N(2.0)));
    let as_vec = sq.as_vec();
    assert_eq!(as_vec.h([(), ()], [N(0.5), N(0.25)]), [N(0.5), N(0.5)]);
    assert_eq!(Homotopy::<_, [N; 2]>::f(&as_vec, [(), ()]), [N(0.0), N(0.0)]);
    assert_eq!(Homotopy::<_, [N; 2]>::g(&as_vec, [(), ()]), [N(1.0), N(2.0)]);
}

#[test]
fn check_rejects_mismatched_ends() {
    // `check` compares `h` at the ends with `f` and `g`: a Dirac From over values
    // where `==` never holds is reported as failing.
    let nan = DiracFrom::new(|()| N(f64::NAN), |()| N(f64::NAN));
    assert!(!check::<_, _, N>(&nan, ()));
}
