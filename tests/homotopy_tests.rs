use homotopy::{
    check, check2, check3, Compose, Cube, CubicBezier, Dirac, DiracFrom, Homotopy, Id, Lerp,
    Linear, QuadraticBezier, Scalar, Square,
};

/// A real number for parameters and values, with the arithmetic of `f64`.
///
/// The `spec_` functions state what each operation computes; ordinary code never calls them.
#[derive(Copy, Clone, Debug, PartialEq)]
struct R(f64);

impl Scalar for R {
    fn spec_zero() -> R {
        R(0.0)
    }

    fn spec_one() -> R {
        R(1.0)
    }

    fn spec_half() -> R {
        R(0.5)
    }

    fn spec_complement(self) -> R {
        R(1.0 - self.0)
    }

    fn zero() -> R {
        R(0.0)
    }

    fn one() -> R {
        R(1.0)
    }

    fn half() -> R {
        R(0.5)
    }

    fn is_zero(&self) -> bool {
        self.0 == 0.0
    }

    fn complement(&self) -> R {
        R(1.0 - self.0)
    }
}

impl Linear for R {
    type Param = R;

    fn spec_scale(self, s: R) -> R {
        R(self.0 * s.0)
    }

    fn spec_plus(self, other: R) -> R {
        R(self.0 + other.0)
    }

    fn scale(self, s: R) -> R {
        R(self.0 * s.0)
    }

    fn plus(self, other: R) -> R {
        R(self.0 + other.0)
    }
}

#[test]
fn check_id() {
    assert!(check::<_, _, R>(&Id, 0.0 as f64));
    assert!(check::<_, _, R>(&Id, 1.0 as f64));
    assert!(check::<_, _, R>(&Id, true));
    assert!(check::<_, _, R>(&Id, false));
}

#[test]
fn check_dirac() {
    assert!(check::<_, _, R>(&Dirac, ()));
}

#[test]
fn check_dirac_from() {
    let ft = DiracFrom::new(|()| 1.0, |()| 0.0);
    assert!(check::<_, _, R>(&ft, ()));
}

#[test]
fn check_lerp() {
    let lerp = Lerp(R(1.2), R(1.3));
    assert!(check::<_, _, R>(&lerp, ()));
}

#[test]
fn check_quadratic_bezier() {
    let qb = QuadraticBezier(R(0.3), R(0.7), R(0.9));
    assert!(check::<_, _, R>(&qb, ()));
}

#[test]
fn check_cubic_bezier() {
    let cb = CubicBezier(R(0.3), R(0.7), R(0.8), R(0.9));
    assert!(check::<_, _, R>(&cb, ()));
}

#[test]
fn check_reduced_quadratic_bezier_equals_lerp() {
    let qb = QuadraticBezier::from_linear(R(0.0), R(1.0));
    let l = Lerp(R(0.0), R(1.0));
    let mut s = 0.0;
    loop {
        assert!((qb.h((), R(s)).0 - l.h((), R(s)).0).abs() < 0.000001);
        s += 0.1;
        if s > 1.0 {
            break;
        }
    }
}

#[test]
fn check_reduced_cubic_bezier_equals_quadratic_bezier() {
    let cb = CubicBezier::from_quadratic(R(0.0), R(0.3), R(0.9));
    let qb = QuadraticBezier(R(0.0), R(0.3), R(0.9));
    let mut s = 0.0;
    loop {
        assert_eq!(cb.h((), R(s)), qb.h((), R(s)));
        s += 0.1;
        if s > 1.0 {
            break;
        }
    }
}

#[test]
fn check_composition() {
    // Create a linear interpolation.
    let a = Lerp(R(3.0), R(10.0));
    assert_eq!(a.h((), R(0.0)), R(3.0));
    assert_eq!(a.h((), R(0.5)), R(6.5));
    assert_eq!(a.h((), R(1.0)), R(10.0));
    // Compose with a Dirac From that separates the start of the line
    // from the rest of the line.
    let b = DiracFrom::new(|x: R| R(x.0 - 2.0), |x: R| R(x.0 + 2.0));
    let c = Compose::new(a, b);
    assert!(check::<_, _, R>(&c, ()));
    assert_eq!(c.h((), R(0.0)), R(1.0));
    assert_eq!(c.h((), R(0.0000000000000001)), R(5.0));
    assert_eq!(c.h((), R(0.5)), R(8.5));
    assert_eq!(c.h((), R(1.0)), R(12.0));
}

#[test]
fn check_square() {
    let a = Lerp(R(1.0), R(5.0));
    let b = Lerp(R(11.0), R(15.0));
    let c = Square::new(a, b);
    let unit = ((), ());
    assert!(check2::<_, _, R>(&c, unit));
    assert!(check::<_, _, R>(&c.diagonal(), unit));
    assert!(check2::<_, _, R>(&c.as_vec(), [(); 2]));
    assert!(check::<_, _, R>(&c.left_right(R(0.5)), unit));
    assert!(check::<_, _, R>(&c.top_bottom(R(0.5)), unit));
}

#[test]
fn check_cube() {
    let a = Lerp(R(1.0), R(2.0));
    let b = Lerp(R(3.0), R(4.0));
    let c = Lerp(R(5.0), R(6.0));
    let c = Cube::new(a, b, c);
    let unit = ((), (), ());
    assert!(check3::<_, _, R>(&c, unit));
    assert!(check::<_, _, R>(&c.diagonal(), unit));
    assert!(check3::<_, _, R>(&c.as_vec(), [(); 3]));
    assert!(check2::<_, _, R>(&c.left_right(R(0.5)), unit));
    assert!(check2::<_, _, R>(&c.top_bottom(R(0.5)), unit));
    assert!(check2::<_, _, R>(&c.front_back(R(0.5)), unit));
}

#[test]
fn check_invert() {
    let a = Lerp(R(2.0), R(4.0));
    let b = a.inverse();
    assert!(check::<_, _, R>(&b, ()));
}
