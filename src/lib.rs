//! A library for homotopies: continuous maps between two functions, over one to four
//! parameters, with combinators that build them and recover their faces.
use vstd::prelude::*;

pub mod combinators;
pub mod compose;
pub mod fixed;
pub mod laws;
pub mod primitives;
pub mod scalar;
pub mod sides;

pub use combinators::{AsVec, Compose, Cube, Inverse, Square};
pub use fixed::Fixed;
pub use primitives::{CubicBezier, Dirac, DiracFrom, Id, Lerp, QuadraticBezier};
pub use scalar::{Linear, Scalar};
pub use sides::{
    Back, Bottom, Diagonal, Front, FrontBack, Future, Left, LeftRight, Past, PastFuture, Right,
    Top, TopBottom,
};

use vstd::laws_eq::obeys_concrete_eq;

verus! {

/// A continuous map between two functions `f` and `g`, parameterised by `S`:
/// a single scalar, or an array of scalars, one for each dimension.
///
/// The spec functions are the mathematical model of the three maps; each executable
/// method returns exactly what its model gives.
pub trait Homotopy<X, S>: Sized {
    /// The output type.
    type Y;

    /// The function being mapped from.
    spec fn spec_f(&self, x: X) -> Self::Y;

    /// The function being mapped to.
    spec fn spec_g(&self, x: X) -> Self::Y;

    /// The map between them.
    spec fn spec_h(&self, x: X, s: S) -> Self::Y;

    /// The function being mapped from.
    fn f(&self, x: X) -> (y: Self::Y)
        ensures
            y == self.spec_f(x),
    ;

    /// The function being mapped to.
    fn g(&self, x: X) -> (y: Self::Y)
        ensures
            y == self.spec_g(x),
    ;

    /// A continuous map such that `h(x, 0) == f(x)` and `h(x, 1) == g(x)`.
    fn h(&self, x: X, s: S) -> (y: Self::Y)
        ensures
            y == self.spec_h(x, s),
    ;

    /// Gets the inverse.
    fn inverse(&self) -> (r: Inverse<&Self>)
        ensures
            r.0 == self,
    {
        Inverse(self)
    }

    /// Gets the diagonal.
    fn diagonal(&self) -> (r: Diagonal<&Self, S>)
        ensures
            r.shape == self,
    {
        Diagonal::new(self)
    }

    /// Gets the left side.
    fn left(&self) -> (r: Left<&Self>)
        ensures
            r.0 == self,
    {
        Left(self)
    }

    /// Gets the right side.
    fn right(&self) -> (r: Right<&Self>)
        ensures
            r.0 == self,
    {
        Right(self)
    }

    /// Gets the top side.
    fn top(&self) -> (r: Top<&Self>)
        ensures
            r.0 == self,
    {
        Top(self)
    }

    /// Gets the bottom side.
    fn bottom(&self) -> (r: Bottom<&Self>)
        ensures
            r.0 == self,
    {
        Bottom(self)
    }

    /// Gets the front side.
    fn front(&self) -> (r: Front<&Self>)
        ensures
            r.0 == self,
    {
        Front(self)
    }

    /// Gets the back side.
    fn back(&self) -> (r: Back<&Self>)
        ensures
            r.0 == self,
    {
        Back(self)
    }

    /// Gets a left-right intersection, controlled by `s`.
    fn left_right<P>(&self, s: P) -> (r: LeftRight<&Self, P>)
        ensures
            r.0 == self,
            r.1 == s,
    {
        LeftRight(self, s)
    }

    /// Gets a top-bottom intersection, controlled by `s`.
    fn top_bottom<P>(&self, s: P) -> (r: TopBottom<&Self, P>)
        ensures
            r.0 == self,
            r.1 == s,
    {
        TopBottom(self, s)
    }

    /// Gets a front-back intersection, controlled by `s`.
    fn front_back<P>(&self, s: P) -> (r: FrontBack<&Self, P>)
        ensures
            r.0 == self,
            r.1 == s,
    {
        FrontBack(self, s)
    }

    /// Gets a converter to and from vectors.
    fn as_vec(&self) -> (r: AsVec<&Self>)
        ensures
            r.0 == self,
    {
        AsVec(self)
    }
}

impl<'a, X, S, T: Homotopy<X, S>> Homotopy<X, S> for &'a T {
    type Y = T::Y;

    open spec fn spec_f(&self, x: X) -> T::Y {
        (**self).spec_f(x)
    }

    open spec fn spec_g(&self, x: X) -> T::Y {
        (**self).spec_g(x)
    }

    open spec fn spec_h(&self, x: X, s: S) -> T::Y {
        (**self).spec_h(x, s)
    }

    fn f(&self, x: X) -> (y: T::Y) {
        (**self).f(x)
    }

    fn g(&self, x: X) -> (y: T::Y) {
        (**self).g(x)
    }

    fn h(&self, x: X, s: S) -> (y: T::Y) {
        (**self).h(x, s)
    }
}

/// `h` starts at `f(x)` and ends at `g(x)` on the one-parameter interval.
pub open spec fn is_homotopy_at<X, P: Scalar, H: Homotopy<X, P>>(h: H, x: X) -> bool {
    &&& h.spec_h(x, P::spec_zero()) == h.spec_f(x)
    &&& h.spec_h(x, P::spec_one()) == h.spec_g(x)
}

/// `h` is a one-parameter homotopy at every input.
pub open spec fn is_homotopy<X, P: Scalar, H: Homotopy<X, P>>(h: H) -> bool {
    forall|x: X| #[trigger] is_homotopy_at(h, x)
}

/// `h` starts at `f(x)` at the origin and ends at `g(x)` at the far corner of the
/// 2-parameter cube. Its sides then start and end as they should too (see `laws`).
pub open spec fn is_homotopy2_at<X, P: Scalar, H: Homotopy<X, [P; 2]>>(h: H, x: X) -> bool {
    &&& h.spec_h(x, [P::spec_zero(), P::spec_zero()]) == h.spec_f(x)
    &&& h.spec_h(x, [P::spec_one(), P::spec_one()]) == h.spec_g(x)
}

/// `h` is a 2-parameter homotopy at every input.
pub open spec fn is_homotopy2<X, P: Scalar, H: Homotopy<X, [P; 2]>>(h: H) -> bool {
    forall|x: X| #[trigger] is_homotopy2_at(h, x)
}

/// `h` starts at `f(x)` at the origin and ends at `g(x)` at the far corner of the
/// 3-parameter cube. Its sides then start and end as they should too (see `laws`).
pub open spec fn is_homotopy3_at<X, P: Scalar, H: Homotopy<X, [P; 3]>>(h: H, x: X) -> bool {
    &&& h.spec_h(x, [P::spec_zero(), P::spec_zero(), P::spec_zero()]) == h.spec_f(x)
    &&& h.spec_h(x, [P::spec_one(), P::spec_one(), P::spec_one()]) == h.spec_g(x)
}

/// `h` is a 3-parameter homotopy at every input.
pub open spec fn is_homotopy3<X, P: Scalar, H: Homotopy<X, [P; 3]>>(h: H) -> bool {
    forall|x: X| #[trigger] is_homotopy3_at(h, x)
}

/// `h` starts at `f(x)` at the origin and ends at `g(x)` at the far corner of the
/// 4-parameter cube. Its sides then start and end as they should too (see `laws`).
pub open spec fn is_homotopy4_at<X, P: Scalar, H: Homotopy<X, [P; 4]>>(h: H, x: X) -> bool {
    &&& h.spec_h(x, [
        P::spec_zero(),
        P::spec_zero(),
        P::spec_zero(),
        P::spec_zero(),
    ]) == h.spec_f(x)
    &&& h.spec_h(x, [
        P::spec_one(),
        P::spec_one(),
        P::spec_one(),
        P::spec_one(),
    ]) == h.spec_g(x)
}

/// `h` is a 4-parameter homotopy at every input.
pub open spec fn is_homotopy4<X, P: Scalar, H: Homotopy<X, [P; 4]>>(h: H) -> bool {
    forall|x: X| #[trigger] is_homotopy4_at(h, x)
}

/// `h` starts at `f(x)` at the origin and ends at `g(x)` at the far corner of the
/// 5-parameter cube.
pub open spec fn is_homotopy5_at<X, P: Scalar, H: Homotopy<X, [P; 5]>>(h: H, x: X) -> bool {
    &&& h.spec_h(x, [
        P::spec_zero(),
        P::spec_zero(),
        P::spec_zero(),
        P::spec_zero(),
        P::spec_zero(),
    ]) == h.spec_f(x)
    &&& h.spec_h(x, [
        P::spec_one(),
        P::spec_one(),
        P::spec_one(),
        P::spec_one(),
        P::spec_one(),
    ]) == h.spec_g(x)
}

/// `h` is a 5-parameter homotopy at every input.
pub open spec fn is_homotopy5<X, P: Scalar, H: Homotopy<X, [P; 5]>>(h: H) -> bool {
    forall|x: X| #[trigger] is_homotopy5_at(h, x)
}

/// Checks that the homotopy constraints hold for some input `x`.
///
/// Where `==` on the output type is equality of values, the result is exactly
/// whether `h` starts at `f(x)` and ends at `g(x)`.
#[must_use]
pub fn check<H, X, P>(h: &H, x: X) -> (r: bool) where
    H: Homotopy<X, P>,
    H::Y: PartialEq,
    X: Copy,
    P: Scalar,

    ensures
        obeys_concrete_eq::<H::Y>() ==> (r == is_homotopy_at(*h, x)),
{
    proof {
        reveal(obeys_concrete_eq);
    }
    h.h(x, P::zero()) == h.f(x) && h.h(x, P::one()) == h.g(x)
}

/// Checks that the 2D homotopy constraints hold for some input `x`: at the two corners,
/// and on each of the four sides.
///
/// Where `==` on the output type is equality of values, the result is exactly
/// whether `h` starts at `f(x)` and ends at `g(x)`; the sides then hold too.
#[must_use]
pub fn check2<H, X, P>(h: &H, x: X) -> (r: bool) where
    H: Homotopy<X, [P; 2]>,
    H::Y: PartialEq,
    X: Copy,
    P: Scalar,

    ensures
        obeys_concrete_eq::<H::Y>() ==> (r == is_homotopy2_at(*h, x)),
{
    proof {
        reveal(obeys_concrete_eq);
    }
    let a = h.f(x);
    let b = h.g(x);
    h.h(x, [P::zero(), P::zero()]) == a && h.h(x, [P::one(), P::one()]) == b && check(
        &h.left(),
        x,
    ) && check(&h.right(), x) && check(&h.top(), x) && check(&h.bottom(), x)
}

/// Checks that the 3D homotopy constraints hold for some input `x`: at the two corners,
/// and on each of the six sides, recursively.
///
/// Where `==` on the output type is equality of values, the result is exactly
/// whether `h` starts at `f(x)` and ends at `g(x)`; the sides then hold too.
#[must_use]
pub fn check3<H, X, P>(h: &H, x: X) -> (r: bool) where
    H: Homotopy<X, [P; 3]>,
    H::Y: PartialEq,
    X: Copy,
    P: Scalar,

    ensures
        obeys_concrete_eq::<H::Y>() ==> (r == is_homotopy3_at(*h, x)),
{
    proof {
        reveal(obeys_concrete_eq);
    }
    let a = h.f(x);
    let b = h.g(x);
    h.h(x, [P::zero(), P::zero(), P::zero()]) == a && h.h(x, [P::one(), P::one(), P::one()]) == b
        && check2(&h.left(), x) && check2(&h.right(), x) && check2(&h.top(), x) && check2(
        &h.bottom(),
        x,
    ) && check2(&h.front(), x) && check2(&h.back(), x)
}
} // verus!
