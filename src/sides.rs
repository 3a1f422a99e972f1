//! Faces, diagonals and cross-sections of many-parameter homotopies.
//!
//! A face fixes one parameter of an N-parameter homotopy to `0` or `1` and is an
//! (N-1)-parameter homotopy; a cross-section fixes it to any given value.
//! Each face takes its `f` and `g` from the parent's `h` at the corner whose free
//! parameters are all `0` (for `f`) or all `1` (for `g`), or from the parent's own
//! `f` and `g` where that corner is the parent's origin or far corner.
//!
//! Each combinator is a homotopy only over a parent with a matching number of
//! parameters, so using one on a parent of another dimension is a type error.
use vstd::prelude::*;

use crate::scalar::Scalar;
use crate::Homotopy;
use core::marker::PhantomData;

verus! {

/// The diagonal of an N-dimensional homotopy, resulting in a 1D homotopy.
///
/// This interpolates along all dimensions at once.
pub struct Diagonal<T, S> {
    /// The homotopy whose diagonal this is.
    pub shape: T,
    /// Marks the parameter type of `shape`, which selects the dimension.
    pub arity: PhantomData<S>,
}

impl<T, S> Diagonal<T, S> {
    /// Creates a new diagonal.
    pub fn new(shape: T) -> (r: Self)
        ensures
            r.shape == shape,
    {
        Diagonal { shape, arity: PhantomData }
    }
}

impl<X, P: Scalar, T: Homotopy<X, [P; 2]>> Homotopy<X, P> for Diagonal<T, [P; 2]> {
    type Y = T::Y;

    open spec fn spec_f(&self, x: X) -> T::Y {
        self.shape.spec_f(x)
    }

    open spec fn spec_g(&self, x: X) -> T::Y {
        self.shape.spec_g(x)
    }

    open spec fn spec_h(&self, x: X, s: P) -> T::Y {
        self.shape.spec_h(x, [s, s])
    }

    fn f(&self, x: X) -> (y: T::Y) {
        self.shape.f(x)
    }

    fn g(&self, x: X) -> (y: T::Y) {
        self.shape.g(x)
    }

    fn h(&self, x: X, s: P) -> (y: T::Y) {
        self.shape.h(x, [s, s])
    }
}

impl<X, P: Scalar, T: Homotopy<X, [P; 3]>> Homotopy<X, P> for Diagonal<T, [P; 3]> {
    type Y = T::Y;

    open spec fn spec_f(&self, x: X) -> T::Y {
        self.shape.spec_f(x)
    }

    open spec fn spec_g(&self, x: X) -> T::Y {
        self.shape.spec_g(x)
    }

    open spec fn spec_h(&self, x: X, s: P) -> T::Y {
        self.shape.spec_h(x, [s, s, s])
    }

    fn f(&self, x: X) -> (y: T::Y) {
        self.shape.f(x)
    }

    fn g(&self, x: X) -> (y: T::Y) {
        self.shape.g(x)
    }

    fn h(&self, x: X, s: P) -> (y: T::Y) {
        self.shape.h(x, [s, s, s])
    }
}

impl<X, P: Scalar, T: Homotopy<X, [P; 4]>> Homotopy<X, P> for Diagonal<T, [P; 4]> {
    type Y = T::Y;

    open spec fn spec_f(&self, x: X) -> T::Y {
        self.shape.spec_f(x)
    }

    open spec fn spec_g(&self, x: X) -> T::Y {
        self.shape.spec_g(x)
    }

    open spec fn spec_h(&self, x: X, s: P) -> T::Y {
        self.shape.spec_h(x, [s, s, s, s])
    }

    fn f(&self, x: X) -> (y: T::Y) {
        self.shape.f(x)
    }

    fn g(&self, x: X) -> (y: T::Y) {
        self.shape.g(x)
    }

    fn h(&self, x: X, s: P) -> (y: T::Y) {
        self.shape.h(x, [s, s, s, s])
    }
}

/// The left side of an N-dimensional homotopy, resulting in a N-1 homotopy.
///
/// Fixes the first parameter to `0`.
pub struct Left<T>(pub T);

impl<X, P: Scalar, T: Homotopy<X, [P; 2]>> Homotopy<X, P> for Left<T> {
    type Y = T::Y;

    open spec fn spec_f(&self, x: X) -> T::Y {
        self.0.spec_f(x)
    }

    open spec fn spec_g(&self, x: X) -> T::Y {
        self.0.spec_h(x, [P::spec_zero(), P::spec_one()])
    }

    open spec fn spec_h(&self, x: X, s: P) -> T::Y {
        self.0.spec_h(x, [P::spec_zero(), s])
    }

    fn f(&self, x: X) -> (y: T::Y) {
        self.0.f(x)
    }

    fn g(&self, x: X) -> (y: T::Y) {
        self.0.h(x, [P::zero(), P::one()])
    }

    fn h(&self, x: X, s: P) -> (y: T::Y) {
        self.0.h(x, [P::zero(), s])
    }
}

impl<X, P: Scalar, T: Homotopy<X, [P; 3]>> Homotopy<X, [P; 2]> for Left<T> {
    type Y = T::Y;

    open spec fn spec_f(&self, x: X) -> T::Y {
        self.0.spec_f(x)
    }

    open spec fn spec_g(&self, x: X) -> T::Y {
        self.0.spec_h(x, [P::spec_zero(), P::spec_one(), P::spec_one()])
    }

    open spec fn spec_h(&self, x: X, s: [P; 2]) -> T::Y {
        self.0.spec_h(x, [P::spec_zero(), s[0], s[1]])
    }

    fn f(&self, x: X) -> (y: T::Y) {
        self.0.f(x)
    }

    fn g(&self, x: X) -> (y: T::Y) {
        self.0.h(x, [P::zero(), P::one(), P::one()])
    }

    fn h(&self, x: X, s: [P; 2]) -> (y: T::Y) {
        self.0.h(x, [P::zero(), s[0], s[1]])
    }
}

impl<X, P: Scalar, T: Homotopy<X, [P; 4]>> Homotopy<X, [P; 3]> for Left<T> {
    type Y = T::Y;

    open spec fn spec_f(&self, x: X) -> T::Y {
        self.0.spec_f(x)
    }

    open spec fn spec_g(&self, x: X) -> T::Y {
        self.0.spec_h(x, [P::spec_zero(), P::spec_one(), P::spec_one(), P::spec_one()])
    }

    open spec fn spec_h(&self, x: X, s: [P; 3]) -> T::Y {
        self.0.spec_h(x, [P::spec_zero(), s[0], s[1], s[2]])
    }

    fn f(&self, x: X) -> (y: T::Y) {
        self.0.f(x)
    }

    fn g(&self, x: X) -> (y: T::Y) {
        self.0.h(x, [P::zero(), P::one(), P::one(), P::one()])
    }

    fn h(&self, x: X, s: [P; 3]) -> (y: T::Y) {
        self.0.h(x, [P::zero(), s[0], s[1], s[2]])
    }
}

/// The right side of an N-dimensional homotopy, resulting in a N-1 homotopy.
///
/// Fixes the first parameter to `1`.
pub struct Right<T>(pub T);

impl<X, P: Scalar, T: Homotopy<X, [P; 2]>> Homotopy<X, P> for Right<T> {
    type Y = T::Y;

    open spec fn spec_f(&self, x: X) -> T::Y {
        self.0.spec_h(x, [P::spec_one(), P::spec_zero()])
    }

    open spec fn spec_g(&self, x: X) -> T::Y {
        self.0.spec_g(x)
    }

    open spec fn spec_h(&self, x: X, s: P) -> T::Y {
        self.0.spec_h(x, [P::spec_one(), s])
    }

    fn f(&self, x: X) -> (y: T::Y) {
        self.0.h(x, [P::one(), P::zero()])
    }

    fn g(&self, x: X) -> (y: T::Y) {
        self.0.g(x)
    }

    fn h(&self, x: X, s: P) -> (y: T::Y) {
        self.0.h(x, [P::one(), s])
    }
}

impl<X, P: Scalar, T: Homotopy<X, [P; 3]>> Homotopy<X, [P; 2]> for Right<T> {
    type Y = T::Y;

    open spec fn spec_f(&self, x: X) -> T::Y {
        self.0.spec_h(x, [P::spec_one(), P::spec_zero(), P::spec_zero()])
    }

    open spec fn spec_g(&self, x: X) -> T::Y {
        self.0.spec_g(x)
    }

    open spec fn spec_h(&self, x: X, s: [P; 2]) -> T::Y {
        self.0.spec_h(x, [P::spec_one(), s[0], s[1]])
    }

    fn f(&self, x: X) -> (y: T::Y) {
        self.0.h(x, [P::one(), P::zero(), P::zero()])
    }

    fn g(&self, x: X) -> (y: T::Y) {
        self.0.g(x)
    }

    fn h(&self, x: X, s: [P; 2]) -> (y: T::Y) {
        self.0.h(x, [P::one(), s[0], s[1]])
    }
}

impl<X, P: Scalar, T: Homotopy<X, [P; 4]>> Homotopy<X, [P; 3]> for Right<T> {
    type Y = T::Y;

    open spec fn spec_f(&self, x: X) -> T::Y {
        self.0.spec_h(x, [P::spec_one(), P::spec_zero(), P::spec_zero(), P::spec_zero()])
    }

    open spec fn spec_g(&self, x: X) -> T::Y {
        self.0.spec_g(x)
    }

    open spec fn spec_h(&self, x: X, s: [P; 3]) -> T::Y {
        self.0.spec_h(x, [P::spec_one(), s[0], s[1], s[2]])
    }

    fn f(&self, x: X) -> (y: T::Y) {
        self.0.h(x, [P::one(), P::zero(), P::zero(), P::zero()])
    }

    fn g(&self, x: X) -> (y: T::Y) {
        self.0.g(x)
    }

    fn h(&self, x: X, s: [P; 3]) -> (y: T::Y) {
        self.0.h(x, [P::one(), s[0], s[1], s[2]])
    }
}

/// The top side of an N-dimensional homotopy, resulting in a N-1 homotopy.
///
/// Fixes the second parameter to `0`.
pub struct Top<T>(pub T);

impl<X, P: Scalar, T: Homotopy<X, [P; 2]>> Homotopy<X, P> for Top<T> {
    type Y = T::Y;

    open spec fn spec_f(&self, x: X) -> T::Y {
        self.0.spec_f(x)
    }

    open spec fn spec_g(&self, x: X) -> T::Y {
        self.0.spec_h(x, [P::spec_one(), P::spec_zero()])
    }

    open spec fn spec_h(&self, x: X, s: P) -> T::Y {
        self.0.spec_h(x, [s, P::spec_zero()])
    }

    fn f(&self, x: X) -> (y: T::Y) {
        self.0.f(x)
    }

    fn g(&self, x: X) -> (y: T::Y) {
        self.0.h(x, [P::one(), P::zero()])
    }

    fn h(&self, x: X, s: P) -> (y: T::Y) {
        self.0.h(x, [s, P::zero()])
    }
}

impl<X, P: Scalar, T: Homotopy<X, [P; 3]>> Homotopy<X, [P; 2]> for Top<T> {
    type Y = T::Y;

    open spec fn spec_f(&self, x: X) -> T::Y {
        self.0.spec_f(x)
    }

    open spec fn spec_g(&self, x: X) -> T::Y {
        self.0.spec_h(x, [P::spec_one(), P::spec_zero(), P::spec_one()])
    }

    open spec fn spec_h(&self, x: X, s: [P; 2]) -> T::Y {
        self.0.spec_h(x, [s[0], P::spec_zero(), s[1]])
    }

    fn f(&self, x: X) -> (y: T::Y) {
        self.0.f(x)
    }

    fn g(&self, x: X) -> (y: T::Y) {
        self.0.h(x, [P::one(), P::zero(), P::one()])
    }

    fn h(&self, x: X, s: [P; 2]) -> (y: T::Y) {
        self.0.h(x, [s[0], P::zero(), s[1]])
    }
}

impl<X, P: Scalar, T: Homotopy<X, [P; 4]>> Homotopy<X, [P; 3]> for Top<T> {
    type Y = T::Y;

    open spec fn spec_f(&self, x: X) -> T::Y {
        self.0.spec_f(x)
    }

    open spec fn spec_g(&self, x: X) -> T::Y {
        self.0.spec_h(x, [P::spec_one(), P::spec_zero(), P::spec_one(), P::spec_one()])
    }

    open spec fn spec_h(&self, x: X, s: [P; 3]) -> T::Y {
        self.0.spec_h(x, [s[0], P::spec_zero(), s[1], s[2]])
    }

    fn f(&self, x: X) -> (y: T::Y) {
        self.0.f(x)
    }

    fn g(&self, x: X) -> (y: T::Y) {
        self.0.h(x, [P::one(), P::zero(), P::one(), P::one()])
    }

    fn h(&self, x: X, s: [P; 3]) -> (y: T::Y) {
        self.0.h(x, [s[0], P::zero(), s[1], s[2]])
    }
}

/// The bottom side of an N-dimensional homotopy, resulting in a N-1 homotopy.
///
/// Fixes the second parameter to `1`.
pub struct Bottom<T>(pub T);

impl<X, P: Scalar, T: Homotopy<X, [P; 2]>> Homotopy<X, P> for Bottom<T> {
    type Y = T::Y;

    open spec fn spec_f(&self, x: X) -> T::Y {
        self.0.spec_h(x, [P::spec_zero(), P::spec_one()])
    }

    open spec fn spec_g(&self, x: X) -> T::Y {
        self.0.spec_g(x)
    }

    open spec fn spec_h(&self, x: X, s: P) -> T::Y {
        self.0.spec_h(x, [s, P::spec_one()])
    }

    fn f(&self, x: X) -> (y: T::Y) {
        self.0.h(x, [P::zero(), P::one()])
    }

    fn g(&self, x: X) -> (y: T::Y) {
        self.0.g(x)
    }

    fn h(&self, x: X, s: P) -> (y: T::Y) {
        self.0.h(x, [s, P::one()])
    }
}

impl<X, P: Scalar, T: Homotopy<X, [P; 3]>> Homotopy<X, [P; 2]> for Bottom<T> {
    type Y = T::Y;

    open spec fn spec_f(&self, x: X) -> T::Y {
        self.0.spec_h(x, [P::spec_zero(), P::spec_one(), P::spec_zero()])
    }

    open spec fn spec_g(&self, x: X) -> T::Y {
        self.0.spec_g(x)
    }

    open spec fn spec_h(&self, x: X, s: [P; 2]) -> T::Y {
        self.0.spec_h(x, [s[0], P::spec_one(), s[1]])
    }

    fn f(&self, x: X) -> (y: T::Y) {
        self.0.h(x, [P::zero(), P::one(), P::zero()])
    }

    fn g(&self, x: X) -> (y: T::Y) {
        self.0.g(x)
    }

    fn h(&self, x: X, s: [P; 2]) -> (y: T::Y) {
        self.0.h(x, [s[0], P::one(), s[1]])
    }
}

impl<X, P: Scalar, T: Homotopy<X, [P; 4]>> Homotopy<X, [P; 3]> for Bottom<T> {
    type Y = T::Y;

    open spec fn spec_f(&self, x: X) -> T::Y {
        self.0.spec_h(x, [P::spec_zero(), P::spec_one(), P::spec_zero(), P::spec_zero()])
    }

    open spec fn spec_g(&self, x: X) -> T::Y {
        self.0.spec_g(x)
    }

    open spec fn spec_h(&self, x: X, s: [P; 3]) -> T::Y {
        self.0.spec_h(x, [s[0], P::spec_one(), s[1], s[2]])
    }

    fn f(&self, x: X) -> (y: T::Y) {
        self.0.h(x, [P::zero(), P::one(), P::zero(), P::zero()])
    }

    fn g(&self, x: X) -> (y: T::Y) {
        self.0.g(x)
    }

    fn h(&self, x: X, s: [P; 3]) -> (y: T::Y) {
        self.0.h(x, [s[0], P::one(), s[1], s[2]])
    }
}

/// The front side of an N-dimensional homotopy, resulting in a N-1 homotopy.
///
/// Fixes the third parameter to `0`.
pub struct Front<T>(pub T);

impl<X, P: Scalar, T: Homotopy<X, [P; 3]>> Homotopy<X, [P; 2]> for Front<T> {
    type Y = T::Y;

    open spec fn spec_f(&self, x: X) -> T::Y {
        self.0.spec_f(x)
    }

    open spec fn spec_g(&self, x: X) -> T::Y {
        self.0.spec_h(x, [P::spec_one(), P::spec_one(), P::spec_zero()])
    }

    open spec fn spec_h(&self, x: X, s: [P; 2]) -> T::Y {
        self.0.spec_h(x, [s[0], s[1], P::spec_zero()])
    }

    fn f(&self, x: X) -> (y: T::Y) {
        self.0.f(x)
    }

    fn g(&self, x: X) -> (y: T::Y) {
        self.0.h(x, [P::one(), P::one(), P::zero()])
    }

    fn h(&self, x: X, s: [P; 2]) -> (y: T::Y) {
        self.0.h(x, [s[0], s[1], P::zero()])
    }
}

impl<X, P: Scalar, T: Homotopy<X, [P; 4]>> Homotopy<X, [P; 3]> for Front<T> {
    type Y = T::Y;

    open spec fn spec_f(&self, x: X) -> T::Y {
        self.0.spec_f(x)
    }

    open spec fn spec_g(&self, x: X) -> T::Y {
        self.0.spec_h(x, [P::spec_one(), P::spec_one(), P::spec_zero(), P::spec_one()])
    }

    open spec fn spec_h(&self, x: X, s: [P; 3]) -> T::Y {
        self.0.spec_h(x, [s[0], s[1], P::spec_zero(), s[2]])
    }

    fn f(&self, x: X) -> (y: T::Y) {
        self.0.f(x)
    }

    fn g(&self, x: X) -> (y: T::Y) {
        self.0.h(x, [P::one(), P::one(), P::zero(), P::one()])
    }

    fn h(&self, x: X, s: [P; 3]) -> (y: T::Y) {
        self.0.h(x, [s[0], s[1], P::zero(), s[2]])
    }
}

/// The back side of an N-dimensional homotopy, resulting in a N-1 homotopy.
///
/// Fixes the third parameter to `1`.
pub struct Back<T>(pub T);

impl<X, P: Scalar, T: Homotopy<X, [P; 3]>> Homotopy<X, [P; 2]> for Back<T> {
    type Y = T::Y;

    open spec fn spec_f(&self, x: X) -> T::Y {
        self.0.spec_h(x, [P::spec_zero(), P::spec_zero(), P::spec_one()])
    }

    open spec fn spec_g(&self, x: X) -> T::Y {
        self.0.spec_g(x)
    }

    open spec fn spec_h(&self, x: X, s: [P; 2]) -> T::Y {
        self.0.spec_h(x, [s[0], s[1], P::spec_one()])
    }

    fn f(&self, x: X) -> (y: T::Y) {
        self.0.h(x, [P::zero(), P::zero(), P::one()])
    }

    fn g(&self, x: X) -> (y: T::Y) {
        self.0.g(x)
    }

    fn h(&self, x: X, s: [P; 2]) -> (y: T::Y) {
        self.0.h(x, [s[0], s[1], P::one()])
    }
}

impl<X, P: Scalar, T: Homotopy<X, [P; 4]>> Homotopy<X, [P; 3]> for Back<T> {
    type Y = T::Y;

    open spec fn spec_f(&self, x: X) -> T::Y {
        self.0.spec_h(x, [P::spec_zero(), P::spec_zero(), P::spec_one(), P::spec_zero()])
    }

    open spec fn spec_g(&self, x: X) -> T::Y {
        self.0.spec_g(x)
    }

    open spec fn spec_h(&self, x: X, s: [P; 3]) -> T::Y {
        self.0.spec_h(x, [s[0], s[1], P::spec_one(), s[2]])
    }

    fn f(&self, x: X) -> (y: T::Y) {
        self.0.h(x, [P::zero(), P::zero(), P::one(), P::zero()])
    }

    fn g(&self, x: X) -> (y: T::Y) {
        self.0.g(x)
    }

    fn h(&self, x: X, s: [P; 3]) -> (y: T::Y) {
        self.0.h(x, [s[0], s[1], P::one(), s[2]])
    }
}

/// The past side of an N-dimensional homotopy, resulting in a N-1 homotopy.
///
/// Fixes the fourth parameter to `0`.
pub struct Past<T>(pub T);

impl<X, P: Scalar, T: Homotopy<X, [P; 4]>> Homotopy<X, [P; 3]> for Past<T> {
    type Y = T::Y;

    open spec fn spec_f(&self, x: X) -> T::Y {
        self.0.spec_f(x)
    }

    open spec fn spec_g(&self, x: X) -> T::Y {
        self.0.spec_h(x, [P::spec_one(), P::spec_one(), P::spec_one(), P::spec_zero()])
    }

    open spec fn spec_h(&self, x: X, s: [P; 3]) -> T::Y {
        self.0.spec_h(x, [s[0], s[1], s[2], P::spec_zero()])
    }

    fn f(&self, x: X) -> (y: T::Y) {
        self.0.f(x)
    }

    fn g(&self, x: X) -> (y: T::Y) {
        self.0.h(x, [P::one(), P::one(), P::one(), P::zero()])
    }

    fn h(&self, x: X, s: [P; 3]) -> (y: T::Y) {
        self.0.h(x, [s[0], s[1], s[2], P::zero()])
    }
}

/// The future side of an N-dimensional homotopy, resulting in a N-1 homotopy.
///
/// Fixes the fourth parameter to `1`.
pub struct Future<T>(pub T);

impl<X, P: Scalar, T: Homotopy<X, [P; 4]>> Homotopy<X, [P; 3]> for Future<T> {
    type Y = T::Y;

    open spec fn spec_f(&self, x: X) -> T::Y {
        self.0.spec_h(x, [P::spec_zero(), P::spec_zero(), P::spec_zero(), P::spec_one()])
    }

    open spec fn spec_g(&self, x: X) -> T::Y {
        self.0.spec_g(x)
    }

    open spec fn spec_h(&self, x: X, s: [P; 3]) -> T::Y {
        self.0.spec_h(x, [s[0], s[1], s[2], P::spec_one()])
    }

    fn f(&self, x: X) -> (y: T::Y) {
        self.0.h(x, [P::zero(), P::zero(), P::zero(), P::one()])
    }

    fn g(&self, x: X) -> (y: T::Y) {
        self.0.g(x)
    }

    fn h(&self, x: X, s: [P; 3]) -> (y: T::Y) {
        self.0.h(x, [s[0], s[1], s[2], P::one()])
    }
}

/// Intersects from left to right: fixes the first parameter to the given value.
pub struct LeftRight<T, P>(pub T, pub P);

impl<X, P: Scalar, T: Homotopy<X, [P; 2]>> Homotopy<X, P> for LeftRight<T, P> {
    type Y = T::Y;

    open spec fn spec_f(&self, x: X) -> T::Y {
        self.0.spec_h(x, [self.1, P::spec_zero()])
    }

    open spec fn spec_g(&self, x: X) -> T::Y {
        self.0.spec_h(x, [self.1, P::spec_one()])
    }

    open spec fn spec_h(&self, x: X, s: P) -> T::Y {
        self.0.spec_h(x, [self.1, s])
    }

    fn f(&self, x: X) -> (y: T::Y) {
        self.0.h(x, [self.1, P::zero()])
    }

    fn g(&self, x: X) -> (y: T::Y) {
        self.0.h(x, [self.1, P::one()])
    }

    fn h(&self, x: X, s: P) -> (y: T::Y) {
        self.0.h(x, [self.1, s])
    }
}

impl<X, P: Scalar, T: Homotopy<X, [P; 3]>> Homotopy<X, [P; 2]> for LeftRight<T, P> {
    type Y = T::Y;

    open spec fn spec_f(&self, x: X) -> T::Y {
        self.0.spec_h(x, [self.1, P::spec_zero(), P::spec_zero()])
    }

    open spec fn spec_g(&self, x: X) -> T::Y {
        self.0.spec_h(x, [self.1, P::spec_one(), P::spec_one()])
    }

    open spec fn spec_h(&self, x: X, s: [P; 2]) -> T::Y {
        self.0.spec_h(x, [self.1, s[0], s[1]])
    }

    fn f(&self, x: X) -> (y: T::Y) {
        self.0.h(x, [self.1, P::zero(), P::zero()])
    }

    fn g(&self, x: X) -> (y: T::Y) {
        self.0.h(x, [self.1, P::one(), P::one()])
    }

    fn h(&self, x: X, s: [P; 2]) -> (y: T::Y) {
        self.0.h(x, [self.1, s[0], s[1]])
    }
}

impl<X, P: Scalar, T: Homotopy<X, [P; 4]>> Homotopy<X, [P; 3]> for LeftRight<T, P> {
    type Y = T::Y;

    open spec fn spec_f(&self, x: X) -> T::Y {
        self.0.spec_h(x, [self.1, P::spec_zero(), P::spec_zero(), P::spec_zero()])
    }

    open spec fn spec_g(&self, x: X) -> T::Y {
        self.0.spec_h(x, [self.1, P::spec_one(), P::spec_one(), P::spec_one()])
    }

    open spec fn spec_h(&self, x: X, s: [P; 3]) -> T::Y {
        self.0.spec_h(x, [self.1, s[0], s[1], s[2]])
    }

    fn f(&self, x: X) -> (y: T::Y) {
        self.0.h(x, [self.1, P::zero(), P::zero(), P::zero()])
    }

    fn g(&self, x: X) -> (y: T::Y) {
        self.0.h(x, [self.1, P::one(), P::one(), P::one()])
    }

    fn h(&self, x: X, s: [P; 3]) -> (y: T::Y) {
        self.0.h(x, [self.1, s[0], s[1], s[2]])
    }
}

/// Intersects from top to bottom: fixes the second parameter to the given value.
pub struct TopBottom<T, P>(pub T, pub P);

impl<X, P: Scalar, T: Homotopy<X, [P; 2]>> Homotopy<X, P> for TopBottom<T, P> {
    type Y = T::Y;

    open spec fn spec_f(&self, x: X) -> T::Y {
        self.0.spec_h(x, [P::spec_zero(), self.1])
    }

    open spec fn spec_g(&self, x: X) -> T::Y {
        self.0.spec_h(x, [P::spec_one(), self.1])
    }

    open spec fn spec_h(&self, x: X, s: P) -> T::Y {
        self.0.spec_h(x, [s, self.1])
    }

    fn f(&self, x: X) -> (y: T::Y) {
        self.0.h(x, [P::zero(), self.1])
    }

    fn g(&self, x: X) -> (y: T::Y) {
        self.0.h(x, [P::one(), self.1])
    }

    fn h(&self, x: X, s: P) -> (y: T::Y) {
        self.0.h(x, [s, self.1])
    }
}

impl<X, P: Scalar, T: Homotopy<X, [P; 3]>> Homotopy<X, [P; 2]> for TopBottom<T, P> {
    type Y = T::Y;

    open spec fn spec_f(&self, x: X) -> T::Y {
        self.0.spec_h(x, [P::spec_zero(), self.1, P::spec_zero()])
    }

    open spec fn spec_g(&self, x: X) -> T::Y {
        self.0.spec_h(x, [P::spec_one(), self.1, P::spec_one()])
    }

    open spec fn spec_h(&self, x: X, s: [P; 2]) -> T::Y {
        self.0.spec_h(x, [s[0], self.1, s[1]])
    }

    fn f(&self, x: X) -> (y: T::Y) {
        self.0.h(x, [P::zero(), self.1, P::zero()])
    }

    fn g(&self, x: X) -> (y: T::Y) {
        self.0.h(x, [P::one(), self.1, P::one()])
    }

    fn h(&self, x: X, s: [P; 2]) -> (y: T::Y) {
        self.0.h(x, [s[0], self.1, s[1]])
    }
}

impl<X, P: Scalar, T: Homotopy<X, [P; 4]>> Homotopy<X, [P; 3]> for TopBottom<T, P> {
    type Y = T::Y;

    open spec fn spec_f(&self, x: X) -> T::Y {
        self.0.spec_h(x, [P::spec_zero(), self.1, P::spec_zero(), P::spec_zero()])
    }

    open spec fn spec_g(&self, x: X) -> T::Y {
        self.0.spec_h(x, [P::spec_one(), self.1, P::spec_one(), P::spec_one()])
    }

    open spec fn spec_h(&self, x: X, s: [P; 3]) -> T::Y {
        self.0.spec_h(x, [s[0], self.1, s[1], s[2]])
    }

    fn f(&self, x: X) -> (y: T::Y) {
        self.0.h(x, [P::zero(), self.1, P::zero(), P::zero()])
    }

    fn g(&self, x: X) -> (y: T::Y) {
        self.0.h(x, [P::one(), self.1, P::one(), P::one()])
    }

    fn h(&self, x: X, s: [P; 3]) -> (y: T::Y) {
        self.0.h(x, [s[0], self.1, s[1], s[2]])
    }
}

/// Intersects from front to back: fixes the third parameter to the given value.
pub struct FrontBack<T, P>(pub T, pub P);

impl<X, P: Scalar, T: Homotopy<X, [P; 3]>> Homotopy<X, [P; 2]> for FrontBack<T, P> {
    type Y = T::Y;

    open spec fn spec_f(&self, x: X) -> T::Y {
        self.0.spec_h(x, [P::spec_zero(), P::spec_zero(), self.1])
    }

    open spec fn spec_g(&self, x: X) -> T::Y {
        self.0.spec_h(x, [P::spec_one(), P::spec_one(), self.1])
    }

    open spec fn spec_h(&self, x: X, s: [P; 2]) -> T::Y {
        self.0.spec_h(x, [s[0], s[1], self.1])
    }

    fn f(&self, x: X) -> (y: T::Y) {
        self.0.h(x, [P::zero(), P::zero(), self.1])
    }

    fn g(&self, x: X) -> (y: T::Y) {
        self.0.h(x, [P::one(), P::one(), self.1])
    }

    fn h(&self, x: X, s: [P; 2]) -> (y: T::Y) {
        self.0.h(x, [s[0], s[1], self.1])
    }
}

impl<X, P: Scalar, T: Homotopy<X, [P; 4]>> Homotopy<X, [P; 3]> for FrontBack<T, P> {
    type Y = T::Y;

    open spec fn spec_f(&self, x: X) -> T::Y {
        self.0.spec_h(x, [P::spec_zero(), P::spec_zero(), self.1, P::spec_zero()])
    }

    open spec fn spec_g(&self, x: X) -> T::Y {
        self.0.spec_h(x, [P::spec_one(), P::spec_one(), self.1, P::spec_one()])
    }

    open spec fn spec_h(&self, x: X, s: [P; 3]) -> T::Y {
        self.0.spec_h(x, [s[0], s[1], self.1, s[2]])
    }

    fn f(&self, x: X) -> (y: T::Y) {
        self.0.h(x, [P::zero(), P::zero(), self.1, P::zero()])
    }

    fn g(&self, x: X) -> (y: T::Y) {
        self.0.h(x, [P::one(), P::one(), self.1, P::one()])
    }

    fn h(&self, x: X, s: [P; 3]) -> (y: T::Y) {
        self.0.h(x, [s[0], s[1], self.1, s[2]])
    }
}

/// Intersects from past to future: fixes the fourth parameter to the given value.
pub struct PastFuture<T, P>(pub T, pub P);

impl<X, P: Scalar, T: Homotopy<X, [P; 4]>> Homotopy<X, [P; 3]> for PastFuture<T, P> {
    type Y = T::Y;

    open spec fn spec_f(&self, x: X) -> T::Y {
        self.0.spec_h(x, [P::spec_zero(), P::spec_zero(), P::spec_zero(), self.1])
    }

    open spec fn spec_g(&self, x: X) -> T::Y {
        self.0.spec_h(x, [P::spec_one(), P::spec_one(), P::spec_one(), self.1])
    }

    open spec fn spec_h(&self, x: X, s: [P; 3]) -> T::Y {
        self.0.spec_h(x, [s[0], s[1], s[2], self.1])
    }

    fn f(&self, x: X) -> (y: T::Y) {
        self.0.h(x, [P::zero(), P::zero(), P::zero(), self.1])
    }

    fn g(&self, x: X) -> (y: T::Y) {
        self.0.h(x, [P::one(), P::one(), P::one(), self.1])
    }

    fn h(&self, x: X, s: [P; 3]) -> (y: T::Y) {
        self.0.h(x, [s[0], s[1], s[2], self.1])
    }
}

} // verus!
