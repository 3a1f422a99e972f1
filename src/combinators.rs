//! Structural combinators: composition, products, inversion and the array adapter.
use vstd::prelude::*;

use crate::scalar::Scalar;
use crate::Homotopy;
use core::marker::PhantomData;

verus! {

/// Functional composition that is itself a homotopy.
///
/// Both homotopies are driven by the same parameter.
pub struct Compose<X, H1, H2> {
    /// The homotopy applied first.
    pub h1: H1,
    /// The homotopy applied to the results of the first.
    pub h2: H2,
    /// Marks the input type of `h1`.
    pub domain: PhantomData<X>,
}

impl<X, H1, H2> Compose<X, H1, H2> {
    /// Creates a new composition of two homotopy maps.
    pub fn new(h1: H1, h2: H2) -> (r: Self)
        ensures
            r.h1 == h1,
            r.h2 == h2,
    {
        Compose { h1, h2, domain: PhantomData }
    }
}

impl<X, P: Scalar, H1: Homotopy<X, P>, H2: Homotopy<H1::Y, P>> Homotopy<X, P> for Compose<
    X,
    H1,
    H2,
> {
    type Y = H2::Y;

    open spec fn spec_f(&self, x: X) -> H2::Y {
        self.h2.spec_f(self.h1.spec_f(x))
    }

    open spec fn spec_g(&self, x: X) -> H2::Y {
        self.h2.spec_g(self.h1.spec_g(x))
    }

    open spec fn spec_h(&self, x: X, s: P) -> H2::Y {
        self.h2.spec_h(self.h1.spec_h(x, s), s)
    }

    fn f(&self, x: X) -> (y: H2::Y) {
        self.h2.f(self.h1.f(x))
    }

    fn g(&self, x: X) -> (y: H2::Y) {
        self.h2.g(self.h1.g(x))
    }

    fn h(&self, x: X, s: P) -> (y: H2::Y) {
        self.h2.h(self.h1.h(x, s), s)
    }
}

/// Takes the square of two homotopy maps and produces a 2D homotopy.
///
/// Each axis evolves independently: the first parameter drives `h1`, the second `h2`.
pub struct Square<X1, X2, H1, H2> {
    /// The homotopy along the first axis.
    pub h1: H1,
    /// The homotopy along the second axis.
    pub h2: H2,
    /// Marks the input types of `h1` and `h2`.
    pub domain: PhantomData<(X1, X2)>,
}

impl<X1, X2, H1, H2> Square<X1, X2, H1, H2> {
    /// Creates a square of two homotopy maps.
    pub fn new(h1: H1, h2: H2) -> (r: Self)
        ensures
            r.h1 == h1,
            r.h2 == h2,
    {
        Square { h1, h2, domain: PhantomData }
    }
}

impl<
    X1,
    X2,
    P: Scalar,
    H1: Homotopy<X1, P>,
    H2: Homotopy<X2, P>,
> Homotopy<(X1, X2), [P; 2]> for Square<X1, X2, H1, H2> {
    type Y = (H1::Y, H2::Y);

    open spec fn spec_f(&self, x: (X1, X2)) -> (H1::Y, H2::Y) {
        (self.h1.spec_f(x.0), self.h2.spec_f(x.1))
    }

    open spec fn spec_g(&self, x: (X1, X2)) -> (H1::Y, H2::Y) {
        (self.h1.spec_g(x.0), self.h2.spec_g(x.1))
    }

    open spec fn spec_h(&self, x: (X1, X2), s: [P; 2]) -> (H1::Y, H2::Y) {
        (self.h1.spec_h(x.0, s[0]), self.h2.spec_h(x.1, s[1]))
    }

    fn f(&self, x: (X1, X2)) -> (y: (H1::Y, H2::Y)) {
        (self.h1.f(x.0), self.h2.f(x.1))
    }

    fn g(&self, x: (X1, X2)) -> (y: (H1::Y, H2::Y)) {
        (self.h1.g(x.0), self.h2.g(x.1))
    }

    fn h(&self, x: (X1, X2), s: [P; 2]) -> (y: (H1::Y, H2::Y)) {
        (self.h1.h(x.0, s[0]), self.h2.h(x.1, s[1]))
    }
}

/// Takes the cube of three homotopy maps and produces a 3D homotopy.
///
/// Each axis evolves independently: parameter `i` drives homotopy `i`.
pub struct Cube<X1, X2, X3, H1, H2, H3> {
    /// The homotopy along the first axis.
    pub h1: H1,
    /// The homotopy along the second axis.
    pub h2: H2,
    /// The homotopy along the third axis.
    pub h3: H3,
    /// Marks the input types of `h1`, `h2` and `h3`.
    pub domain: PhantomData<(X1, X2, X3)>,
}

impl<X1, X2, X3, H1, H2, H3> Cube<X1, X2, X3, H1, H2, H3> {
    /// Creates a new cube of three homotopy maps.
    pub fn new(h1: H1, h2: H2, h3: H3) -> (r: Self)
        ensures
            r.h1 == h1,
            r.h2 == h2,
            r.h3 == h3,
    {
        Cube { h1, h2, h3, domain: PhantomData }
    }
}

impl<
    X1,
    X2,
    X3,
    P: Scalar,
    H1: Homotopy<X1, P>,
    H2: Homotopy<X2, P>,
    H3: Homotopy<X3, P>,
> Homotopy<(X1, X2, X3), [P; 3]> for Cube<X1, X2, X3, H1, H2, H3> {
    type Y = (H1::Y, H2::Y, H3::Y);

    open spec fn spec_f(&self, x: (X1, X2, X3)) -> (H1::Y, H2::Y, H3::Y) {
        (self.h1.spec_f(x.0), self.h2.spec_f(x.1), self.h3.spec_f(x.2))
    }

    open spec fn spec_g(&self, x: (X1, X2, X3)) -> (H1::Y, H2::Y, H3::Y) {
        (self.h1.spec_g(x.0), self.h2.spec_g(x.1), self.h3.spec_g(x.2))
    }

    open spec fn spec_h(&self, x: (X1, X2, X3), s: [P; 3]) -> (H1::Y, H2::Y, H3::Y) {
        (self.h1.spec_h(x.0, s[0]), self.h2.spec_h(x.1, s[1]), self.h3.spec_h(x.2, s[2]))
    }

    fn f(&self, x: (X1, X2, X3)) -> (y: (H1::Y, H2::Y, H3::Y)) {
        (self.h1.f(x.0), self.h2.f(x.1), self.h3.f(x.2))
    }

    fn g(&self, x: (X1, X2, X3)) -> (y: (H1::Y, H2::Y, H3::Y)) {
        (self.h1.g(x.0), self.h2.g(x.1), self.h3.g(x.2))
    }

    fn h(&self, x: (X1, X2, X3), s: [P; 3]) -> (y: (H1::Y, H2::Y, H3::Y)) {
        (self.h1.h(x.0, s[0]), self.h2.h(x.1, s[1]), self.h3.h(x.2, s[2]))
    }
}

/// Inverts the direction of a homotopy.
pub struct Inverse<T>(pub T);

impl<X, P: Scalar, T: Homotopy<X, P>> Homotopy<X, P> for Inverse<T> {
    type Y = T::Y;

    open spec fn spec_f(&self, x: X) -> T::Y {
        self.0.spec_g(x)
    }

    open spec fn spec_g(&self, x: X) -> T::Y {
        self.0.spec_f(x)
    }

    open spec fn spec_h(&self, x: X, s: P) -> T::Y {
        self.0.spec_h(x, s.spec_complement())
    }

    fn f(&self, x: X) -> (y: T::Y) {
        self.0.g(x)
    }

    fn g(&self, x: X) -> (y: T::Y) {
        self.0.f(x)
    }

    fn h(&self, x: X, s: P) -> (y: T::Y) {
        self.0.h(x, s.complement())
    }
}

/// Converts to and from vectors: a homotopy over pairs or triples of one type
/// becomes a homotopy over arrays of two or three values.
#[derive(Copy, Clone)]
pub struct AsVec<T>(pub T);

impl<X: Copy, Y, S, T: Homotopy<(X, X), S, Y = (Y, Y)>> Homotopy<[X; 2], S> for AsVec<T> {
    type Y = [Y; 2];

    open spec fn spec_f(&self, x: [X; 2]) -> [Y; 2] {
        let r = self.0.spec_f((x[0], x[1]));
        [r.0, r.1]
    }

    open spec fn spec_g(&self, x: [X; 2]) -> [Y; 2] {
        let r = self.0.spec_g((x[0], x[1]));
        [r.0, r.1]
    }

    open spec fn spec_h(&self, x: [X; 2], s: S) -> [Y; 2] {
        let r = self.0.spec_h((x[0], x[1]), s);
        [r.0, r.1]
    }

    fn f(&self, x: [X; 2]) -> (y: [Y; 2]) {
        let (a, b) = self.0.f((x[0], x[1]));
        [a, b]
    }

    fn g(&self, x: [X; 2]) -> (y: [Y; 2]) {
        let (a, b) = self.0.g((x[0], x[1]));
        [a, b]
    }

    fn h(&self, x: [X; 2], s: S) -> (y: [Y; 2]) {
        let (a, b) = self.0.h((x[0], x[1]), s);
        [a, b]
    }
}

impl<X: Copy, Y, S, T: Homotopy<(X, X, X), S, Y = (Y, Y, Y)>> Homotopy<[X; 3], S> for AsVec<T> {
    type Y = [Y; 3];

    open spec fn spec_f(&self, x: [X; 3]) -> [Y; 3] {
        let r = self.0.spec_f((x[0], x[1], x[2]));
        [r.0, r.1, r.2]
    }

    open spec fn spec_g(&self, x: [X; 3]) -> [Y; 3] {
        let r = self.0.spec_g((x[0], x[1], x[2]));
        [r.0, r.1, r.2]
    }

    open spec fn spec_h(&self, x: [X; 3], s: S) -> [Y; 3] {
        let r = self.0.spec_h((x[0], x[1], x[2]), s);
        [r.0, r.1, r.2]
    }

    fn f(&self, x: [X; 3]) -> (y: [Y; 3]) {
        let (a, b, c) = self.0.f((x[0], x[1], x[2]));
        [a, b, c]
    }

    fn g(&self, x: [X; 3]) -> (y: [Y; 3]) {
        let (a, b, c) = self.0.g((x[0], x[1], x[2]));
        [a, b, c]
    }

    fn h(&self, x: [X; 3], s: S) -> (y: [Y; 3]) {
        let (a, b, c) = self.0.h((x[0], x[1], x[2]), s);
        [a, b, c]
    }
}

} // verus!
