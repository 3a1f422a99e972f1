//! Composition of homotopies over different parameters.
//!
//! The parameters of the composite are those of the first homotopy followed by those of
//! the second, so composing an `m`-parameter homotopy with an `n`-parameter one gives an
//! `(m + n)`-parameter homotopy.
use vstd::prelude::*;

use crate::scalar::Scalar;
use crate::Homotopy;
use core::marker::PhantomData;

verus! {

/// Functional composition that is itself a homotopy.
///
/// `S1` and `S2` are the parameter types of `h1` and `h2`; they select the dimension.
pub struct Compose<H1, H2, S1, S2> {
    /// The homotopy applied first.
    pub h1: H1,
    /// The homotopy applied to the results of the first.
    pub h2: H2,
    /// Marks the parameter types of `h1` and `h2`.
    pub arity: PhantomData<(S1, S2)>,
}

impl<H1, H2, S1, S2> Compose<H1, H2, S1, S2> {
    /// Creates a new composition of two homotopy maps.
    pub fn new(h1: H1, h2: H2) -> (r: Self)
        ensures
            r.h1 == h1,
            r.h2 == h2,
    {
        Compose { h1, h2, arity: PhantomData }
    }
}

impl<X, P: Scalar, H1: Homotopy<X, P>, H2: Homotopy<H1::Y, P>> Homotopy<X, [P; 2]> for Compose<
    H1,
    H2,
    P,
    P,
> {
    type Y = H2::Y;

    open spec fn spec_f(&self, x: X) -> H2::Y {
        self.h2.spec_f(self.h1.spec_f(x))
    }

    open spec fn spec_g(&self, x: X) -> H2::Y {
        self.h2.spec_g(self.h1.spec_g(x))
    }

    open spec fn spec_h(&self, x: X, s: [P; 2]) -> H2::Y {
        self.h2.spec_h(self.h1.spec_h(x, s[0]), s[1])
    }

    fn f(&self, x: X) -> (y: H2::Y) {
        self.h2.f(self.h1.f(x))
    }

    fn g(&self, x: X) -> (y: H2::Y) {
        self.h2.g(self.h1.g(x))
    }

    fn h(&self, x: X, s: [P; 2]) -> (y: H2::Y) {
        self.h2.h(self.h1.h(x, s[0]), s[1])
    }
}

impl<X, P: Scalar, H1: Homotopy<X, [P; 2]>, H2: Homotopy<H1::Y, P>> Homotopy<X, [P; 3]> for Compose<
    H1,
    H2,
    [P; 2],
    P,
> {
    type Y = H2::Y;

    open spec fn spec_f(&self, x: X) -> H2::Y {
        self.h2.spec_f(self.h1.spec_f(x))
    }

    open spec fn spec_g(&self, x: X) -> H2::Y {
        self.h2.spec_g(self.h1.spec_g(x))
    }

    open spec fn spec_h(&self, x: X, s: [P; 3]) -> H2::Y {
        self.h2.spec_h(self.h1.spec_h(x, [s[0], s[1]]), s[2])
    }

    fn f(&self, x: X) -> (y: H2::Y) {
        self.h2.f(self.h1.f(x))
    }

    fn g(&self, x: X) -> (y: H2::Y) {
        self.h2.g(self.h1.g(x))
    }

    fn h(&self, x: X, s: [P; 3]) -> (y: H2::Y) {
        self.h2.h(self.h1.h(x, [s[0], s[1]]), s[2])
    }
}

impl<X, P: Scalar, H1: Homotopy<X, P>, H2: Homotopy<H1::Y, [P; 2]>> Homotopy<X, [P; 3]> for Compose<
    H1,
    H2,
    P,
    [P; 2],
> {
    type Y = H2::Y;

    open spec fn spec_f(&self, x: X) -> H2::Y {
        self.h2.spec_f(self.h1.spec_f(x))
    }

    open spec fn spec_g(&self, x: X) -> H2::Y {
        self.h2.spec_g(self.h1.spec_g(x))
    }

    open spec fn spec_h(&self, x: X, s: [P; 3]) -> H2::Y {
        self.h2.spec_h(self.h1.spec_h(x, s[0]), [s[1], s[2]])
    }

    fn f(&self, x: X) -> (y: H2::Y) {
        self.h2.f(self.h1.f(x))
    }

    fn g(&self, x: X) -> (y: H2::Y) {
        self.h2.g(self.h1.g(x))
    }

    fn h(&self, x: X, s: [P; 3]) -> (y: H2::Y) {
        self.h2.h(self.h1.h(x, s[0]), [s[1], s[2]])
    }
}

impl<X, P: Scalar, H1: Homotopy<X, [P; 2]>, H2: Homotopy<H1::Y, [P; 2]>> Homotopy<
    X,
    [P; 4],
> for Compose<
    H1,
    H2,
    [P; 2],
    [P; 2],
> {
    type Y = H2::Y;

    open spec fn spec_f(&self, x: X) -> H2::Y {
        self.h2.spec_f(self.h1.spec_f(x))
    }

    open spec fn spec_g(&self, x: X) -> H2::Y {
        self.h2.spec_g(self.h1.spec_g(x))
    }

    open spec fn spec_h(&self, x: X, s: [P; 4]) -> H2::Y {
        self.h2.spec_h(self.h1.spec_h(x, [s[0], s[1]]), [s[2], s[3]])
    }

    fn f(&self, x: X) -> (y: H2::Y) {
        self.h2.f(self.h1.f(x))
    }

    fn g(&self, x: X) -> (y: H2::Y) {
        self.h2.g(self.h1.g(x))
    }

    fn h(&self, x: X, s: [P; 4]) -> (y: H2::Y) {
        self.h2.h(self.h1.h(x, [s[0], s[1]]), [s[2], s[3]])
    }
}

impl<X, P: Scalar, H1: Homotopy<X, [P; 3]>, H2: Homotopy<H1::Y, P>> Homotopy<X, [P; 4]> for Compose<
    H1,
    H2,
    [P; 3],
    P,
> {
    type Y = H2::Y;

    open spec fn spec_f(&self, x: X) -> H2::Y {
        self.h2.spec_f(self.h1.spec_f(x))
    }

    open spec fn spec_g(&self, x: X) -> H2::Y {
        self.h2.spec_g(self.h1.spec_g(x))
    }

    open spec fn spec_h(&self, x: X, s: [P; 4]) -> H2::Y {
        self.h2.spec_h(self.h1.spec_h(x, [s[0], s[1], s[2]]), s[3])
    }

    fn f(&self, x: X) -> (y: H2::Y) {
        self.h2.f(self.h1.f(x))
    }

    fn g(&self, x: X) -> (y: H2::Y) {
        self.h2.g(self.h1.g(x))
    }

    fn h(&self, x: X, s: [P; 4]) -> (y: H2::Y) {
        self.h2.h(self.h1.h(x, [s[0], s[1], s[2]]), s[3])
    }
}

impl<X, P: Scalar, H1: Homotopy<X, P>, H2: Homotopy<H1::Y, [P; 3]>> Homotopy<X, [P; 4]> for Compose<
    H1,
    H2,
    P,
    [P; 3],
> {
    type Y = H2::Y;

    open spec fn spec_f(&self, x: X) -> H2::Y {
        self.h2.spec_f(self.h1.spec_f(x))
    }

    open spec fn spec_g(&self, x: X) -> H2::Y {
        self.h2.spec_g(self.h1.spec_g(x))
    }

    open spec fn spec_h(&self, x: X, s: [P; 4]) -> H2::Y {
        self.h2.spec_h(self.h1.spec_h(x, s[0]), [s[1], s[2], s[3]])
    }

    fn f(&self, x: X) -> (y: H2::Y) {
        self.h2.f(self.h1.f(x))
    }

    fn g(&self, x: X) -> (y: H2::Y) {
        self.h2.g(self.h1.g(x))
    }

    fn h(&self, x: X, s: [P; 4]) -> (y: H2::Y) {
        self.h2.h(self.h1.h(x, s[0]), [s[1], s[2], s[3]])
    }
}

impl<X, P: Scalar, H1: Homotopy<X, [P; 4]>, H2: Homotopy<H1::Y, P>> Homotopy<X, [P; 5]> for Compose<
    H1,
    H2,
    [P; 4],
    P,
> {
    type Y = H2::Y;

    open spec fn spec_f(&self, x: X) -> H2::Y {
        self.h2.spec_f(self.h1.spec_f(x))
    }

    open spec fn spec_g(&self, x: X) -> H2::Y {
        self.h2.spec_g(self.h1.spec_g(x))
    }

    open spec fn spec_h(&self, x: X, s: [P; 5]) -> H2::Y {
        self.h2.spec_h(self.h1.spec_h(x, [s[0], s[1], s[2], s[3]]), s[4])
    }

    fn f(&self, x: X) -> (y: H2::Y) {
        self.h2.f(self.h1.f(x))
    }

    fn g(&self, x: X) -> (y: H2::Y) {
        self.h2.g(self.h1.g(x))
    }

    fn h(&self, x: X, s: [P; 5]) -> (y: H2::Y) {
        self.h2.h(self.h1.h(x, [s[0], s[1], s[2], s[3]]), s[4])
    }
}

} // verus!
