//! The primitive homotopies: identity, step functions and Bezier interpolation.
use vstd::prelude::*;

use crate::scalar::{lerp_spec, Linear, Scalar};
use crate::Homotopy;
use core::marker::PhantomData;

verus! {

/// Identity homotopy.
///
/// `f`, `g` and `h` use the identity function, so this is a homotopy.
#[derive(Copy, Clone)]
pub struct Id;

impl<X, P: Scalar> Homotopy<X, P> for Id {
    type Y = X;

    open spec fn spec_f(&self, x: X) -> X {
        x
    }

    open spec fn spec_g(&self, x: X) -> X {
        x
    }

    open spec fn spec_h(&self, x: X, s: P) -> X {
        x
    }

    fn f(&self, x: X) -> (y: X) {
        x
    }

    fn g(&self, x: X) -> (y: X) {
        x
    }

    fn h(&self, x: X, s: P) -> (y: X) {
        x
    }
}

/// The Dirac function: `1` at `0` and `0` everywhere else.
#[derive(Copy, Clone)]
pub struct Dirac;

impl<P: Scalar> Homotopy<(), P> for Dirac {
    type Y = P;

    open spec fn spec_f(&self, x: ()) -> P {
        P::spec_one()
    }

    open spec fn spec_g(&self, x: ()) -> P {
        P::spec_zero()
    }

    open spec fn spec_h(&self, x: (), s: P) -> P {
        if s == P::spec_zero() {
            P::spec_one()
        } else {
            P::spec_zero()
        }
    }

    fn f(&self, x: ()) -> (y: P) {
        P::one()
    }

    fn g(&self, x: ()) -> (y: P) {
        P::zero()
    }

    fn h(&self, x: (), s: P) -> (y: P) {
        if s.is_zero() {
            P::one()
        } else {
            P::zero()
        }
    }
}

/// Dirac From homotopy.
///
/// Define `h` to be `f` at `0` and `g` elsewhere.
/// Since `h` is `g` at `1`, this is a homotopy.
///
/// Both functions must accept every input and give one result for each.
#[verifier::reject_recursive_types(X)]
#[verifier::reject_recursive_types(Y)]
pub struct DiracFrom<X, Y, F, G> where F: Fn(X) -> Y, G: Fn(X) -> Y {
    fx: F,
    gx: G,
    _x: PhantomData<X>,
    _y: PhantomData<Y>,
}

/// `fun` accepts every input and gives one result for each.
pub open spec fn is_function<X, Y, F: Fn(X) -> Y>(fun: F) -> bool {
    &&& forall|x: X| #[trigger] call_requires(fun, (x,))
    &&& forall|x: X, a: Y, b: Y|
        #[trigger] call_ensures(fun, (x,), a) && #[trigger] call_ensures(fun, (x,), b) ==> a == b
}

/// The result of `fun` at `x`.
pub open spec fn apply<X, Y, F: Fn(X) -> Y>(fun: F, x: X) -> Y {
    choose|y: Y| call_ensures(fun, (x,), y)
}

impl<X, Y, F, G> DiracFrom<X, Y, F, G> where F: Fn(X) -> Y, G: Fn(X) -> Y {
    #[verifier::type_invariant]
    spec fn inv(self) -> bool {
        is_function(self.fx) && is_function(self.gx)
    }

    /// The function being mapped from.
    pub closed spec fn from_fn(self) -> F {
        self.fx
    }

    /// The function being mapped to.
    pub closed spec fn to_fn(self) -> G {
        self.gx
    }

    /// Creates a new `DiracFrom`.
    pub fn new(f: F, g: G) -> (r: DiracFrom<X, Y, F, G>)
        requires
            is_function(f),
            is_function(g),
        ensures
            r.from_fn() == f,
            r.to_fn() == g,
    {
        DiracFrom { fx: f, gx: g, _x: PhantomData, _y: PhantomData }
    }

    fn call_f(&self, x: X) -> (y: Y)
        ensures
            y == apply(self.from_fn(), x),
    {
        proof {
            use_type_invariant(self);
        }
        (self.fx)(x)
    }

    fn call_g(&self, x: X) -> (y: Y)
        ensures
            y == apply(self.to_fn(), x),
    {
        proof {
            use_type_invariant(self);
        }
        (self.gx)(x)
    }
}

impl<X, Y, F, G, P: Scalar> Homotopy<X, P> for DiracFrom<X, Y, F, G> where
    F: Fn(X) -> Y,
    G: Fn(X) -> Y,
 {
    type Y = Y;

    open spec fn spec_f(&self, x: X) -> Y {
        apply(self.from_fn(), x)
    }

    open spec fn spec_g(&self, x: X) -> Y {
        apply(self.to_fn(), x)
    }

    open spec fn spec_h(&self, x: X, s: P) -> Y {
        if s == P::spec_zero() {
            apply(self.from_fn(), x)
        } else {
            apply(self.to_fn(), x)
        }
    }

    fn f(&self, x: X) -> (y: Y) {
        self.call_f(x)
    }

    fn g(&self, x: X) -> (y: Y) {
        self.call_g(x)
    }

    fn h(&self, x: X, s: P) -> (y: Y) {
        if s.is_zero() {
            self.call_f(x)
        } else {
            self.call_g(x)
        }
    }
}

/// Linear interpolation homotopy.
///
/// `f` and `g` are functions mapping `()` to a value.
/// The scalar passed to `h` controls the linear map.
#[derive(Copy, Clone)]
pub struct Lerp<Y>(pub Y, pub Y);

impl<Y: Linear> Homotopy<(), Y::Param> for Lerp<Y> {
    type Y = Y;

    open spec fn spec_f(&self, x: ()) -> Y {
        self.0
    }

    open spec fn spec_g(&self, x: ()) -> Y {
        self.1
    }

    open spec fn spec_h(&self, x: (), s: Y::Param) -> Y {
        lerp_spec(self.0, self.1, s)
    }

    fn f(&self, x: ()) -> (y: Y) {
        self.0
    }

    fn g(&self, x: ()) -> (y: Y) {
        self.1
    }

    fn h(&self, x: (), s: Y::Param) -> (y: Y) {
        self.0.scale(s.complement()).plus(self.1.scale(s))
    }
}

/// Quadratic Bezier homotopy.
///
/// Maps from point A to C using a point B as control point.
#[derive(Copy, Clone)]
pub struct QuadraticBezier<Y>(pub Y, pub Y, pub Y);

/// The midpoint `a * 0.5 + b * 0.5` of two values.
pub open spec fn midpoint<Y: Linear>(a: Y, b: Y) -> Y {
    a.spec_scale(Y::Param::spec_half()).spec_plus(b.spec_scale(Y::Param::spec_half()))
}

impl<Y: Linear> QuadraticBezier<Y> {
    /// Creates a quadratic bezier that is identical to linear interpolation.
    ///
    /// The control point is the midpoint `a * 0.5 + b * 0.5`.
    pub fn from_linear(a: Y, b: Y) -> (r: QuadraticBezier<Y>)
        ensures
            r == QuadraticBezier(a, midpoint(a, b), b),
    {
        QuadraticBezier(a, a.scale(Y::Param::half()).plus(b.scale(Y::Param::half())), b)
    }
}

impl<Y: Linear> From<Lerp<Y>> for QuadraticBezier<Y> {
    fn from(lerp: Lerp<Y>) -> (r: QuadraticBezier<Y>) {
        QuadraticBezier::from_linear(lerp.0, lerp.1)
    }
}

impl<Y: Linear> vstd::std_specs::convert::FromSpecImpl<Lerp<Y>> for QuadraticBezier<Y> {
    open spec fn obeys_from_spec() -> bool {
        true
    }

    open spec fn from_spec(lerp: Lerp<Y>) -> QuadraticBezier<Y> {
        QuadraticBezier(lerp.0, midpoint(lerp.0, lerp.1), lerp.1)
    }
}

impl<Y: Linear> Homotopy<(), Y::Param> for QuadraticBezier<Y> {
    type Y = Y;

    open spec fn spec_f(&self, x: ()) -> Y {
        self.0
    }

    open spec fn spec_g(&self, x: ()) -> Y {
        self.2
    }

    open spec fn spec_h(&self, x: (), s: Y::Param) -> Y {
        lerp_spec(lerp_spec(self.0, self.1, s), lerp_spec(self.1, self.2, s), s)
    }

    fn f(&self, x: ()) -> (y: Y) {
        self.0
    }

    fn g(&self, x: ()) -> (y: Y) {
        self.2
    }

    fn h(&self, x: (), s: Y::Param) -> (y: Y) {
        let a = Lerp(self.0, self.1).h((), s);
        let b = Lerp(self.1, self.2).h((), s);
        Lerp(a, b).h((), s)
    }
}

/// Cubic Bezier homotopy.
///
/// Maps from point A to D using point B and C as control points.
/// `h` blends `lerp(A, B, s)` with `lerp(C, D, s)`: one level of blending fewer than the
/// usual three-level construction of a cubic Bezier curve.
#[derive(Copy, Clone)]
pub struct CubicBezier<Y>(pub Y, pub Y, pub Y, pub Y);

impl<Y: Copy> CubicBezier<Y> {
    /// Creates a cubic bezier that is identical to quadratic bezier.
    pub fn from_quadratic(a: Y, b: Y, c: Y) -> (r: CubicBezier<Y>)
        ensures
            r == CubicBezier(a, b, b, c),
    {
        CubicBezier(a, b, b, c)
    }
}

impl<Y: Copy> From<QuadraticBezier<Y>> for CubicBezier<Y> {
    fn from(q: QuadraticBezier<Y>) -> (r: CubicBezier<Y>) {
        CubicBezier::from_quadratic(q.0, q.1, q.2)
    }
}

impl<Y: Copy> vstd::std_specs::convert::FromSpecImpl<QuadraticBezier<Y>> for CubicBezier<Y> {
    open spec fn obeys_from_spec() -> bool {
        true
    }

    open spec fn from_spec(q: QuadraticBezier<Y>) -> CubicBezier<Y> {
        CubicBezier(q.0, q.1, q.1, q.2)
    }
}

impl<Y: Linear> Homotopy<(), Y::Param> for CubicBezier<Y> {
    type Y = Y;

    open spec fn spec_f(&self, x: ()) -> Y {
        self.0
    }

    open spec fn spec_g(&self, x: ()) -> Y {
        self.3
    }

    open spec fn spec_h(&self, x: (), s: Y::Param) -> Y {
        lerp_spec(lerp_spec(self.0, self.1, s), lerp_spec(self.2, self.3, s), s)
    }

    fn f(&self, x: ()) -> (y: Y) {
        self.0
    }

    fn g(&self, x: ()) -> (y: Y) {
        self.3
    }

    fn h(&self, x: (), s: Y::Param) -> (y: Y) {
        let a = Lerp(self.0, self.1).h((), s);
        let b = Lerp(self.2, self.3).h((), s);
        Lerp(a, b).h((), s)
    }
}

} // verus!
