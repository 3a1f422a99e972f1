//! The numbers a homotopy is built from: parameter values and the values it interpolates.
use vstd::prelude::*;

verus! {

/// A parameter value of a homotopy, meant to range over the unit interval.
///
/// The algebra needs the interval's endpoints `0` and `1`, its midpoint, a test for `0`
/// and the reflection `s -> 1 - s`; nothing else about the number type is assumed.
pub trait Scalar: Copy + Sized {
    /// The value `0`.
    spec fn spec_zero() -> Self;

    /// The value `1`.
    spec fn spec_one() -> Self;

    /// The value `0.5`.
    spec fn spec_half() -> Self;

    /// The value `1 - self`.
    spec fn spec_complement(self) -> Self;

    /// Returns `0`.
    fn zero() -> (r: Self)
        ensures
            r == Self::spec_zero(),
    ;

    /// Returns `1`.
    fn one() -> (r: Self)
        ensures
            r == Self::spec_one(),
    ;

    /// Returns `0.5`.
    fn half() -> (r: Self)
        ensures
            r == Self::spec_half(),
    ;

    /// Whether `self` is `0`.
    fn is_zero(&self) -> (r: bool)
        ensures
            r == (*self == Self::spec_zero()),
    ;

    /// Returns `1 - self`.
    fn complement(&self) -> (r: Self)
        ensures
            r == self.spec_complement(),
    ;
}

/// The endpoints of the unit interval are distinct and `s -> 1 - s` swaps them.
pub open spec fn unit_laws<P: Scalar>() -> bool {
    &&& P::spec_zero() != P::spec_one()
    &&& P::spec_zero().spec_complement() == P::spec_one()
    &&& P::spec_one().spec_complement() == P::spec_zero()
}

/// A value that can be scaled by a parameter and added to another value of its type.
pub trait Linear: Copy + Sized {
    /// The parameter type that scales values of this type.
    type Param: Scalar;

    /// The value `self * s`.
    spec fn spec_scale(self, s: Self::Param) -> Self;

    /// The value `self + other`.
    spec fn spec_plus(self, other: Self) -> Self;

    /// Returns `self * s`.
    fn scale(self, s: Self::Param) -> (r: Self)
        ensures
            r == self.spec_scale(s),
    ;

    /// Returns `self + other`.
    fn plus(self, other: Self) -> (r: Self)
        ensures
            r == self.spec_plus(other),
    ;
}

/// Linear interpolation from `a` to `b`: `a * (1 - s) + b * s`.
pub open spec fn lerp_spec<Y: Linear>(a: Y, b: Y, s: Y::Param) -> Y {
    a.spec_scale(s.spec_complement()).spec_plus(b.spec_scale(s))
}

/// Scaling by `1` keeps a value, and a value scaled by `0` is neutral on either side of `+`.
pub open spec fn linear_laws<Y: Linear>() -> bool {
    &&& forall|a: Y| #[trigger] a.spec_scale(Y::Param::spec_one()) == a
    &&& forall|a: Y, b: Y| #[trigger] a.spec_plus(b.spec_scale(Y::Param::spec_zero())) == a
    &&& forall|a: Y, b: Y| #[trigger] a.spec_scale(Y::Param::spec_zero()).spec_plus(b) == b
}

/// Under the unit and linear laws, interpolation starts at `a` and ends at `b`.
pub proof fn lemma_lerp_ends<Y: Linear>(a: Y, b: Y)
    requires
        unit_laws::<Y::Param>(),
        linear_laws::<Y>(),
    ensures
        lerp_spec(a, b, Y::Param::spec_zero()) == a,
        lerp_spec(a, b, Y::Param::spec_one()) == b,
{
    assert(a.spec_scale(Y::Param::spec_one()) == a);
    assert(a.spec_plus(b.spec_scale(Y::Param::spec_zero())) == a);
    assert(a.spec_scale(Y::Param::spec_zero()).spec_plus(b.spec_scale(Y::Param::spec_one()))
        == b.spec_scale(Y::Param::spec_one()));
}

} // verus!
