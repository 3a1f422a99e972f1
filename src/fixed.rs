//! An exact number type for parameters and values: fixed-point numbers with sixteen
//! fractional bits.
use vstd::prelude::*;

use crate::scalar::{linear_laws, unit_laws, Linear, Scalar};
use vstd::laws_eq::obeys_concrete_eq;

verus! {

/// The raw value of `1`.
pub const UNIT: i64 = 65536;

/// A fixed-point number: `Fixed(r)` stands for `r / 65536`.
///
/// Sums wrap around on overflow; products are rounded toward zero and wrap around too.
#[derive(Copy, Clone, Debug, Eq)]
pub struct Fixed(pub i64);

impl PartialEq for Fixed {
    fn eq(&self, other: &Fixed) -> (r: bool) {
        self.0 == other.0
    }
}

impl vstd::std_specs::cmp::PartialEqSpecImpl for Fixed {
    open spec fn obeys_eq_spec() -> bool {
        true
    }

    open spec fn eq_spec(&self, other: &Fixed) -> bool {
        self.0 == other.0
    }
}

/// `==` on fixed-point numbers is equality of values.
pub proof fn lemma_fixed_concrete_eq()
    ensures
        obeys_concrete_eq::<Fixed>(),
{
    reveal(obeys_concrete_eq);
}

/// The raw value of the product of the numbers with raw values `a` and `b`,
/// rounded toward zero and wrapped into `i64`.
pub open spec fn product_raw(a: i64, b: i64) -> i64 {
    let p = a as int * b as int;
    (if p >= 0 {
        p / (UNIT as int)
    } else {
        -((-p) / (UNIT as int))
    }) as i64
}

impl Scalar for Fixed {
    open spec fn spec_zero() -> Fixed {
        Fixed(0)
    }

    open spec fn spec_one() -> Fixed {
        Fixed(UNIT)
    }

    open spec fn spec_half() -> Fixed {
        Fixed((UNIT / 2) as i64)
    }

    open spec fn spec_complement(self) -> Fixed {
        Fixed(UNIT.wrapping_sub(self.0))
    }

    fn zero() -> (r: Fixed) {
        Fixed(0)
    }

    fn one() -> (r: Fixed) {
        Fixed(UNIT)
    }

    fn half() -> (r: Fixed) {
        Fixed(UNIT / 2)
    }

    fn is_zero(&self) -> (r: bool) {
        self.0 == 0
    }

    fn complement(&self) -> (r: Fixed) {
        Fixed(UNIT.wrapping_sub(self.0))
    }
}

impl Linear for Fixed {
    type Param = Fixed;

    open spec fn spec_scale(self, s: Fixed) -> Fixed {
        Fixed(product_raw(self.0, s.0))
    }

    open spec fn spec_plus(self, other: Fixed) -> Fixed {
        Fixed(self.0.wrapping_add(other.0))
    }

    fn scale(self, s: Fixed) -> (r: Fixed) {
        let a: i128 = self.0 as i128;
        let b: i128 = s.0 as i128;
        proof {
            assert(-0x8000_0000_0000_0000_0000_0000_0000_0000 < a * b
                < 0x8000_0000_0000_0000_0000_0000_0000_0000) by (nonlinear_arith)
                requires
                    -0x8000_0000_0000_0000 <= a < 0x8000_0000_0000_0000,
                    -0x8000_0000_0000_0000 <= b < 0x8000_0000_0000_0000,
            ;
        }
        let q: i128 = (a * b) / (UNIT as i128);
        Fixed(#[verifier::truncate] (q as i64))
    }

    fn plus(self, other: Fixed) -> (r: Fixed) {
        Fixed(self.0.wrapping_add(other.0))
    }
}

/// Fixed-point numbers satisfy the unit and linear laws, so every primitive over them is a
/// homotopy.
pub proof fn lemma_fixed_laws()
    ensures
        unit_laws::<Fixed>(),
        linear_laws::<Fixed>(),
{
    assert forall|a: Fixed| #[trigger] a.spec_scale(Fixed::spec_one()) == a by {
        let p = a.0 as int * UNIT as int;
        if p >= 0 {
            assert(p / (UNIT as int) == a.0) by (nonlinear_arith)
                requires
                    p == a.0 as int * 65536,
            ;
        } else {
            assert((-p) / (UNIT as int) == -a.0) by (nonlinear_arith)
                requires
                    p == a.0 as int * 65536,
            ;
        }
    }
    assert forall|a: Fixed, b: Fixed|
        #[trigger] a.spec_plus(b.spec_scale(Fixed::spec_zero())) == a by {
        assert(b.0 as int * 0 == 0);
    }
    assert forall|a: Fixed, b: Fixed|
        #[trigger] a.spec_scale(Fixed::spec_zero()).spec_plus(b) == b by {
        assert(a.0 as int * 0 == 0);
    }
}

/// On fixed-point numbers `1 - (1 - s) == s` for every `s`, so inverting a homotopy over
/// them twice gives back the same map everywhere.
pub proof fn lemma_fixed_complement_involution(s: Fixed)
    ensures
        s.spec_complement().spec_complement() == s,
{
}

} // verus!
