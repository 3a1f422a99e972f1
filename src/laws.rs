//! The laws of the algebra: every combinator builds a homotopy from homotopies, faces of a
//! homotopy are homotopies, and the stated reductions between primitives hold.
use vstd::prelude::*;

use crate::combinators::{AsVec, Compose, Cube, Inverse, Square};
use crate::compose;
use crate::primitives::{midpoint, CubicBezier, Dirac, DiracFrom, Id, Lerp, QuadraticBezier};
use crate::scalar::{lemma_lerp_ends, Linear, Scalar, linear_laws, unit_laws};
use crate::sides::{
    Back, Bottom, Diagonal, Front, FrontBack, Future, Left, LeftRight, Past, PastFuture, Right,
    Top, TopBottom,
};
use crate::{
    Homotopy, is_homotopy, is_homotopy2, is_homotopy2_at, is_homotopy3, is_homotopy3_at,
    is_homotopy4, is_homotopy4_at, is_homotopy5, is_homotopy5_at, is_homotopy_at,
};

verus! {

/// The identity is a homotopy.
pub proof fn lemma_id_is_homotopy<X, P: Scalar>()
    ensures
        is_homotopy::<X, P, Id>(Id),
{
}

/// Over parameters that obey the unit laws, the Dirac function is a homotopy: it is `1`
/// at `0` and `0` at `1`.
pub proof fn lemma_dirac_is_homotopy<P: Scalar>()
    requires
        unit_laws::<P>(),
    ensures
        is_homotopy::<(), P, Dirac>(Dirac),
{
}

/// Over parameters that obey the unit laws, a Dirac From homotopy is a homotopy: `h` is
/// `f` at `0` and `g` at `1`.
pub proof fn lemma_dirac_from_is_homotopy<
    X,
    Y,
    F: Fn(X) -> Y,
    G: Fn(X) -> Y,
    P: Scalar,
>(d: DiracFrom<X, Y, F, G>)
    requires
        unit_laws::<P>(),
    ensures
        is_homotopy::<X, P, DiracFrom<X, Y, F, G>>(d),
{
}

/// Where the unit and linear laws hold, linear interpolation is a homotopy from its first
/// point to its second.
pub proof fn lemma_lerp_is_homotopy<Y: Linear>(l: Lerp<Y>)
    requires
        unit_laws::<Y::Param>(),
        linear_laws::<Y>(),
    ensures
        is_homotopy::<(), Y::Param, Lerp<Y>>(l),
{
    lemma_lerp_ends(l.0, l.1);
}

/// Where the unit and linear laws hold, a quadratic Bezier curve is a homotopy from its
/// first point to its last.
pub proof fn lemma_quadratic_bezier_is_homotopy<Y: Linear>(q: QuadraticBezier<Y>)
    requires
        unit_laws::<Y::Param>(),
        linear_laws::<Y>(),
    ensures
        is_homotopy::<(), Y::Param, QuadraticBezier<Y>>(q),
{
    lemma_lerp_ends(q.0, q.1);
    lemma_lerp_ends(q.1, q.2);
    lemma_lerp_ends(q.0, q.2);
}

/// Where the unit and linear laws hold, a cubic Bezier curve is a homotopy from its first
/// point to its last.
pub proof fn lemma_cubic_bezier_is_homotopy<Y: Linear>(c: CubicBezier<Y>)
    requires
        unit_laws::<Y::Param>(),
        linear_laws::<Y>(),
    ensures
        is_homotopy::<(), Y::Param, CubicBezier<Y>>(c),
{
    lemma_lerp_ends(c.0, c.1);
    lemma_lerp_ends(c.2, c.3);
    lemma_lerp_ends(c.0, c.3);
}

/// The composition of two homotopies over one parameter is a homotopy.
pub proof fn lemma_compose_is_homotopy<
    X,
    P: Scalar,
    H1: Homotopy<X, P>,
    H2: Homotopy<H1::Y, P>,
>(c: Compose<X, H1, H2>)
    requires
        is_homotopy(c.h1),
        is_homotopy(c.h2),
    ensures
        is_homotopy::<X, P, Compose<X, H1, H2>>(c),
{
    assert forall|x: X| #[trigger] is_homotopy_at::<X, P, Compose<X, H1, H2>>(c, x) by {
        assert(is_homotopy_at(c.h1, x));
        assert(is_homotopy_at(c.h2, c.h1.spec_f(x)));
        assert(is_homotopy_at(c.h2, c.h1.spec_g(x)));
    }
}

/// The square of two homotopies is a 2-parameter homotopy.
pub proof fn lemma_square_is_homotopy<
    X1,
    X2,
    P: Scalar,
    H1: Homotopy<X1, P>,
    H2: Homotopy<X2, P>,
>(sq: Square<X1, X2, H1, H2>)
    requires
        is_homotopy(sq.h1),
        is_homotopy(sq.h2),
    ensures
        is_homotopy2::<(X1, X2), P, Square<X1, X2, H1, H2>>(sq),
{
    assert forall|x: (X1, X2)| #[trigger]
        is_homotopy2_at::<(X1, X2), P, Square<X1, X2, H1, H2>>(sq, x) by {
        assert(is_homotopy_at(sq.h1, x.0));
        assert(is_homotopy_at(sq.h2, x.1));
    }
}

/// The cube of three homotopies is a 3-parameter homotopy.
pub proof fn lemma_cube_is_homotopy<
    X1,
    X2,
    X3,
    P: Scalar,
    H1: Homotopy<X1, P>,
    H2: Homotopy<X2, P>,
    H3: Homotopy<X3, P>,
>(c: Cube<X1, X2, X3, H1, H2, H3>)
    requires
        is_homotopy(c.h1),
        is_homotopy(c.h2),
        is_homotopy(c.h3),
    ensures
        is_homotopy3::<(X1, X2, X3), P, Cube<X1, X2, X3, H1, H2, H3>>(c),
{
    assert forall|x: (X1, X2, X3)| #[trigger]
        is_homotopy3_at::<(X1, X2, X3), P, Cube<X1, X2, X3, H1, H2, H3>>(c, x) by {
        assert(is_homotopy_at(c.h1, x.0));
        assert(is_homotopy_at(c.h2, x.1));
        assert(is_homotopy_at(c.h3, x.2));
    }
}

/// Over parameters that obey the unit laws, the inverse of a homotopy is a homotopy, from
/// its `g` to its `f`.
pub proof fn lemma_inverse_is_homotopy<X, P: Scalar, T: Homotopy<X, P>>(t: T)
    requires
        unit_laws::<P>(),
        is_homotopy(t),
    ensures
        is_homotopy::<X, P, Inverse<T>>(Inverse(t)),
{
    assert forall|x: X| #[trigger] is_homotopy_at::<X, P, Inverse<T>>(Inverse(t), x) by {
        assert(is_homotopy_at(t, x));
    }
}

/// Inverting twice gives back the same `f` and `g`, and the same `h` at every `s` where
/// `1 - (1 - s) == s`.
pub proof fn lemma_inverse_inverse<X, P: Scalar, T: Homotopy<X, P>>(t: T, x: X, s: P)
    ensures
        Inverse(Inverse(t)).spec_f(x) == t.spec_f(x),
        Inverse(Inverse(t)).spec_g(x) == t.spec_g(x),
        s.spec_complement().spec_complement() == s ==> Inverse(Inverse(t)).spec_h(x, s)
            == t.spec_h(x, s),
{
}

/// The array form of a 2-parameter homotopy over pairs is a homotopy.
pub proof fn lemma_as_vec2_is_homotopy<
    X: Copy,
    Y,
    P: Scalar,
    T: Homotopy<(X, X), [P; 2], Y = (Y, Y)>,
>(t: T)
    requires
        is_homotopy2(t),
    ensures
        is_homotopy2::<[X; 2], P, AsVec<T>>(AsVec(t)),
{
    assert forall|x: [X; 2]| #[trigger] is_homotopy2_at::<[X; 2], P, AsVec<T>>(AsVec(t), x) by {
        assert(is_homotopy2_at(t, (x[0], x[1])));
    }
}

/// The array form of a 3-parameter homotopy over triples is a homotopy.
pub proof fn lemma_as_vec3_is_homotopy<
    X: Copy,
    Y,
    P: Scalar,
    T: Homotopy<(X, X, X), [P; 3], Y = (Y, Y, Y)>,
>(t: T)
    requires
        is_homotopy3(t),
    ensures
        is_homotopy3::<[X; 3], P, AsVec<T>>(AsVec(t)),
{
    assert forall|x: [X; 3]| #[trigger] is_homotopy3_at::<[X; 3], P, AsVec<T>>(AsVec(t), x) by {
        assert(is_homotopy3_at(t, (x[0], x[1], x[2])));
    }
}

/// The diagonal of a 2-parameter homotopy is a homotopy.
pub proof fn lemma_diagonal2_is_homotopy<
    X,
    P: Scalar,
    T: Homotopy<X, [P; 2]>,
>(d: Diagonal<T, [P; 2]>)
    requires
        is_homotopy2(d.shape),
    ensures
        is_homotopy::<X, P, Diagonal<T, [P; 2]>>(d),
{
    assert forall|x: X| #[trigger] is_homotopy_at::<X, P, Diagonal<T, [P; 2]>>(d, x) by {
        assert(is_homotopy2_at(d.shape, x));
    }
}

/// The diagonal of a 3-parameter homotopy is a homotopy.
pub proof fn lemma_diagonal3_is_homotopy<
    X,
    P: Scalar,
    T: Homotopy<X, [P; 3]>,
>(d: Diagonal<T, [P; 3]>)
    requires
        is_homotopy3(d.shape),
    ensures
        is_homotopy::<X, P, Diagonal<T, [P; 3]>>(d),
{
    assert forall|x: X| #[trigger] is_homotopy_at::<X, P, Diagonal<T, [P; 3]>>(d, x) by {
        assert(is_homotopy3_at(d.shape, x));
    }
}

/// The diagonal of a 4-parameter homotopy is a homotopy.
pub proof fn lemma_diagonal4_is_homotopy<
    X,
    P: Scalar,
    T: Homotopy<X, [P; 4]>,
>(d: Diagonal<T, [P; 4]>)
    requires
        is_homotopy4(d.shape),
    ensures
        is_homotopy::<X, P, Diagonal<T, [P; 4]>>(d),
{
    assert forall|x: X| #[trigger] is_homotopy_at::<X, P, Diagonal<T, [P; 4]>>(d, x) by {
        assert(is_homotopy4_at(d.shape, x));
    }
}

/// At an input where a 2-parameter homotopy starts and ends as it should, each of its
/// four sides does too.
pub proof fn lemma_faces2_at<X, P: Scalar, T: Homotopy<X, [P; 2]>>(t: T, x: X)
    requires
        is_homotopy2_at(t, x),
    ensures
        is_homotopy_at::<X, P, Left<T>>(Left(t), x),
        is_homotopy_at::<X, P, Right<T>>(Right(t), x),
        is_homotopy_at::<X, P, Top<T>>(Top(t), x),
        is_homotopy_at::<X, P, Bottom<T>>(Bottom(t), x),
{
}

/// Each of the four sides of a 2-parameter homotopy is a 1-parameter homotopy.
pub proof fn lemma_faces2<X, P: Scalar, T: Homotopy<X, [P; 2]>>(t: T)
    requires
        is_homotopy2(t),
    ensures
        is_homotopy::<X, P, Left<T>>(Left(t)),
        is_homotopy::<X, P, Right<T>>(Right(t)),
        is_homotopy::<X, P, Top<T>>(Top(t)),
        is_homotopy::<X, P, Bottom<T>>(Bottom(t)),
{
    assert forall|x: X| #[trigger] is_homotopy_at::<X, P, Left<T>>(Left(t), x) by {
        assert(is_homotopy2_at(t, x));
    }
    assert forall|x: X| #[trigger] is_homotopy_at::<X, P, Right<T>>(Right(t), x) by {
        assert(is_homotopy2_at(t, x));
    }
    assert forall|x: X| #[trigger] is_homotopy_at::<X, P, Top<T>>(Top(t), x) by {
        assert(is_homotopy2_at(t, x));
    }
    assert forall|x: X| #[trigger] is_homotopy_at::<X, P, Bottom<T>>(Bottom(t), x) by {
        assert(is_homotopy2_at(t, x));
    }
}

/// At an input where a 3-parameter homotopy starts and ends as it should, each of its
/// six sides does too.
pub proof fn lemma_faces3_at<X, P: Scalar, T: Homotopy<X, [P; 3]>>(t: T, x: X)
    requires
        is_homotopy3_at(t, x),
    ensures
        is_homotopy2_at::<X, P, Left<T>>(Left(t), x),
        is_homotopy2_at::<X, P, Right<T>>(Right(t), x),
        is_homotopy2_at::<X, P, Top<T>>(Top(t), x),
        is_homotopy2_at::<X, P, Bottom<T>>(Bottom(t), x),
        is_homotopy2_at::<X, P, Front<T>>(Front(t), x),
        is_homotopy2_at::<X, P, Back<T>>(Back(t), x),
{
}

/// Each of the six sides of a 3-parameter homotopy is a 2-parameter homotopy.
pub proof fn lemma_faces3<X, P: Scalar, T: Homotopy<X, [P; 3]>>(t: T)
    requires
        is_homotopy3(t),
    ensures
        is_homotopy2::<X, P, Left<T>>(Left(t)),
        is_homotopy2::<X, P, Right<T>>(Right(t)),
        is_homotopy2::<X, P, Top<T>>(Top(t)),
        is_homotopy2::<X, P, Bottom<T>>(Bottom(t)),
        is_homotopy2::<X, P, Front<T>>(Front(t)),
        is_homotopy2::<X, P, Back<T>>(Back(t)),
{
    assert forall|x: X| #[trigger] is_homotopy2_at::<X, P, Left<T>>(Left(t), x) by {
        assert(is_homotopy3_at(t, x));
    }
    assert forall|x: X| #[trigger] is_homotopy2_at::<X, P, Right<T>>(Right(t), x) by {
        assert(is_homotopy3_at(t, x));
    }
    assert forall|x: X| #[trigger] is_homotopy2_at::<X, P, Top<T>>(Top(t), x) by {
        assert(is_homotopy3_at(t, x));
    }
    assert forall|x: X| #[trigger] is_homotopy2_at::<X, P, Bottom<T>>(Bottom(t), x) by {
        assert(is_homotopy3_at(t, x));
    }
    assert forall|x: X| #[trigger] is_homotopy2_at::<X, P, Front<T>>(Front(t), x) by {
        assert(is_homotopy3_at(t, x));
    }
    assert forall|x: X| #[trigger] is_homotopy2_at::<X, P, Back<T>>(Back(t), x) by {
        assert(is_homotopy3_at(t, x));
    }
}

/// At an input where a 4-parameter homotopy starts and ends as it should, each of its
/// eight sides does too.
pub proof fn lemma_faces4_at<X, P: Scalar, T: Homotopy<X, [P; 4]>>(t: T, x: X)
    requires
        is_homotopy4_at(t, x),
    ensures
        is_homotopy3_at::<X, P, Left<T>>(Left(t), x),
        is_homotopy3_at::<X, P, Right<T>>(Right(t), x),
        is_homotopy3_at::<X, P, Top<T>>(Top(t), x),
        is_homotopy3_at::<X, P, Bottom<T>>(Bottom(t), x),
        is_homotopy3_at::<X, P, Front<T>>(Front(t), x),
        is_homotopy3_at::<X, P, Back<T>>(Back(t), x),
        is_homotopy3_at::<X, P, Past<T>>(Past(t), x),
        is_homotopy3_at::<X, P, Future<T>>(Future(t), x),
{
}

/// Each of the eight sides of a 4-parameter homotopy is a 3-parameter homotopy.
pub proof fn lemma_faces4<X, P: Scalar, T: Homotopy<X, [P; 4]>>(t: T)
    requires
        is_homotopy4(t),
    ensures
        is_homotopy3::<X, P, Left<T>>(Left(t)),
        is_homotopy3::<X, P, Right<T>>(Right(t)),
        is_homotopy3::<X, P, Top<T>>(Top(t)),
        is_homotopy3::<X, P, Bottom<T>>(Bottom(t)),
        is_homotopy3::<X, P, Front<T>>(Front(t)),
        is_homotopy3::<X, P, Back<T>>(Back(t)),
        is_homotopy3::<X, P, Past<T>>(Past(t)),
        is_homotopy3::<X, P, Future<T>>(Future(t)),
{
    assert forall|x: X| #[trigger] is_homotopy3_at::<X, P, Left<T>>(Left(t), x) by {
        assert(is_homotopy4_at(t, x));
    }
    assert forall|x: X| #[trigger] is_homotopy3_at::<X, P, Right<T>>(Right(t), x) by {
        assert(is_homotopy4_at(t, x));
    }
    assert forall|x: X| #[trigger] is_homotopy3_at::<X, P, Top<T>>(Top(t), x) by {
        assert(is_homotopy4_at(t, x));
    }
    assert forall|x: X| #[trigger] is_homotopy3_at::<X, P, Bottom<T>>(Bottom(t), x) by {
        assert(is_homotopy4_at(t, x));
    }
    assert forall|x: X| #[trigger] is_homotopy3_at::<X, P, Front<T>>(Front(t), x) by {
        assert(is_homotopy4_at(t, x));
    }
    assert forall|x: X| #[trigger] is_homotopy3_at::<X, P, Back<T>>(Back(t), x) by {
        assert(is_homotopy4_at(t, x));
    }
    assert forall|x: X| #[trigger] is_homotopy3_at::<X, P, Past<T>>(Past(t), x) by {
        assert(is_homotopy4_at(t, x));
    }
    assert forall|x: X| #[trigger] is_homotopy3_at::<X, P, Future<T>>(Future(t), x) by {
        assert(is_homotopy4_at(t, x));
    }
}

/// Every cross-section of a 2-parameter homotopy is a 1-parameter homotopy: it takes
/// its `f` and `g` from the parent's `h`.
pub proof fn lemma_cross_sections2<X, P: Scalar, T: Homotopy<X, [P; 2]>>(t: T, c: P)
    ensures
        is_homotopy::<X, P, LeftRight<T, P>>(LeftRight(t, c)),
        is_homotopy::<X, P, TopBottom<T, P>>(TopBottom(t, c)),
{
}

/// Every cross-section of a 3-parameter homotopy is a 2-parameter homotopy: it takes
/// its `f` and `g` from the parent's `h`.
pub proof fn lemma_cross_sections3<X, P: Scalar, T: Homotopy<X, [P; 3]>>(t: T, c: P)
    ensures
        is_homotopy2::<X, P, LeftRight<T, P>>(LeftRight(t, c)),
        is_homotopy2::<X, P, TopBottom<T, P>>(TopBottom(t, c)),
        is_homotopy2::<X, P, FrontBack<T, P>>(FrontBack(t, c)),
{
}

/// Every cross-section of a 4-parameter homotopy is a 3-parameter homotopy: it takes
/// its `f` and `g` from the parent's `h`.
pub proof fn lemma_cross_sections4<X, P: Scalar, T: Homotopy<X, [P; 4]>>(t: T, c: P)
    ensures
        is_homotopy3::<X, P, LeftRight<T, P>>(LeftRight(t, c)),
        is_homotopy3::<X, P, TopBottom<T, P>>(TopBottom(t, c)),
        is_homotopy3::<X, P, FrontBack<T, P>>(FrontBack(t, c)),
        is_homotopy3::<X, P, PastFuture<T, P>>(PastFuture(t, c)),
{
}

/// Composing a 1-parameter homotopy with a 1-parameter one gives a 2-parameter homotopy.
pub proof fn lemma_compose_1_1_is_homotopy<
    X,
    P: Scalar,
    H1: Homotopy<X, P>,
    H2: Homotopy<H1::Y, P>,
>(c: compose::Compose<H1, H2, P, P>)
    requires
        is_homotopy(c.h1),
        is_homotopy(c.h2),
    ensures
        is_homotopy2::<X, P, compose::Compose<H1, H2, P, P>>(c),
{
    assert forall|x: X|
        #[trigger] is_homotopy2_at::<X, P, compose::Compose<H1, H2, P, P>>(c, x) by {
        assert(is_homotopy_at(c.h1, x));
        assert(is_homotopy_at(c.h2, c.h1.spec_f(x)));
        assert(is_homotopy_at(c.h2, c.h1.spec_g(x)));
    }
}

/// Composing a 2-parameter homotopy with a 1-parameter one gives a 3-parameter homotopy.
pub proof fn lemma_compose_2_1_is_homotopy<
    X,
    P: Scalar,
    H1: Homotopy<X, [P; 2]>,
    H2: Homotopy<H1::Y, P>,
>(c: compose::Compose<H1, H2, [P; 2], P>)
    requires
        is_homotopy2(c.h1),
        is_homotopy(c.h2),
    ensures
        is_homotopy3::<X, P, compose::Compose<H1, H2, [P; 2], P>>(c),
{
    assert forall|x: X|
        #[trigger] is_homotopy3_at::<X, P, compose::Compose<H1, H2, [P; 2], P>>(c, x) by {
        assert(is_homotopy2_at(c.h1, x));
        assert(is_homotopy_at(c.h2, c.h1.spec_f(x)));
        assert(is_homotopy_at(c.h2, c.h1.spec_g(x)));
    }
}

/// Composing a 1-parameter homotopy with a 2-parameter one gives a 3-parameter homotopy.
pub proof fn lemma_compose_1_2_is_homotopy<
    X,
    P: Scalar,
    H1: Homotopy<X, P>,
    H2: Homotopy<H1::Y, [P; 2]>,
>(c: compose::Compose<H1, H2, P, [P; 2]>)
    requires
        is_homotopy(c.h1),
        is_homotopy2(c.h2),
    ensures
        is_homotopy3::<X, P, compose::Compose<H1, H2, P, [P; 2]>>(c),
{
    assert forall|x: X|
        #[trigger] is_homotopy3_at::<X, P, compose::Compose<H1, H2, P, [P; 2]>>(c, x) by {
        assert(is_homotopy_at(c.h1, x));
        assert(is_homotopy2_at(c.h2, c.h1.spec_f(x)));
        assert(is_homotopy2_at(c.h2, c.h1.spec_g(x)));
    }
}

/// Composing a 2-parameter homotopy with a 2-parameter one gives a 4-parameter homotopy.
pub proof fn lemma_compose_2_2_is_homotopy<
    X,
    P: Scalar,
    H1: Homotopy<X, [P; 2]>,
    H2: Homotopy<H1::Y, [P; 2]>,
>(c: compose::Compose<H1, H2, [P; 2], [P; 2]>)
    requires
        is_homotopy2(c.h1),
        is_homotopy2(c.h2),
    ensures
        is_homotopy4::<X, P, compose::Compose<H1, H2, [P; 2], [P; 2]>>(c),
{
    assert forall|x: X|
        #[trigger] is_homotopy4_at::<X, P, compose::Compose<H1, H2, [P; 2], [P; 2]>>(c, x) by {
        assert(is_homotopy2_at(c.h1, x));
        assert(is_homotopy2_at(c.h2, c.h1.spec_f(x)));
        assert(is_homotopy2_at(c.h2, c.h1.spec_g(x)));
    }
}

/// Composing a 3-parameter homotopy with a 1-parameter one gives a 4-parameter homotopy.
pub proof fn lemma_compose_3_1_is_homotopy<
    X,
    P: Scalar,
    H1: Homotopy<X, [P; 3]>,
    H2: Homotopy<H1::Y, P>,
>(c: compose::Compose<H1, H2, [P; 3], P>)
    requires
        is_homotopy3(c.h1),
        is_homotopy(c.h2),
    ensures
        is_homotopy4::<X, P, compose::Compose<H1, H2, [P; 3], P>>(c),
{
    assert forall|x: X|
        #[trigger] is_homotopy4_at::<X, P, compose::Compose<H1, H2, [P; 3], P>>(c, x) by {
        assert(is_homotopy3_at(c.h1, x));
        assert(is_homotopy_at(c.h2, c.h1.spec_f(x)));
        assert(is_homotopy_at(c.h2, c.h1.spec_g(x)));
    }
}

/// Composing a 1-parameter homotopy with a 3-parameter one gives a 4-parameter homotopy.
pub proof fn lemma_compose_1_3_is_homotopy<
    X,
    P: Scalar,
    H1: Homotopy<X, P>,
    H2: Homotopy<H1::Y, [P; 3]>,
>(c: compose::Compose<H1, H2, P, [P; 3]>)
    requires
        is_homotopy(c.h1),
        is_homotopy3(c.h2),
    ensures
        is_homotopy4::<X, P, compose::Compose<H1, H2, P, [P; 3]>>(c),
{
    assert forall|x: X|
        #[trigger] is_homotopy4_at::<X, P, compose::Compose<H1, H2, P, [P; 3]>>(c, x) by {
        assert(is_homotopy_at(c.h1, x));
        assert(is_homotopy3_at(c.h2, c.h1.spec_f(x)));
        assert(is_homotopy3_at(c.h2, c.h1.spec_g(x)));
    }
}

/// Composing a 4-parameter homotopy with a 1-parameter one gives a 5-parameter homotopy.
pub proof fn lemma_compose_4_1_is_homotopy<
    X,
    P: Scalar,
    H1: Homotopy<X, [P; 4]>,
    H2: Homotopy<H1::Y, P>,
>(c: compose::Compose<H1, H2, [P; 4], P>)
    requires
        is_homotopy4(c.h1),
        is_homotopy(c.h2),
    ensures
        is_homotopy5::<X, P, compose::Compose<H1, H2, [P; 4], P>>(c),
{
    assert forall|x: X|
        #[trigger] is_homotopy5_at::<X, P, compose::Compose<H1, H2, [P; 4], P>>(c, x) by {
        assert(is_homotopy4_at(c.h1, x));
        assert(is_homotopy_at(c.h2, c.h1.spec_f(x)));
        assert(is_homotopy_at(c.h2, c.h1.spec_g(x)));
    }
}

/// A cubic Bezier made from a quadratic one has the same `f`, `g` and `h` as the quadratic.
pub proof fn lemma_from_quadratic_is_quadratic<Y: Linear>(a: Y, b: Y, c: Y, x: (), s: Y::Param)
    ensures
        CubicBezier(a, b, b, c).spec_f(x) == QuadraticBezier(a, b, c).spec_f(x),
        CubicBezier(a, b, b, c).spec_g(x) == QuadraticBezier(a, b, c).spec_g(x),
        CubicBezier(a, b, b, c).spec_h(x, s) == QuadraticBezier(a, b, c).spec_h(x, s),
{
}

/// A quadratic Bezier made from two points has their `f` and `g`, and agrees with linear
/// interpolation between them at both ends of the interval.
pub proof fn lemma_from_linear_ends<Y: Linear>(a: Y, b: Y, x: ())
    requires
        unit_laws::<Y::Param>(),
        linear_laws::<Y>(),
    ensures
        QuadraticBezier(a, midpoint(a, b), b).spec_f(x) == Lerp(a, b).spec_f(x),
        QuadraticBezier(a, midpoint(a, b), b).spec_g(x) == Lerp(a, b).spec_g(x),
        QuadraticBezier(a, midpoint(a, b), b).spec_h(x, Y::Param::spec_zero()) == Lerp(a, b).spec_h(
            x,
            Y::Param::spec_zero(),
        ),
        QuadraticBezier(a, midpoint(a, b), b).spec_h(x, Y::Param::spec_one()) == Lerp(a, b).spec_h(
            x,
            Y::Param::spec_one(),
        ),
{
    lemma_lerp_ends(a, midpoint(a, b));
    lemma_lerp_ends(midpoint(a, b), b);
    lemma_lerp_ends(a, b);
}

} // verus!
