//! The scalar capability traits that a `Vector` element type must provide.

use vstd::prelude::*;

verus! {

/// Principal square root capability.
///
/// Each implementor declares what its square root means through
/// `sqrt_spec` and provides an executable `sqrt` that computes it.
pub trait Sqrt: Sized {
    /// The mathematical meaning of `sqrt` for this scalar type.
    spec fn sqrt_spec(self) -> Self;

    /// Computes the principal square root.
    fn sqrt(self) -> (r: Self)
        ensures
            r == self.sqrt_spec(),
    ;
}

/// The minimal numeric capability a scalar type needs so that vectors of it
/// support arithmetic, dot/cross/outer products, norm and normalization.
///
/// Each implementor declares the meaning of its operations through the
/// `*_spec` functions and provides executable operations that agree with
/// them. Two algebraic laws are part of the contract: multiplication is
/// commutative, and the square root of the additive identity is the
/// additive identity. Every scalar the library is meant for (reals,
/// complex numbers, wrapping integers) satisfies both exactly.
pub trait Num: Sqrt + Copy {
    /// The additive identity value.
    spec fn zero_spec() -> Self;

    /// The meaning of addition.
    spec fn add_spec(self, other: Self) -> Self;

    /// The meaning of subtraction.
    spec fn sub_spec(self, other: Self) -> Self;

    /// The meaning of multiplication.
    spec fn mul_spec(self, other: Self) -> Self;

    /// The meaning of division.
    spec fn div_spec(self, other: Self) -> Self;

    /// Returns the additive identity.
    fn zero() -> (r: Self)
        ensures
            r == Self::zero_spec(),
    ;

    /// Adds two scalars.
    fn add(self, other: Self) -> (r: Self)
        ensures
            r == self.add_spec(other),
    ;

    /// Subtracts `other` from `self`.
    fn sub(self, other: Self) -> (r: Self)
        ensures
            r == self.sub_spec(other),
    ;

    /// Multiplies two scalars.
    fn mul(self, other: Self) -> (r: Self)
        ensures
            r == self.mul_spec(other),
    ;

    /// Divides `self` by `other`.
    fn div(self, other: Self) -> (r: Self)
        ensures
            r == self.div_spec(other),
    ;

    /// Law: multiplication of scalars is commutative.
    proof fn mul_commutes(a: Self, b: Self)
        ensures
            a.mul_spec(b) == b.mul_spec(a),
    ;

    /// Law: the square root of the additive identity is the additive
    /// identity. This makes the norm of an empty vector come out as zero.
    proof fn sqrt_of_zero()
        ensures
            Self::zero_spec().sqrt_spec() == Self::zero_spec(),
    ;
}

/// Plain-text rendering capability, the basis for displaying vectors.
///
/// The result is a sequence of characters so that the whole rendering
/// pipeline stays verifiable; collect it into a `String` for printing.
pub trait Text {
    /// The exact character sequence this value renders as. Implementors
    /// override this; the default claims an empty rendering, so nothing
    /// can be concluded about an implementor that leaves it in place.
    open spec fn text_spec(&self) -> Seq<char> {
        Seq::empty()
    }

    /// Renders this value as text.
    fn text(&self) -> (r: Vec<char>)
        ensures
            r@ == self.text_spec(),
    ;
}

} // verus!
