//! Scalars: what a lane holds.
//!
//! The library never looks inside a scalar. It asks for the arithmetic of
//! [`Number`], each operation of which is a function of its operands alone, and
//! states every vector operation lane by lane in those terms.

use crate::arch::Token;
use crate::vector::Vector;
use crate::width::Width;
use vstd::prelude::*;

verus! {

/// Binds a scalar to the vector type that holds `W` lanes of it under the
/// token `T`.
pub trait Scalar<T: Token, W: Width>: Number {
    /// The vector of `W` lanes of this scalar under `T`.
    type Vector: Vector<Scalar = Self, Token = T, Width = W>;
}

/// A scalar with the four arithmetic operations, negation and the two
/// identities.
///
/// Each executable operation returns exactly what its specification names.
/// No algebraic law is asked of an implementation: floating-point numbers are
/// meant to qualify.
pub trait Number: Copy {
    /// The additive identity.
    spec fn zero_value() -> Self;

    /// The multiplicative identity.
    spec fn one_value() -> Self;

    /// `self + rhs`.
    spec fn added(self, rhs: Self) -> Self;

    /// `self - rhs`.
    spec fn subtracted(self, rhs: Self) -> Self;

    /// `self * rhs`.
    spec fn multiplied(self, rhs: Self) -> Self;

    /// `self / rhs`.
    spec fn divided(self, rhs: Self) -> Self;

    /// `-self`.
    spec fn negated(self) -> Self;

    /// Returns the additive identity.
    fn zero() -> (r: Self)
        ensures
            r == Self::zero_value(),
    ;

    /// Returns the multiplicative identity.
    fn one() -> (r: Self)
        ensures
            r == Self::one_value(),
    ;

    /// Adds two scalars.
    fn add(self, rhs: Self) -> (r: Self)
        ensures
            r == self.added(rhs),
    ;

    /// Subtracts `rhs` from `self`.
    fn sub(self, rhs: Self) -> (r: Self)
        ensures
            r == self.subtracted(rhs),
    ;

    /// Multiplies two scalars.
    fn mul(self, rhs: Self) -> (r: Self)
        ensures
            r == self.multiplied(rhs),
    ;

    /// Divides `self` by `rhs`.
    fn div(self, rhs: Self) -> (r: Self)
        ensures
            r == self.divided(rhs),
    ;

    /// Negates a scalar.
    fn neg(self) -> (r: Self)
        ensures
            r == self.negated(),
    ;
}

/// A complex number over the real scalar `R`, as a pair of its real and
/// imaginary parts.
#[derive(Debug)]
pub struct Cplx<R> {
    /// The real part.
    pub re: R,
    /// The imaginary part.
    pub im: R,
}

impl<R: Copy> Clone for Cplx<R> {
    fn clone(&self) -> (z: Self)
        ensures
            z == *self,
    {
        *self
    }
}

impl<R: Copy> Copy for Cplx<R> {

}

impl<R: Number> Cplx<R> {
    /// The imaginary unit, `0 + 1i`.
    pub open spec fn i_value() -> Self {
        Cplx { re: R::zero_value(), im: R::one_value() }
    }

    /// The negated imaginary unit, as the product formula sees it: the
    /// negation of each part of `i`.
    pub open spec fn neg_i_value() -> Self {
        Self::i_value().negated()
    }

    /// The conjugate: the imaginary part negated.
    pub open spec fn conjugated(self) -> Self {
        Cplx { re: self.re, im: self.im.negated() }
    }

    /// A quarter turn counter-clockwise: the new real part is the old
    /// imaginary part negated, the new imaginary part the old real part.
    pub open spec fn turned(self) -> Self {
        Cplx { re: self.im.negated(), im: self.re }
    }

    /// A quarter turn clockwise: the new real part is the old imaginary part,
    /// the new imaginary part the old real part negated.
    pub open spec fn turned_back(self) -> Self {
        Cplx { re: self.im, im: self.re.negated() }
    }

    /// The squared norm, `re² + im²`.
    pub open spec fn norm_sqr_value(self) -> R {
        self.re.multiplied(self.re).added(self.im.multiplied(self.im))
    }

    /// Builds a complex number from its parts.
    pub fn new(re: R, im: R) -> (z: Self)
        ensures
            z == (Cplx { re, im }),
    {
        Cplx { re, im }
    }

    /// Returns the imaginary unit.
    pub fn i() -> (z: Self)
        ensures
            z == Self::i_value(),
    {
        Cplx { re: R::zero(), im: R::one() }
    }

    /// Conjugates.
    pub fn conj(self) -> (z: Self)
        ensures
            z == self.conjugated(),
    {
        Cplx { re: self.re, im: self.im.neg() }
    }

    /// Multiplies by `i`.
    pub fn mul_i(self) -> (z: Self)
        ensures
            z == self.turned(),
    {
        Cplx { re: self.im.neg(), im: self.re }
    }

    /// Multiplies by `-i`.
    pub fn mul_neg_i(self) -> (z: Self)
        ensures
            z == self.turned_back(),
    {
        Cplx { re: self.im, im: self.re.neg() }
    }
}

impl<R: Number> Number for Cplx<R> {
    open spec fn zero_value() -> Self {
        Cplx { re: R::zero_value(), im: R::zero_value() }
    }

    open spec fn one_value() -> Self {
        Cplx { re: R::one_value(), im: R::zero_value() }
    }

    open spec fn added(self, rhs: Self) -> Self {
        Cplx { re: self.re.added(rhs.re), im: self.im.added(rhs.im) }
    }

    open spec fn subtracted(self, rhs: Self) -> Self {
        Cplx { re: self.re.subtracted(rhs.re), im: self.im.subtracted(rhs.im) }
    }

    open spec fn multiplied(self, rhs: Self) -> Self {
        Cplx {
            re: self.re.multiplied(rhs.re).subtracted(self.im.multiplied(rhs.im)),
            im: self.re.multiplied(rhs.im).added(self.im.multiplied(rhs.re)),
        }
    }

    open spec fn divided(self, rhs: Self) -> Self {
        Cplx {
            re: self.re.multiplied(rhs.re).added(self.im.multiplied(rhs.im)).divided(
                rhs.norm_sqr_value(),
            ),
            im: self.im.multiplied(rhs.re).subtracted(self.re.multiplied(rhs.im)).divided(
                rhs.norm_sqr_value(),
            ),
        }
    }

    open spec fn negated(self) -> Self {
        Cplx { re: self.re.negated(), im: self.im.negated() }
    }

    fn zero() -> (r: Self) {
        Cplx { re: R::zero(), im: R::zero() }
    }

    fn one() -> (r: Self) {
        Cplx { re: R::one(), im: R::zero() }
    }

    fn add(self, rhs: Self) -> (r: Self) {
        Cplx { re: self.re.add(rhs.re), im: self.im.add(rhs.im) }
    }

    fn sub(self, rhs: Self) -> (r: Self) {
        Cplx { re: self.re.sub(rhs.re), im: self.im.sub(rhs.im) }
    }

    fn mul(self, rhs: Self) -> (r: Self) {
        let re = self.re.mul(rhs.re).sub(self.im.mul(rhs.im));
        let im = self.re.mul(rhs.im).add(self.im.mul(rhs.re));
        Cplx { re, im }
    }

    fn div(self, rhs: Self) -> (r: Self) {
        let norm_sqr = rhs.re.mul(rhs.re).add(rhs.im.mul(rhs.im));
        let re = self.re.mul(rhs.re).add(self.im.mul(rhs.im));
        let im = self.im.mul(rhs.re).sub(self.re.mul(rhs.im));
        Cplx { re: re.div(norm_sqr), im: im.div(norm_sqr) }
    }

    fn neg(self) -> (r: Self) {
        Cplx { re: self.re.neg(), im: self.im.neg() }
    }
}

/// Conjugating twice gives the number back, where negating the imaginary part
/// twice does.
pub proof fn lemma_conj_conj<R: Number>(z: Cplx<R>)
    requires
        z.im.negated().negated() == z.im,
    ensures
        z.conjugated().conjugated() == z,
{
}

/// A quarter turn back and then forth gives the number back, where negating
/// the real part twice does.
pub proof fn lemma_mul_i_mul_neg_i<R: Number>(z: Cplx<R>)
    requires
        z.re.negated().negated() == z.re,
    ensures
        z.turned_back().turned() == z,
{
}

/// Whether `x` meets the two identities the way a ring element does:
/// `x * 0 == 0`, `x * 1 == x`, `0 - x == -x` and `x + 0 == x`.
pub open spec fn obeys_identities<R: Number>(x: R) -> bool {
    &&& x.multiplied(R::zero_value()) == R::zero_value()
    &&& x.multiplied(R::one_value()) == x
    &&& R::zero_value().subtracted(x) == x.negated()
    &&& x.added(R::zero_value()) == x
}

/// Whether `x` meets the negated identities the way a ring element does:
/// `x * -0 == 0`, `x * -1 == -x`, `0 - -x == x` and `-x + 0 == -x`.
pub open spec fn obeys_negated_identities<R: Number>(x: R) -> bool {
    &&& x.multiplied(R::zero_value().negated()) == R::zero_value()
    &&& x.multiplied(R::one_value().negated()) == x.negated()
    &&& R::zero_value().subtracted(x.negated()) == x
    &&& x.negated().added(R::zero_value()) == x.negated()
}

/// A quarter turn is the product with `i`, where both parts meet the
/// identities. (Floating-point parts that are infinite or not a number do
/// not.)
pub proof fn lemma_mul_i_is_product<R: Number>(z: Cplx<R>)
    requires
        obeys_identities(z.re),
        obeys_identities(z.im),
    ensures
        z.turned() == z.multiplied(Cplx::<R>::i_value()),
{
}

/// A quarter turn back is the product with `-i`, where both parts meet the
/// negated identities.
pub proof fn lemma_mul_neg_i_is_product<R: Number>(z: Cplx<R>)
    requires
        obeys_negated_identities(z.re),
        obeys_negated_identities(z.im),
    ensures
        z.turned_back() == z.multiplied(Cplx::<R>::neg_i_value()),
{
}

} // verus!
