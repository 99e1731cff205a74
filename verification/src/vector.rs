//! Vector type interfaces.
//!
//! A vector is a fixed number of scalar lanes. Its model is [`Vector::lanes`],
//! the sequence of those lanes in memory order, and the contract of every
//! operation says what the lanes of the result are.

use crate::arch::Token;
use crate::scalar::{Cplx, Number, Scalar};
use crate::width::Width;
use vstd::prelude::*;

verus! {

/// `n` lanes, each holding `x`.
pub open spec fn splat_lanes<S>(n: nat, x: S) -> Seq<S> {
    Seq::new(n, |i: int| x)
}

/// What reading `n` lanes takes from a buffer: its first `n` scalars.
pub open spec fn first_lanes<S>(source: Seq<S>, n: nat) -> Seq<S> {
    source.subrange(0, n as int)
}

/// What writing `lanes` makes of a buffer: the lanes, then what the buffer
/// held behind them.
pub open spec fn written<S>(lanes: Seq<S>, before: Seq<S>) -> Seq<S> {
    lanes + before.subrange(lanes.len() as int, before.len() as int)
}

/// The lane-wise sum of `a` and `b`.
pub open spec fn lanes_added<S: Number>(a: Seq<S>, b: Seq<S>) -> Seq<S> {
    Seq::new(a.len(), |i: int| a[i].added(b[i]))
}

/// The lane-wise difference of `a` and `b`.
pub open spec fn lanes_subtracted<S: Number>(a: Seq<S>, b: Seq<S>) -> Seq<S> {
    Seq::new(a.len(), |i: int| a[i].subtracted(b[i]))
}

/// The lane-wise product of `a` and `b`.
pub open spec fn lanes_multiplied<S: Number>(a: Seq<S>, b: Seq<S>) -> Seq<S> {
    Seq::new(a.len(), |i: int| a[i].multiplied(b[i]))
}

/// The lane-wise quotient of `a` and `b`.
pub open spec fn lanes_divided<S: Number>(a: Seq<S>, b: Seq<S>) -> Seq<S> {
    Seq::new(a.len(), |i: int| a[i].divided(b[i]))
}

/// Each lane of `a` negated.
pub open spec fn lanes_negated<S: Number>(a: Seq<S>) -> Seq<S> {
    Seq::new(a.len(), |i: int| a[i].negated())
}

/// Indicates the widest native vector of a scalar under a token.
pub trait Native<T: Token> {
    /// The lane count of the widest native vector.
    type Width: Width;
}

/// Convenience type for the widest native vector size.
pub type NativeWidth<S, T> = <S as Native<T>>::Width;

/// Convenience type for the widest native vector.
pub type NativeVector<S, T> = VectorOf<S, NativeWidth<S, T>, T>;

/// Convenience type for the vector with a particular width.
pub type VectorOf<S, W, T> = <S as Scalar<T, W>>::Vector;

/// The fundamental vector type.
///
/// An implementing type holds exactly `Width` lanes of `Scalar`, in order, and
/// nothing else: two vectors with the same lanes are the same vector.
pub trait Vector: Copy {
    /// The type of elements in the vector.
    type Scalar: Number;

    /// The token that proves support for this vector on the CPU.
    type Token: Token;

    /// The number of elements in the vector.
    type Width: Width;

    /// The representation that the instruction set's own operations take.
    type Underlying: Copy;

    /// The lanes of the vector, first lane first.
    spec fn lanes(&self) -> Seq<Self::Scalar>;

    /// The lanes that an underlying value holds, first lane first.
    spec fn underlying_lanes(underlying: Self::Underlying) -> Seq<Self::Scalar>;

    /// A vector has exactly as many lanes as its width says.
    proof fn lemma_lane_count(&self)
        ensures
            self.lanes().len() == <Self::Width as Width>::spec_value(),
    ;

    /// The underlying representation has the layout of the vector: it holds
    /// exactly as many lanes. An implementation proves this once, so that no
    /// conversion can meet a representation that does not match.
    proof fn lemma_underlying_lane_count(underlying: Self::Underlying)
        ensures
            Self::underlying_lanes(underlying).len() == <Self::Width as Width>::spec_value(),
    ;

    /// A vector is determined by its lanes.
    proof fn lemma_lanes_determine(a: Self, b: Self)
        requires
            a.lanes() == b.lanes(),
        ensures
            a == b,
    ;

    /// Returns the number of lanes.
    fn width() -> (n: usize)
        ensures
            n == <Self::Width as Width>::spec_value(),
    {
        <Self::Width as Width>::value()
    }

    /// Creates a new instance of `Token` from a vector. A vector is only ever
    /// built from a token, so holding one shows that the CPU supports the
    /// features that the token stands for.
    fn to_token(self) -> (token: Self::Token)
        ensures
            <Self::Token as Token>::supported(),
    ;

    /// Returns the lanes of the vector, first lane first.
    fn as_slice(&self) -> (lanes: Vec<Self::Scalar>)
        ensures
            lanes@ == self.lanes(),
    ;

    /// Returns lane `index`.
    fn lane(&self, index: usize) -> (value: Self::Scalar)
        requires
            index < <Self::Width as Width>::spec_value(),
        ensures
            value == self.lanes()[index as int],
    ;

    /// Replaces lane `index` and leaves the other lanes as they were.
    fn set_lane(&mut self, index: usize, value: Self::Scalar)
        requires
            index < <Self::Width as Width>::spec_value(),
        ensures
            final(self).lanes() == old(self).lanes().update(index as int, value),
    ;

    /// Converts this vector to its underlying type, lane for lane.
    fn to_underlying(self) -> (underlying: Self::Underlying)
        ensures
            Self::underlying_lanes(underlying) == self.lanes(),
    ;

    /// Converts the underlying type to a vector, lane for lane.
    fn from_underlying(token: Self::Token, underlying: Self::Underlying) -> (v: Self)
        ensures
            v.lanes() == Self::underlying_lanes(underlying),
    ;

    /// Reads a vector from the start of a slice, which has to hold at least
    /// `width()` scalars.
    fn read(token: Self::Token, from: &[Self::Scalar]) -> (v: Self)
        requires
            from@.len() >= <Self::Width as Width>::spec_value(),
        ensures
            v.lanes() == first_lanes(from@, <Self::Width as Width>::spec_value()),
    ;

    /// Writes the vector to the start of a slice, which has to have room for
    /// at least `width()` scalars. What lies behind them stays as it was.
    fn write(self, to: &mut [Self::Scalar])
        requires
            old(to)@.len() >= <Self::Width as Width>::spec_value(),
        ensures
            final(to)@ == written(self.lanes(), old(to)@),
    {
        let lanes = self.as_slice();
        proof {
            self.lemma_lane_count();
        }
        let n = lanes.len();
        let mut i: usize = 0;
        while i < n
            invariant
                i <= n,
                n == lanes@.len(),
                n <= to@.len(),
                to@.len() == old(to)@.len(),
                forall|j: int| 0 <= j < i ==> to@[j] == lanes@[j],
                forall|j: int| i <= j < to@.len() ==> to@[j] == old(to)@[j],
            decreases n - i,
        {
            to[i] = lanes[i];
            i += 1;
        }
        assert(to@ =~= written(self.lanes(), old(to)@));
    }

    /// Create a new vector with each lane containing zeroes.
    fn zeroed(token: Self::Token) -> (v: Self)
        ensures
            v.lanes() == splat_lanes(
                <Self::Width as Width>::spec_value(),
                <Self::Scalar as Number>::zero_value(),
            ),
    ;

    /// Create a new vector with each lane containing the provided value.
    fn splat(token: Self::Token, from: Self::Scalar) -> (v: Self)
        ensures
            v.lanes() == splat_lanes(<Self::Width as Width>::spec_value(), from),
    ;
}

/// Each lane of `a` conjugated.
pub open spec fn lanes_conjugated<R: Number>(a: Seq<Cplx<R>>) -> Seq<Cplx<R>> {
    Seq::new(a.len(), |i: int| a[i].conjugated())
}

/// Each lane of `a` multiplied by `i`.
pub open spec fn lanes_turned<R: Number>(a: Seq<Cplx<R>>) -> Seq<Cplx<R>> {
    Seq::new(a.len(), |i: int| a[i].turned())
}

/// Each lane of `a` multiplied by `-i`.
pub open spec fn lanes_turned_back<R: Number>(a: Seq<Cplx<R>>) -> Seq<Cplx<R>> {
    Seq::new(a.len(), |i: int| a[i].turned_back())
}

/// Vectors supporting the typical arithmetic operations, lane by lane.
///
/// Each operation comes in four forms: with a vector or with one scalar for
/// every lane, and returning the result or storing it in place.
pub trait Ops: Vector {
    /// The lane-wise sum of two vectors.
    fn add(self, rhs: Self) -> (r: Self)
        ensures
            r.lanes() == lanes_added(self.lanes(), rhs.lanes()),
    ;

    /// The sum of each lane and one scalar.
    fn add_scalar(self, rhs: Self::Scalar) -> (r: Self)
        ensures
            r.lanes() == lanes_added(self.lanes(), splat_lanes(<Self::Width as Width>::spec_value(), rhs)),
    ;

    /// Stores the lane-wise sum of `self` and `rhs` in `self`.
    fn add_assign(&mut self, rhs: Self)
        ensures
            final(self).lanes() == lanes_added(old(self).lanes(), rhs.lanes()),
    ;

    /// Stores the sum of each lane and one scalar in `self`.
    fn add_assign_scalar(&mut self, rhs: Self::Scalar)
        ensures
            final(self).lanes() == lanes_added(old(self).lanes(), splat_lanes(<Self::Width as Width>::spec_value(), rhs)),
    ;

    /// The lane-wise difference of two vectors.
    fn sub(self, rhs: Self) -> (r: Self)
        ensures
            r.lanes() == lanes_subtracted(self.lanes(), rhs.lanes()),
    ;

    /// The difference of each lane and one scalar.
    fn sub_scalar(self, rhs: Self::Scalar) -> (r: Self)
        ensures
            r.lanes() == lanes_subtracted(self.lanes(), splat_lanes(<Self::Width as Width>::spec_value(), rhs)),
    ;

    /// Stores the lane-wise difference of `self` and `rhs` in `self`.
    fn sub_assign(&mut self, rhs: Self)
        ensures
            final(self).lanes() == lanes_subtracted(old(self).lanes(), rhs.lanes()),
    ;

    /// Stores the difference of each lane and one scalar in `self`.
    fn sub_assign_scalar(&mut self, rhs: Self::Scalar)
        ensures
            final(self).lanes() == lanes_subtracted(old(self).lanes(), splat_lanes(<Self::Width as Width>::spec_value(), rhs)),
    ;

    /// The lane-wise product of two vectors.
    fn mul(self, rhs: Self) -> (r: Self)
        ensures
            r.lanes() == lanes_multiplied(self.lanes(), rhs.lanes()),
    ;

    /// The product of each lane and one scalar.
    fn mul_scalar(self, rhs: Self::Scalar) -> (r: Self)
        ensures
            r.lanes() == lanes_multiplied(self.lanes(), splat_lanes(<Self::Width as Width>::spec_value(), rhs)),
    ;

    /// Stores the lane-wise product of `self` and `rhs` in `self`.
    fn mul_assign(&mut self, rhs: Self)
        ensures
            final(self).lanes() == lanes_multiplied(old(self).lanes(), rhs.lanes()),
    ;

    /// Stores the product of each lane and one scalar in `self`.
    fn mul_assign_scalar(&mut self, rhs: Self::Scalar)
        ensures
            final(self).lanes() == lanes_multiplied(old(self).lanes(), splat_lanes(<Self::Width as Width>::spec_value(), rhs)),
    ;

    /// The lane-wise quotient of two vectors.
    fn div(self, rhs: Self) -> (r: Self)
        ensures
            r.lanes() == lanes_divided(self.lanes(), rhs.lanes()),
    ;

    /// The quotient of each lane and one scalar.
    fn div_scalar(self, rhs: Self::Scalar) -> (r: Self)
        ensures
            r.lanes() == lanes_divided(self.lanes(), splat_lanes(<Self::Width as Width>::spec_value(), rhs)),
    ;

    /// Stores the lane-wise quotient of `self` and `rhs` in `self`.
    fn div_assign(&mut self, rhs: Self)
        ensures
            final(self).lanes() == lanes_divided(old(self).lanes(), rhs.lanes()),
    ;

    /// Stores the quotient of each lane and one scalar in `self`.
    fn div_assign_scalar(&mut self, rhs: Self::Scalar)
        ensures
            final(self).lanes() == lanes_divided(old(self).lanes(), splat_lanes(<Self::Width as Width>::spec_value(), rhs)),
    ;

}

/// Vectors that allow arithmetic operations over signed types.
pub trait Signed: Ops {
    /// Each lane negated.
    fn neg(self) -> (r: Self)
        ensures
            r.lanes() == lanes_negated(self.lanes()),
    ;
}

/// Complex valued vectors.
pub trait Complex: Signed + Vector<Scalar = Cplx<<Self as Complex>::RealScalar>> {
    /// The real scalar type.
    type RealScalar: Number;

    /// Conjugate.
    fn conj(self) -> (r: Self)
        ensures
            r.lanes() == lanes_conjugated(self.lanes()),
    ;

    /// Multiply by i.
    fn mul_i(self) -> (r: Self)
        ensures
            r.lanes() == lanes_turned(self.lanes()),
    ;

    /// Multiply by -i.
    fn mul_neg_i(self) -> (r: Self)
        ensures
            r.lanes() == lanes_turned_back(self.lanes()),
    ;
}

/// Every lane of a splat holds the value that was splatted, and there are as
/// many lanes as were asked for.
pub proof fn lemma_splat_lanes<S>(n: nat, x: S)
    ensures
        splat_lanes(n, x).len() == n,
        forall|i: int| 0 <= i < n ==> splat_lanes(n, x)[i] == x,
{
}

/// Converting a vector to its underlying type and back gives the vector
/// again.
pub proof fn lemma_underlying_round_trip<V: Vector>(v: V, underlying: V::Underlying, back: V)
    requires
        V::underlying_lanes(underlying) == v.lanes(),
        back.lanes() == V::underlying_lanes(underlying),
    ensures
        back == v,
{
    V::lemma_lanes_determine(back, v);
}

/// Reading `n` lanes from a buffer and writing them to another leaves the
/// first `n` scalars of the second equal to those of the first, and the rest
/// of the second as it was.
pub proof fn lemma_read_write_round_trip<S>(source: Seq<S>, before: Seq<S>, n: nat)
    requires
        source.len() >= n,
        before.len() >= n,
    ensures
        written(first_lanes(source, n), before).len() == before.len(),
        first_lanes(written(first_lanes(source, n), before), n) == first_lanes(source, n),
        written(first_lanes(source, n), before).subrange(n as int, before.len() as int)
            == before.subrange(n as int, before.len() as int),
{
    let after = written(first_lanes(source, n), before);
    assert(first_lanes(after, n) =~= first_lanes(source, n));
    assert(after.subrange(n as int, before.len() as int) =~= before.subrange(
        n as int,
        before.len() as int,
    ));
}

/// Lane `i` of the lane-wise sum is the sum of lane `i` of each operand,
/// and a vector that was computed in place is the vector that was returned by
/// value.
pub proof fn lemma_add_elementwise<V: Ops>(a: V, b: V, by_value: V, in_place: V)
    requires
        by_value.lanes() == lanes_added(a.lanes(), b.lanes()),
        in_place.lanes() == lanes_added(a.lanes(), b.lanes()),
    ensures
        by_value == in_place,
        by_value.lanes().len() == a.lanes().len(),
        forall|i: int|
            0 <= i < a.lanes().len() ==> by_value.lanes()[i] == a.lanes()[i].added(
                b.lanes()[i],
            ),
{
    V::lemma_lanes_determine(by_value, in_place);
}

/// Lane `i` of the lane-wise difference is the difference of lane `i` of each operand,
/// and a vector that was computed in place is the vector that was returned by
/// value.
pub proof fn lemma_sub_elementwise<V: Ops>(a: V, b: V, by_value: V, in_place: V)
    requires
        by_value.lanes() == lanes_subtracted(a.lanes(), b.lanes()),
        in_place.lanes() == lanes_subtracted(a.lanes(), b.lanes()),
    ensures
        by_value == in_place,
        by_value.lanes().len() == a.lanes().len(),
        forall|i: int|
            0 <= i < a.lanes().len() ==> by_value.lanes()[i] == a.lanes()[i].subtracted(
                b.lanes()[i],
            ),
{
    V::lemma_lanes_determine(by_value, in_place);
}

/// Lane `i` of the lane-wise product is the product of lane `i` of each operand,
/// and a vector that was computed in place is the vector that was returned by
/// value.
pub proof fn lemma_mul_elementwise<V: Ops>(a: V, b: V, by_value: V, in_place: V)
    requires
        by_value.lanes() == lanes_multiplied(a.lanes(), b.lanes()),
        in_place.lanes() == lanes_multiplied(a.lanes(), b.lanes()),
    ensures
        by_value == in_place,
        by_value.lanes().len() == a.lanes().len(),
        forall|i: int|
            0 <= i < a.lanes().len() ==> by_value.lanes()[i] == a.lanes()[i].multiplied(
                b.lanes()[i],
            ),
{
    V::lemma_lanes_determine(by_value, in_place);
}

/// Lane `i` of the lane-wise quotient is the quotient of lane `i` of each operand,
/// and a vector that was computed in place is the vector that was returned by
/// value.
pub proof fn lemma_div_elementwise<V: Ops>(a: V, b: V, by_value: V, in_place: V)
    requires
        by_value.lanes() == lanes_divided(a.lanes(), b.lanes()),
        in_place.lanes() == lanes_divided(a.lanes(), b.lanes()),
    ensures
        by_value == in_place,
        by_value.lanes().len() == a.lanes().len(),
        forall|i: int|
            0 <= i < a.lanes().len() ==> by_value.lanes()[i] == a.lanes()[i].divided(
                b.lanes()[i],
            ),
{
    V::lemma_lanes_determine(by_value, in_place);
}

} // verus!
