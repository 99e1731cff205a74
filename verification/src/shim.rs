//! Vectors of doubled width.
//!
//! Where the CPU has no register of the width that is asked for, two vectors
//! of half that width stand side by side. Every lane-wise operation acts on
//! each half alone; only the reductions fold the halves together.

use crate::scalar::{Cplx, Number};
use crate::vector::{
    first_lanes, lanes_added, lanes_conjugated, lanes_divided, lanes_multiplied, lanes_negated,
    lanes_subtracted, lanes_turned, lanes_turned_back, splat_lanes, Complex, Ops, Signed, Vector,
};
use crate::width::{Double, Width};
use core::marker::PhantomData;
use vstd::prelude::*;

verus! {

/// Shim that doubles the width of a vector.
#[derive(Debug)]
pub struct Shim2<Underlying, Scalar> {
    halves: [Underlying; 2],
    marker: PhantomData<Scalar>,
}

impl<U: Copy, S: Copy> Clone for Shim2<U, S> {
    fn clone(&self) -> (v: Self)
        ensures
            v == *self,
    {
        *self
    }
}

impl<U: Copy, S: Copy> Copy for Shim2<U, S> {

}

/// Shim that quadruples the width of a vector.
pub type Shim4<Underlying, Scalar> = Shim2<Shim2<Underlying, Scalar>, Scalar>;

/// Shim that octuples the width of a vector.
pub type Shim8<Underlying, Scalar> = Shim4<Shim2<Underlying, Scalar>, Scalar>;

impl<U, S> Shim2<U, S> {
    /// The half that holds the first lanes.
    pub closed spec fn low(&self) -> U {
        self.halves[0]
    }

    /// The half that holds the last lanes.
    pub closed spec fn high(&self) -> U {
        self.halves[1]
    }
}

impl<U: Copy, S> Shim2<U, S> {
    /// Puts two halves side by side.
    pub fn from_halves(low: U, high: U) -> (v: Self)
        ensures
            v.low() == low,
            v.high() == high,
    {
        Shim2 { halves: [low, high], marker: PhantomData }
    }

    /// Takes the composite apart again.
    pub fn into_halves(self) -> (halves: (U, U))
        ensures
            halves.0 == self.low(),
            halves.1 == self.high(),
    {
        (self.halves[0], self.halves[1])
    }
}

/// Splatting over a concatenation is splatting over each part.
pub proof fn lemma_splat_concat<S>(n: nat, x: S)
    ensures
        splat_lanes(n, x) + splat_lanes(n, x) == splat_lanes(2 * n, x),
{
    assert(splat_lanes(n, x) + splat_lanes(n, x) =~= splat_lanes(2 * n, x));
}

impl<U, S> Vector for Shim2<U, S> where
    U: Vector<Scalar = S>,
    U::Width: Double,
    S: Number,
 {
    type Scalar = S;

    type Token = <U as Vector>::Token;

    type Width = <U::Width as Double>::Doubled;

    type Underlying = [<U as Vector>::Underlying; 2];

    open spec fn lanes(&self) -> Seq<S> {
        self.low().lanes() + self.high().lanes()
    }

    open spec fn underlying_lanes(underlying: [<U as Vector>::Underlying; 2]) -> Seq<S> {
        U::underlying_lanes(underlying[0]) + U::underlying_lanes(underlying[1])
    }

    proof fn lemma_lane_count(&self) {
        self.low().lemma_lane_count();
        self.high().lemma_lane_count();
        <U::Width as Double>::lemma_doubled();
    }

    proof fn lemma_underlying_lane_count(underlying: [<U as Vector>::Underlying; 2]) {
        U::lemma_underlying_lane_count(underlying[0]);
        U::lemma_underlying_lane_count(underlying[1]);
        <U::Width as Double>::lemma_doubled();
    }

    proof fn lemma_lanes_determine(a: Self, b: Self) {
        a.low().lemma_lane_count();
        a.high().lemma_lane_count();
        b.low().lemma_lane_count();
        b.high().lemma_lane_count();
        let n = a.low().lanes().len() as int;
        assert(a.low().lanes() =~= a.lanes().subrange(0, n));
        assert(b.low().lanes() =~= b.lanes().subrange(0, n));
        assert(a.high().lanes() =~= a.lanes().subrange(n, 2 * n));
        assert(b.high().lanes() =~= b.lanes().subrange(n, 2 * n));
        U::lemma_lanes_determine(a.low(), b.low());
        U::lemma_lanes_determine(a.high(), b.high());
        assert(a.halves =~= b.halves);
    }

    fn to_token(self) -> (token: Self::Token) {
        self.halves[0].to_token()
    }

    fn as_slice(&self) -> (lanes: Vec<S>) {
        let mut lanes = self.halves[0].as_slice();
        let mut rest = self.halves[1].as_slice();
        lanes.append(&mut rest);
        lanes
    }

    fn lane(&self, index: usize) -> (value: S) {
        proof {
            self.low().lemma_lane_count();
            self.high().lemma_lane_count();
            <U::Width as Double>::lemma_doubled();
        }
        let half = U::width();
        if index < half {
            self.halves[0].lane(index)
        } else {
            self.halves[1].lane(index - half)
        }
    }

    fn set_lane(&mut self, index: usize, value: S) {
        proof {
            self.low().lemma_lane_count();
            self.high().lemma_lane_count();
            <U::Width as Double>::lemma_doubled();
        }
        let half = U::width();
        let mut low = self.halves[0];
        let mut high = self.halves[1];
        if index < half {
            low.set_lane(index, value);
        } else {
            high.set_lane(index - half, value);
        }
        self.halves = [low, high];
        assert(self.lanes() =~= old(self).lanes().update(index as int, value));
    }

    fn to_underlying(self) -> (underlying: Self::Underlying) {
        [self.halves[0].to_underlying(), self.halves[1].to_underlying()]
    }

    fn from_underlying(token: Self::Token, underlying: Self::Underlying) -> (v: Self) {
        let low = U::from_underlying(token, underlying[0]);
        let high = U::from_underlying(token, underlying[1]);
        Shim2 { halves: [low, high], marker: PhantomData }
    }

    fn read(token: Self::Token, from: &[S]) -> (v: Self) {
        proof {
            <U::Width as Double>::lemma_doubled();
        }
        let len = from.len();
        let half = U::width();
        assert(half + half <= len);
        let low = U::read(token, vstd::slice::slice_subrange(from, 0, half));
        let high = U::read(token, vstd::slice::slice_subrange(from, half, half + half));
        let v = Shim2 { halves: [low, high], marker: PhantomData };
        assert(v.lanes() =~= first_lanes(from@, (2 * half) as nat));
        v
    }

    fn zeroed(token: Self::Token) -> (v: Self) {
        let half = U::zeroed(token);
        proof {
            <U::Width as Double>::lemma_doubled();
            lemma_splat_concat(<U::Width as Width>::spec_value(), S::zero_value());
        }
        Shim2 { halves: [half, half], marker: PhantomData }
    }

    fn splat(token: Self::Token, from: S) -> (v: Self) {
        let half = U::splat(token, from);
        proof {
            <U::Width as Double>::lemma_doubled();
            lemma_splat_concat(<U::Width as Width>::spec_value(), from);
        }
        Shim2 { halves: [half, half], marker: PhantomData }
    }
}

/// The lanes of a composite are the lanes of its low half, then those of its
/// high half: lane `i` is lane `i` of the low half below the half's width, and
/// lane `i - width` of the high half from there on.
pub proof fn lemma_composite_lanes<U, S>(v: Shim2<U, S>, i: int) where
    U: Vector<Scalar = S>,
    U::Width: Double,
    S: Number,

    requires
        0 <= i < 2 * <U::Width as Width>::spec_value(),
    ensures
        v.lanes().len() == 2 * <U::Width as Width>::spec_value(),
        i < <U::Width as Width>::spec_value() ==> v.lanes()[i] == v.low().lanes()[i],
        i >= <U::Width as Width>::spec_value() ==> v.lanes()[i] == v.high().lanes()[i
            - <U::Width as Width>::spec_value()],
{
    v.low().lemma_lane_count();
    v.high().lemma_lane_count();
}

/// A composite of composites holds its four quarters in order.
pub proof fn lemma_quadruple_lanes<U, S>(v: Shim4<U, S>) where
    U: Vector<Scalar = S>,
    U::Width: Double,
    <U::Width as Double>::Doubled: Double,
    S: Number,

    ensures
        v.lanes().len() == 4 * <U::Width as Width>::spec_value(),
        v.lanes() == v.low().low().lanes() + v.low().high().lanes() + v.high().low().lanes()
            + v.high().high().lanes(),
{
    v.lemma_lane_count();
    <U::Width as Double>::lemma_doubled();
    <<U::Width as Double>::Doubled as Double>::lemma_doubled();
    assert(v.lanes() =~= v.low().low().lanes() + v.low().high().lanes() + v.high().low().lanes()
        + v.high().high().lanes());
}

/// Three levels of composition hold the eight eighths in order.
pub proof fn lemma_octuple_lanes<U, S>(v: Shim8<U, S>) where
    U: Vector<Scalar = S>,
    U::Width: Double,
    <U::Width as Double>::Doubled: Double,
    <<U::Width as Double>::Doubled as Double>::Doubled: Double,
    S: Number,

    ensures
        v.lanes().len() == 8 * <U::Width as Width>::spec_value(),
        v.lanes() == v.low().low().low().lanes() + v.low().low().high().lanes()
            + v.low().high().low().lanes() + v.low().high().high().lanes()
            + v.high().low().low().lanes() + v.high().low().high().lanes()
            + v.high().high().low().lanes() + v.high().high().high().lanes(),
{
    v.lemma_lane_count();
    <U::Width as Double>::lemma_doubled();
    <<U::Width as Double>::Doubled as Double>::lemma_doubled();
    <<<U::Width as Double>::Doubled as Double>::Doubled as Double>::lemma_doubled();
    assert(v.lanes() =~= v.low().low().low().lanes() + v.low().low().high().lanes()
        + v.low().high().low().lanes() + v.low().high().high().lanes()
        + v.high().low().low().lanes() + v.high().low().high().lanes()
        + v.high().high().low().lanes() + v.high().high().high().lanes());
}

/// The lane-wise sum of two concatenations is the concatenation of the
/// lane-wise sums, where the parts match in length.
pub proof fn lemma_added_concat<S: Number>(a0: Seq<S>, a1: Seq<S>, b0: Seq<S>, b1: Seq<S>)
    requires
        a0.len() == b0.len(),
        a1.len() == b1.len(),
    ensures
        lanes_added(a0, b0) + lanes_added(a1, b1) == lanes_added(a0 + a1, b0 + b1),
{
    assert(lanes_added(a0, b0) + lanes_added(a1, b1) =~= lanes_added(a0 + a1, b0 + b1));
}

/// The lane-wise difference of two concatenations is the concatenation of the
/// lane-wise differences, where the parts match in length.
pub proof fn lemma_subtracted_concat<S: Number>(a0: Seq<S>, a1: Seq<S>, b0: Seq<S>, b1: Seq<S>)
    requires
        a0.len() == b0.len(),
        a1.len() == b1.len(),
    ensures
        lanes_subtracted(a0, b0) + lanes_subtracted(a1, b1) == lanes_subtracted(a0 + a1, b0 + b1),
{
    assert(lanes_subtracted(a0, b0) + lanes_subtracted(a1, b1) =~= lanes_subtracted(a0 + a1, b0 + b1));
}

/// The lane-wise product of two concatenations is the concatenation of the
/// lane-wise products, where the parts match in length.
pub proof fn lemma_multiplied_concat<S: Number>(a0: Seq<S>, a1: Seq<S>, b0: Seq<S>, b1: Seq<S>)
    requires
        a0.len() == b0.len(),
        a1.len() == b1.len(),
    ensures
        lanes_multiplied(a0, b0) + lanes_multiplied(a1, b1) == lanes_multiplied(a0 + a1, b0 + b1),
{
    assert(lanes_multiplied(a0, b0) + lanes_multiplied(a1, b1) =~= lanes_multiplied(a0 + a1, b0 + b1));
}

/// The lane-wise quotient of two concatenations is the concatenation of the
/// lane-wise quotients, where the parts match in length.
pub proof fn lemma_divided_concat<S: Number>(a0: Seq<S>, a1: Seq<S>, b0: Seq<S>, b1: Seq<S>)
    requires
        a0.len() == b0.len(),
        a1.len() == b1.len(),
    ensures
        lanes_divided(a0, b0) + lanes_divided(a1, b1) == lanes_divided(a0 + a1, b0 + b1),
{
    assert(lanes_divided(a0, b0) + lanes_divided(a1, b1) =~= lanes_divided(a0 + a1, b0 + b1));
}

impl<U, S> Ops for Shim2<U, S> where
    U: Ops + Vector<Scalar = S>,
    U::Width: Double,
    S: Number,
 {
    fn add(self, rhs: Self) -> (r: Self) {
        proof {
            self.low().lemma_lane_count();
            self.high().lemma_lane_count();
            rhs.low().lemma_lane_count();
            rhs.high().lemma_lane_count();
            lemma_added_concat(
                self.low().lanes(),
                self.high().lanes(),
                rhs.low().lanes(),
                rhs.high().lanes(),
            );
        }
        let low = self.halves[0].add(rhs.halves[0]);
        let high = self.halves[1].add(rhs.halves[1]);
        Shim2 { halves: [low, high], marker: PhantomData }
    }

    fn add_scalar(self, rhs: S) -> (r: Self) {
        proof {
            self.low().lemma_lane_count();
            self.high().lemma_lane_count();
            <U::Width as Double>::lemma_doubled();
            lemma_splat_concat(<U::Width as Width>::spec_value(), rhs);
            lemma_added_concat(
                self.low().lanes(),
                self.high().lanes(),
                splat_lanes(<U::Width as Width>::spec_value(), rhs),
                splat_lanes(<U::Width as Width>::spec_value(), rhs),
            );
        }
        let low = self.halves[0].add_scalar(rhs);
        let high = self.halves[1].add_scalar(rhs);
        Shim2 { halves: [low, high], marker: PhantomData }
    }

    fn add_assign(&mut self, rhs: Self) {
        proof {
            self.low().lemma_lane_count();
            self.high().lemma_lane_count();
            rhs.low().lemma_lane_count();
            rhs.high().lemma_lane_count();
            lemma_added_concat(
                self.low().lanes(),
                self.high().lanes(),
                rhs.low().lanes(),
                rhs.high().lanes(),
            );
        }
        let mut low = self.halves[0];
        let mut high = self.halves[1];
        low.add_assign(rhs.halves[0]);
        high.add_assign(rhs.halves[1]);
        self.halves = [low, high];
    }

    fn add_assign_scalar(&mut self, rhs: S) {
        proof {
            self.low().lemma_lane_count();
            self.high().lemma_lane_count();
            <U::Width as Double>::lemma_doubled();
            lemma_splat_concat(<U::Width as Width>::spec_value(), rhs);
            lemma_added_concat(
                self.low().lanes(),
                self.high().lanes(),
                splat_lanes(<U::Width as Width>::spec_value(), rhs),
                splat_lanes(<U::Width as Width>::spec_value(), rhs),
            );
        }
        let mut low = self.halves[0];
        let mut high = self.halves[1];
        low.add_assign_scalar(rhs);
        high.add_assign_scalar(rhs);
        self.halves = [low, high];
    }

    fn sub(self, rhs: Self) -> (r: Self) {
        proof {
            self.low().lemma_lane_count();
            self.high().lemma_lane_count();
            rhs.low().lemma_lane_count();
            rhs.high().lemma_lane_count();
            lemma_subtracted_concat(
                self.low().lanes(),
                self.high().lanes(),
                rhs.low().lanes(),
                rhs.high().lanes(),
            );
        }
        let low = self.halves[0].sub(rhs.halves[0]);
        let high = self.halves[1].sub(rhs.halves[1]);
        Shim2 { halves: [low, high], marker: PhantomData }
    }

    fn sub_scalar(self, rhs: S) -> (r: Self) {
        proof {
            self.low().lemma_lane_count();
            self.high().lemma_lane_count();
            <U::Width as Double>::lemma_doubled();
            lemma_splat_concat(<U::Width as Width>::spec_value(), rhs);
            lemma_subtracted_concat(
                self.low().lanes(),
                self.high().lanes(),
                splat_lanes(<U::Width as Width>::spec_value(), rhs),
                splat_lanes(<U::Width as Width>::spec_value(), rhs),
            );
        }
        let low = self.halves[0].sub_scalar(rhs);
        let high = self.halves[1].sub_scalar(rhs);
        Shim2 { halves: [low, high], marker: PhantomData }
    }

    fn sub_assign(&mut self, rhs: Self) {
        proof {
            self.low().lemma_lane_count();
            self.high().lemma_lane_count();
            rhs.low().lemma_lane_count();
            rhs.high().lemma_lane_count();
            lemma_subtracted_concat(
                self.low().lanes(),
                self.high().lanes(),
                rhs.low().lanes(),
                rhs.high().lanes(),
            );
        }
        let mut low = self.halves[0];
        let mut high = self.halves[1];
        low.sub_assign(rhs.halves[0]);
        high.sub_assign(rhs.halves[1]);
        self.halves = [low, high];
    }

    fn sub_assign_scalar(&mut self, rhs: S) {
        proof {
            self.low().lemma_lane_count();
            self.high().lemma_lane_count();
            <U::Width as Double>::lemma_doubled();
            lemma_splat_concat(<U::Width as Width>::spec_value(), rhs);
            lemma_subtracted_concat(
                self.low().lanes(),
                self.high().lanes(),
                splat_lanes(<U::Width as Width>::spec_value(), rhs),
                splat_lanes(<U::Width as Width>::spec_value(), rhs),
            );
        }
        let mut low = self.halves[0];
        let mut high = self.halves[1];
        low.sub_assign_scalar(rhs);
        high.sub_assign_scalar(rhs);
        self.halves = [low, high];
    }

    fn mul(self, rhs: Self) -> (r: Self) {
        proof {
            self.low().lemma_lane_count();
            self.high().lemma_lane_count();
            rhs.low().lemma_lane_count();
            rhs.high().lemma_lane_count();
            lemma_multiplied_concat(
                self.low().lanes(),
                self.high().lanes(),
                rhs.low().lanes(),
                rhs.high().lanes(),
            );
        }
        let low = self.halves[0].mul(rhs.halves[0]);
        let high = self.halves[1].mul(rhs.halves[1]);
        Shim2 { halves: [low, high], marker: PhantomData }
    }

    fn mul_scalar(self, rhs: S) -> (r: Self) {
        proof {
            self.low().lemma_lane_count();
            self.high().lemma_lane_count();
            <U::Width as Double>::lemma_doubled();
            lemma_splat_concat(<U::Width as Width>::spec_value(), rhs);
            lemma_multiplied_concat(
                self.low().lanes(),
                self.high().lanes(),
                splat_lanes(<U::Width as Width>::spec_value(), rhs),
                splat_lanes(<U::Width as Width>::spec_value(), rhs),
            );
        }
        let low = self.halves[0].mul_scalar(rhs);
        let high = self.halves[1].mul_scalar(rhs);
        Shim2 { halves: [low, high], marker: PhantomData }
    }

    fn mul_assign(&mut self, rhs: Self) {
        proof {
            self.low().lemma_lane_count();
            self.high().lemma_lane_count();
            rhs.low().lemma_lane_count();
            rhs.high().lemma_lane_count();
            lemma_multiplied_concat(
                self.low().lanes(),
                self.high().lanes(),
                rhs.low().lanes(),
                rhs.high().lanes(),
            );
        }
        let mut low = self.halves[0];
        let mut high = self.halves[1];
        low.mul_assign(rhs.halves[0]);
        high.mul_assign(rhs.halves[1]);
        self.halves = [low, high];
    }

    fn mul_assign_scalar(&mut self, rhs: S) {
        proof {
            self.low().lemma_lane_count();
            self.high().lemma_lane_count();
            <U::Width as Double>::lemma_doubled();
            lemma_splat_concat(<U::Width as Width>::spec_value(), rhs);
            lemma_multiplied_concat(
                self.low().lanes(),
                self.high().lanes(),
                splat_lanes(<U::Width as Width>::spec_value(), rhs),
                splat_lanes(<U::Width as Width>::spec_value(), rhs),
            );
        }
        let mut low = self.halves[0];
        let mut high = self.halves[1];
        low.mul_assign_scalar(rhs);
        high.mul_assign_scalar(rhs);
        self.halves = [low, high];
    }

    fn div(self, rhs: Self) -> (r: Self) {
        proof {
            self.low().lemma_lane_count();
            self.high().lemma_lane_count();
            rhs.low().lemma_lane_count();
            rhs.high().lemma_lane_count();
            lemma_divided_concat(
                self.low().lanes(),
                self.high().lanes(),
                rhs.low().lanes(),
                rhs.high().lanes(),
            );
        }
        let low = self.halves[0].div(rhs.halves[0]);
        let high = self.halves[1].div(rhs.halves[1]);
        Shim2 { halves: [low, high], marker: PhantomData }
    }

    fn div_scalar(self, rhs: S) -> (r: Self) {
        proof {
            self.low().lemma_lane_count();
            self.high().lemma_lane_count();
            <U::Width as Double>::lemma_doubled();
            lemma_splat_concat(<U::Width as Width>::spec_value(), rhs);
            lemma_divided_concat(
                self.low().lanes(),
                self.high().lanes(),
                splat_lanes(<U::Width as Width>::spec_value(), rhs),
                splat_lanes(<U::Width as Width>::spec_value(), rhs),
            );
        }
        let low = self.halves[0].div_scalar(rhs);
        let high = self.halves[1].div_scalar(rhs);
        Shim2 { halves: [low, high], marker: PhantomData }
    }

    fn div_assign(&mut self, rhs: Self) {
        proof {
            self.low().lemma_lane_count();
            self.high().lemma_lane_count();
            rhs.low().lemma_lane_count();
            rhs.high().lemma_lane_count();
            lemma_divided_concat(
                self.low().lanes(),
                self.high().lanes(),
                rhs.low().lanes(),
                rhs.high().lanes(),
            );
        }
        let mut low = self.halves[0];
        let mut high = self.halves[1];
        low.div_assign(rhs.halves[0]);
        high.div_assign(rhs.halves[1]);
        self.halves = [low, high];
    }

    fn div_assign_scalar(&mut self, rhs: S) {
        proof {
            self.low().lemma_lane_count();
            self.high().lemma_lane_count();
            <U::Width as Double>::lemma_doubled();
            lemma_splat_concat(<U::Width as Width>::spec_value(), rhs);
            lemma_divided_concat(
                self.low().lanes(),
                self.high().lanes(),
                splat_lanes(<U::Width as Width>::spec_value(), rhs),
                splat_lanes(<U::Width as Width>::spec_value(), rhs),
            );
        }
        let mut low = self.halves[0];
        let mut high = self.halves[1];
        low.div_assign_scalar(rhs);
        high.div_assign_scalar(rhs);
        self.halves = [low, high];
    }

}

impl<U, S> Signed for Shim2<U, S> where
    U: Signed + Vector<Scalar = S>,
    U::Width: Double,
    S: Number,
 {
    fn neg(self) -> (r: Self) {
        let low = self.halves[0].neg();
        let high = self.halves[1].neg();
        let r = Shim2 { halves: [low, high], marker: PhantomData };
        assert(r.lanes() =~= lanes_negated(self.lanes()));
        r
    }
}

impl<U, R> Complex for Shim2<U, Cplx<R>> where
    U: Vector<Scalar = Cplx<R>> + Complex<RealScalar = R>,
    U::Width: Double,
    R: Number,
 {
    type RealScalar = R;

    fn conj(self) -> (r: Self) {
        let low = self.halves[0].conj();
        let high = self.halves[1].conj();
        let r = Shim2 { halves: [low, high], marker: PhantomData };
        assert(r.lanes() =~= lanes_conjugated(self.lanes()));
        r
    }

    fn mul_i(self) -> (r: Self) {
        let low = self.halves[0].mul_i();
        let high = self.halves[1].mul_i();
        let r = Shim2 { halves: [low, high], marker: PhantomData };
        assert(r.lanes() =~= lanes_turned(self.lanes()));
        r
    }

    fn mul_neg_i(self) -> (r: Self) {
        let low = self.halves[0].mul_neg_i();
        let high = self.halves[1].mul_neg_i();
        let r = Shim2 { halves: [low, high], marker: PhantomData };
        assert(r.lanes() =~= lanes_turned_back(self.lanes()));
        r
    }
}

/// The lanes of each vector of a sequence, in order.
pub open spec fn rows_of<V: Vector>(items: Seq<V>) -> Seq<Seq<V::Scalar>> {
    Seq::new(items.len(), |i: int| items[i].lanes())
}

/// The lanes of a vector that may be absent.
pub open spec fn lanes_of_option<V: Vector>(v: Option<V>) -> Option<Seq<V::Scalar>> {
    match v {
        Some(v) => Some(v.lanes()),
        None => None,
    }
}

/// The first stage of the sum: the first row, then each later row taken in
/// lane by lane, in order. Nothing, where there is no row.
pub open spec fn accumulated_sum<S: Number>(rows: Seq<Seq<S>>) -> Option<Seq<S>>
    decreases rows.len(),
{
    if rows.len() == 0 {
        None
    } else {
        match accumulated_sum(rows.drop_last()) {
            None => Some(rows.last()),
            Some(so_far) => Some(lanes_added(so_far, rows.last())),
        }
    }
}

/// Lane `k` of the rows folded from the first row down: the first row's lane,
/// then the lane of each later row added to it.
pub open spec fn column_sum<S: Number>(rows: Seq<Seq<S>>, k: int) -> S
    decreases rows.len(),
{
    if rows.len() <= 1 {
        rows[0][k]
    } else {
        column_sum(rows.drop_last(), k).added(rows.last()[k])
    }
}

/// The first stage keeps the lanes apart: of rows of `w` lanes each, lane `k`
/// of the result is the sum of lane `k` of every row, first row first.
pub proof fn lemma_accumulated_sum_lanes<S: Number>(rows: Seq<Seq<S>>, w: nat)
    requires
        rows.len() >= 1,
        forall|r: int| 0 <= r < rows.len() ==> (#[trigger] rows[r]).len() == w,
    ensures
        accumulated_sum(rows) == Some(Seq::new(w, |k: int| column_sum(rows, k))),
    decreases rows.len(),
{
    let columns = Seq::new(w, |k: int| column_sum(rows, k));
    if rows.len() == 1 {
        assert(accumulated_sum(rows.drop_last()) is None);
        assert(rows.last() =~= columns);
    } else {
        let above = rows.drop_last();
        assert forall|r: int| 0 <= r < above.len() implies (#[trigger] above[r]).len() == w by {
            assert(above[r] == rows[r]);
        }
        lemma_accumulated_sum_lanes(above, w);
        let so_far = Seq::new(w, |k: int| column_sum(above, k));
        assert(lanes_added(so_far, rows.last()) =~= columns);
    }
}

/// The second stage of the sum: the additive identity, then each lane
/// taken in, first lane first.
pub open spec fn folded_sum<S: Number>(lanes: Seq<S>) -> S
    decreases lanes.len(),
{
    if lanes.len() == 0 {
        S::zero_value()
    } else {
        folded_sum(lanes.drop_last()).added(lanes.last())
    }
}

/// The sum of all lanes of all rows, in the order of the two stages: the
/// rows are first folded into one row, whose lanes are then folded into one
/// scalar. The additive identity, where there is no row.
pub open spec fn reduced_sum<S: Number>(rows: Seq<Seq<S>>) -> S {
    match accumulated_sum(rows) {
        None => S::zero_value(),
        Some(row) => folded_sum(row),
    }
}

/// The sum of no vectors is the additive identity. The sum of one or
/// more vectors is the sum of their columns: each lane is first folded
/// through all vectors, and the lanes are then folded into one scalar.
pub proof fn lemma_reduced_sum<V: Vector>(items: Seq<V>)
    ensures
        items.len() == 0 ==> reduced_sum(rows_of(items)) == <V::Scalar as Number>::zero_value(),
        items.len() >= 1 ==> reduced_sum(rows_of(items)) == folded_sum(
            Seq::new(
                <V::Width as Width>::spec_value(),
                |k: int| column_sum(rows_of(items), k),
            ),
        ),
{
    let rows = rows_of(items);
    if items.len() >= 1 {
        assert forall|r: int| 0 <= r < rows.len() implies (#[trigger] rows[r]).len()
            == <V::Width as Width>::spec_value() by {
            items[r].lemma_lane_count();
        }
        lemma_accumulated_sum_lanes(rows, <V::Width as Width>::spec_value());
    }
}

/// Summation over the lanes of vectors, in two stages.
pub struct Sum;

impl Sum {
    /// Folds vectors into one by adding each to the first in place, lane by
    /// lane. Returns nothing for no vectors.
    pub fn vectors<V: Ops>(items: &[V]) -> (total: Option<V>)
        ensures
            total is None <==> items@.len() == 0,
            lanes_of_option(total) == accumulated_sum(rows_of(items@)),
    {
        let n = items.len();
        if n == 0 {
            return None;
        }
        let ghost rows = rows_of(items@);
        let mut total = items[0];
        proof {
            let first = rows.subrange(0, 1);
            assert(first.drop_last().len() == 0);
            assert(accumulated_sum(first.drop_last()) is None);
            assert(first.last() == total.lanes());
        }
        let mut i: usize = 1;
        while i < n
            invariant
                1 <= i <= n,
                n == items@.len(),
                rows == rows_of(items@),
                Some(total.lanes()) == accumulated_sum(rows.subrange(0, i as int)),
            decreases n - i,
        {
            total.add_assign(items[i]);
            proof {
                assert(rows.subrange(0, i + 1).drop_last() =~= rows.subrange(0, i as int));
            }
            i += 1;
        }
        assert(rows.subrange(0, n as int) =~= rows);
        Some(total)
    }

    /// Folds the lanes of one vector into a scalar, starting from the
    /// additive identity, first lane first.
    pub fn lanes<V: Vector>(v: V) -> (total: V::Scalar)
        ensures
            total == folded_sum(v.lanes()),
    {
        let lanes = v.as_slice();
        let n = lanes.len();
        let mut total = <V::Scalar as Number>::zero();
        let mut i: usize = 0;
        assert(lanes@.subrange(0, 0).len() == 0);
        while i < n
            invariant
                i <= n,
                n == lanes@.len(),
                total == folded_sum(lanes@.subrange(0, i as int)),
            decreases n - i,
        {
            total = total.add(lanes[i]);
            proof {
                assert(lanes@.subrange(0, i + 1).drop_last() =~= lanes@.subrange(0, i as int));
            }
            i += 1;
        }
        assert(lanes@.subrange(0, n as int) =~= lanes@);
        total
    }

    /// The sum of all lanes of all vectors, in two stages: first the vectors
    /// are folded into one, then the lanes of that one into a scalar. The
    /// additive identity for no vectors.
    pub fn sum<V: Ops>(items: &[V]) -> (total: V::Scalar)
        ensures
            total == reduced_sum(rows_of(items@)),
    {
        match Self::vectors(items) {
            Some(v) => Self::lanes(v),
            None => <V::Scalar as Number>::zero(),
        }
    }
}

/// The first stage of the product: the first row, then each later row taken in
/// lane by lane, in order. Nothing, where there is no row.
pub open spec fn accumulated_product<S: Number>(rows: Seq<Seq<S>>) -> Option<Seq<S>>
    decreases rows.len(),
{
    if rows.len() == 0 {
        None
    } else {
        match accumulated_product(rows.drop_last()) {
            None => Some(rows.last()),
            Some(so_far) => Some(lanes_multiplied(so_far, rows.last())),
        }
    }
}

/// Lane `k` of the rows folded from the first row down: the first row's lane,
/// then the lane of each later row multiplied to it.
pub open spec fn column_product<S: Number>(rows: Seq<Seq<S>>, k: int) -> S
    decreases rows.len(),
{
    if rows.len() <= 1 {
        rows[0][k]
    } else {
        column_product(rows.drop_last(), k).multiplied(rows.last()[k])
    }
}

/// The first stage keeps the lanes apart: of rows of `w` lanes each, lane `k`
/// of the result is the product of lane `k` of every row, first row first.
pub proof fn lemma_accumulated_product_lanes<S: Number>(rows: Seq<Seq<S>>, w: nat)
    requires
        rows.len() >= 1,
        forall|r: int| 0 <= r < rows.len() ==> (#[trigger] rows[r]).len() == w,
    ensures
        accumulated_product(rows) == Some(Seq::new(w, |k: int| column_product(rows, k))),
    decreases rows.len(),
{
    let columns = Seq::new(w, |k: int| column_product(rows, k));
    if rows.len() == 1 {
        assert(accumulated_product(rows.drop_last()) is None);
        assert(rows.last() =~= columns);
    } else {
        let above = rows.drop_last();
        assert forall|r: int| 0 <= r < above.len() implies (#[trigger] above[r]).len() == w by {
            assert(above[r] == rows[r]);
        }
        lemma_accumulated_product_lanes(above, w);
        let so_far = Seq::new(w, |k: int| column_product(above, k));
        assert(lanes_multiplied(so_far, rows.last()) =~= columns);
    }
}

/// The second stage of the product: the multiplicative identity, then each lane
/// taken in, first lane first.
pub open spec fn folded_product<S: Number>(lanes: Seq<S>) -> S
    decreases lanes.len(),
{
    if lanes.len() == 0 {
        S::one_value()
    } else {
        folded_product(lanes.drop_last()).multiplied(lanes.last())
    }
}

/// The product of all lanes of all rows, in the order of the two stages: the
/// rows are first folded into one row, whose lanes are then folded into one
/// scalar. The multiplicative identity, where there is no row.
pub open spec fn reduced_product<S: Number>(rows: Seq<Seq<S>>) -> S {
    match accumulated_product(rows) {
        None => S::one_value(),
        Some(row) => folded_product(row),
    }
}

/// The product of no vectors is the multiplicative identity. The product of one or
/// more vectors is the product of their columns: each lane is first folded
/// through all vectors, and the lanes are then folded into one scalar.
pub proof fn lemma_reduced_product<V: Vector>(items: Seq<V>)
    ensures
        items.len() == 0 ==> reduced_product(rows_of(items)) == <V::Scalar as Number>::one_value(),
        items.len() >= 1 ==> reduced_product(rows_of(items)) == folded_product(
            Seq::new(
                <V::Width as Width>::spec_value(),
                |k: int| column_product(rows_of(items), k),
            ),
        ),
{
    let rows = rows_of(items);
    if items.len() >= 1 {
        assert forall|r: int| 0 <= r < rows.len() implies (#[trigger] rows[r]).len()
            == <V::Width as Width>::spec_value() by {
            items[r].lemma_lane_count();
        }
        lemma_accumulated_product_lanes(rows, <V::Width as Width>::spec_value());
    }
}

/// Multiplication over the lanes of vectors, in two stages.
pub struct Product;

impl Product {
    /// Folds vectors into one by multiplying each to the first in place, lane by
    /// lane. Returns nothing for no vectors.
    pub fn vectors<V: Ops>(items: &[V]) -> (total: Option<V>)
        ensures
            total is None <==> items@.len() == 0,
            lanes_of_option(total) == accumulated_product(rows_of(items@)),
    {
        let n = items.len();
        if n == 0 {
            return None;
        }
        let ghost rows = rows_of(items@);
        let mut total = items[0];
        proof {
            let first = rows.subrange(0, 1);
            assert(first.drop_last().len() == 0);
            assert(accumulated_product(first.drop_last()) is None);
            assert(first.last() == total.lanes());
        }
        let mut i: usize = 1;
        while i < n
            invariant
                1 <= i <= n,
                n == items@.len(),
                rows == rows_of(items@),
                Some(total.lanes()) == accumulated_product(rows.subrange(0, i as int)),
            decreases n - i,
        {
            total.mul_assign(items[i]);
            proof {
                assert(rows.subrange(0, i + 1).drop_last() =~= rows.subrange(0, i as int));
            }
            i += 1;
        }
        assert(rows.subrange(0, n as int) =~= rows);
        Some(total)
    }

    /// Folds the lanes of one vector into a scalar, starting from the
    /// multiplicative identity, first lane first.
    pub fn lanes<V: Vector>(v: V) -> (total: V::Scalar)
        ensures
            total == folded_product(v.lanes()),
    {
        let lanes = v.as_slice();
        let n = lanes.len();
        let mut total = <V::Scalar as Number>::one();
        let mut i: usize = 0;
        assert(lanes@.subrange(0, 0).len() == 0);
        while i < n
            invariant
                i <= n,
                n == lanes@.len(),
                total == folded_product(lanes@.subrange(0, i as int)),
            decreases n - i,
        {
            total = total.mul(lanes[i]);
            proof {
                assert(lanes@.subrange(0, i + 1).drop_last() =~= lanes@.subrange(0, i as int));
            }
            i += 1;
        }
        assert(lanes@.subrange(0, n as int) =~= lanes@);
        total
    }

    /// The product of all lanes of all vectors, in two stages: first the vectors
    /// are folded into one, then the lanes of that one into a scalar. The
    /// multiplicative identity for no vectors.
    pub fn product<V: Ops>(items: &[V]) -> (total: V::Scalar)
        ensures
            total == reduced_product(rows_of(items@)),
    {
        match Self::vectors(items) {
            Some(v) => Self::lanes(v),
            None => <V::Scalar as Number>::one(),
        }
    }
}

} // verus!
