//! The fallback implementation: vectors of one lane, which every CPU
//! supports.

use crate::arch::Generic;
use crate::scalar::{Cplx, Number, Scalar};
use crate::shim::{Shim2, Shim4, Shim8};
use crate::vector::{
    first_lanes, lanes_added, lanes_conjugated, lanes_divided, lanes_multiplied, lanes_negated,
    lanes_subtracted, lanes_turned, lanes_turned_back, splat_lanes, Complex, Native, Ops, Signed,
    Vector,
};
use crate::width::{Width, W1, W2, W4, W8};
use vstd::prelude::*;

verus! {

/// A vector of one lane under the fallback token.
#[derive(Debug)]
pub struct Single<S> {
    lane: S,
}

impl<S: Copy> Clone for Single<S> {
    fn clone(&self) -> (v: Self)
        ensures
            v == *self,
    {
        *self
    }
}

impl<S: Copy> Copy for Single<S> {

}

impl<S: Number> Native<Generic> for S {
    type Width = W1;
}

impl<S: Number> Scalar<Generic, W1> for S {
    type Vector = Single<S>;
}

impl<S: Number> Scalar<Generic, W2> for S {
    type Vector = Shim2<Single<S>, S>;
}

impl<S: Number> Scalar<Generic, W4> for S {
    type Vector = Shim4<Single<S>, S>;
}

impl<S: Number> Scalar<Generic, W8> for S {
    type Vector = Shim8<Single<S>, S>;
}

impl<S: Number> Vector for Single<S> {
    type Scalar = S;

    type Token = Generic;

    type Width = W1;

    type Underlying = S;

    closed spec fn lanes(&self) -> Seq<S> {
        splat_lanes(1, self.lane)
    }

    open spec fn underlying_lanes(underlying: S) -> Seq<S> {
        splat_lanes(1, underlying)
    }

    proof fn lemma_lane_count(&self) {
        assert(<W1 as Width>::spec_value() == 1);
    }

    proof fn lemma_underlying_lane_count(underlying: S) {
    }

    proof fn lemma_lanes_determine(a: Self, b: Self) {
        assert(a.lanes()[0] == a.lane);
        assert(b.lanes()[0] == b.lane);
    }

    fn to_token(self) -> (token: Generic) {
        Generic
    }

    fn as_slice(&self) -> (lanes: Vec<S>) {
        let mut lanes: Vec<S> = Vec::new();
        lanes.push(self.lane);
        assert(lanes@ =~= self.lanes());
        lanes
    }

    fn lane(&self, index: usize) -> (value: S) {
        self.lane
    }

    fn set_lane(&mut self, index: usize, value: S) {
        self.lane = value;
        assert(self.lanes() =~= old(self).lanes().update(index as int, value));
    }

    fn to_underlying(self) -> (underlying: S) {
        self.lane
    }

    fn from_underlying(token: Generic, underlying: S) -> (v: Self) {
        Single { lane: underlying }
    }

    fn read(token: Generic, from: &[S]) -> (v: Self) {
        let v = Single { lane: from[0] };
        assert(v.lanes() =~= first_lanes(from@, 1));
        v
    }

    fn zeroed(token: Generic) -> (v: Self) {
        let v = Single { lane: S::zero() };
        assert(v.lanes() =~= splat_lanes(1, S::zero_value()));
        v
    }

    fn splat(token: Generic, from: S) -> (v: Self) {
        let v = Single { lane: from };
        assert(v.lanes() =~= splat_lanes(1, from));
        v
    }
}

impl<S: Number> Ops for Single<S> {
    fn add(self, rhs: Self) -> (r: Self) {
        let r = Single { lane: self.lane.add(rhs.lane) };
        assert(r.lanes() =~= lanes_added(self.lanes(), rhs.lanes()));
        r
    }

    fn add_scalar(self, rhs: S) -> (r: Self) {
        let r = Single { lane: self.lane.add(rhs) };
        assert(r.lanes() =~= lanes_added(
            self.lanes(),
            splat_lanes(1, rhs),
        ));
        r
    }

    fn add_assign(&mut self, rhs: Self) {
        self.lane = self.lane.add(rhs.lane);
        assert(self.lanes() =~= lanes_added(old(self).lanes(), rhs.lanes()));
    }

    fn add_assign_scalar(&mut self, rhs: S) {
        self.lane = self.lane.add(rhs);
        assert(self.lanes() =~= lanes_added(
            old(self).lanes(),
            splat_lanes(1, rhs),
        ));
    }

    fn sub(self, rhs: Self) -> (r: Self) {
        let r = Single { lane: self.lane.sub(rhs.lane) };
        assert(r.lanes() =~= lanes_subtracted(self.lanes(), rhs.lanes()));
        r
    }

    fn sub_scalar(self, rhs: S) -> (r: Self) {
        let r = Single { lane: self.lane.sub(rhs) };
        assert(r.lanes() =~= lanes_subtracted(
            self.lanes(),
            splat_lanes(1, rhs),
        ));
        r
    }

    fn sub_assign(&mut self, rhs: Self) {
        self.lane = self.lane.sub(rhs.lane);
        assert(self.lanes() =~= lanes_subtracted(old(self).lanes(), rhs.lanes()));
    }

    fn sub_assign_scalar(&mut self, rhs: S) {
        self.lane = self.lane.sub(rhs);
        assert(self.lanes() =~= lanes_subtracted(
            old(self).lanes(),
            splat_lanes(1, rhs),
        ));
    }

    fn mul(self, rhs: Self) -> (r: Self) {
        let r = Single { lane: self.lane.mul(rhs.lane) };
        assert(r.lanes() =~= lanes_multiplied(self.lanes(), rhs.lanes()));
        r
    }

    fn mul_scalar(self, rhs: S) -> (r: Self) {
        let r = Single { lane: self.lane.mul(rhs) };
        assert(r.lanes() =~= lanes_multiplied(
            self.lanes(),
            splat_lanes(1, rhs),
        ));
        r
    }

    fn mul_assign(&mut self, rhs: Self) {
        self.lane = self.lane.mul(rhs.lane);
        assert(self.lanes() =~= lanes_multiplied(old(self).lanes(), rhs.lanes()));
    }

    fn mul_assign_scalar(&mut self, rhs: S) {
        self.lane = self.lane.mul(rhs);
        assert(self.lanes() =~= lanes_multiplied(
            old(self).lanes(),
            splat_lanes(1, rhs),
        ));
    }

    fn div(self, rhs: Self) -> (r: Self) {
        let r = Single { lane: self.lane.div(rhs.lane) };
        assert(r.lanes() =~= lanes_divided(self.lanes(), rhs.lanes()));
        r
    }

    fn div_scalar(self, rhs: S) -> (r: Self) {
        let r = Single { lane: self.lane.div(rhs) };
        assert(r.lanes() =~= lanes_divided(
            self.lanes(),
            splat_lanes(1, rhs),
        ));
        r
    }

    fn div_assign(&mut self, rhs: Self) {
        self.lane = self.lane.div(rhs.lane);
        assert(self.lanes() =~= lanes_divided(old(self).lanes(), rhs.lanes()));
    }

    fn div_assign_scalar(&mut self, rhs: S) {
        self.lane = self.lane.div(rhs);
        assert(self.lanes() =~= lanes_divided(
            old(self).lanes(),
            splat_lanes(1, rhs),
        ));
    }

}

impl<S: Number> Signed for Single<S> {
    fn neg(self) -> (r: Self) {
        let r = Single { lane: self.lane.neg() };
        assert(r.lanes() =~= lanes_negated(self.lanes()));
        r
    }
}

impl<R: Number> Complex for Single<Cplx<R>> {
    type RealScalar = R;

    fn conj(self) -> (r: Self) {
        let r = Single { lane: self.lane.conj() };
        assert(r.lanes() =~= lanes_conjugated(self.lanes()));
        r
    }

    fn mul_i(self) -> (r: Self) {
        let r = Single { lane: self.lane.mul_i() };
        assert(r.lanes() =~= lanes_turned(self.lanes()));
        r
    }

    fn mul_neg_i(self) -> (r: Self) {
        let r = Single { lane: self.lane.mul_neg_i() };
        assert(r.lanes() =~= lanes_turned_back(self.lanes()));
        r
    }
}

} // verus!
