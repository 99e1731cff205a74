//! Lane counts as types.

use vstd::prelude::*;

verus! {

/// A lane count known from the type alone.
pub trait Width: Copy {
    /// The number of lanes.
    spec fn spec_value() -> nat;

    /// The number of lanes, as a machine integer.
    fn value() -> (n: usize)
        ensures
            n == Self::spec_value(),
    ;
}

/// One lane.
#[derive(Clone, Copy, Debug)]
pub struct W1;

/// Two lanes.
#[derive(Clone, Copy, Debug)]
pub struct W2;

/// Four lanes.
#[derive(Clone, Copy, Debug)]
pub struct W4;

/// Eight lanes.
#[derive(Clone, Copy, Debug)]
pub struct W8;

impl Width for W1 {
    open spec fn spec_value() -> nat {
        1
    }

    fn value() -> (n: usize) {
        1
    }
}

impl Width for W2 {
    open spec fn spec_value() -> nat {
        2
    }

    fn value() -> (n: usize) {
        2
    }
}

impl Width for W4 {
    open spec fn spec_value() -> nat {
        4
    }

    fn value() -> (n: usize) {
        4
    }
}

impl Width for W8 {
    open spec fn spec_value() -> nat {
        8
    }

    fn value() -> (n: usize) {
        8
    }
}

/// Determines the doubled width of a width.
pub trait Double: Width {
    /// The width with twice as many lanes.
    type Doubled: Width;

    /// The doubled width counts exactly twice the lanes.
    proof fn lemma_doubled()
        ensures
            <Self::Doubled as Width>::spec_value() == 2 * Self::spec_value(),
    ;
}

impl Double for W1 {
    type Doubled = W2;

    proof fn lemma_doubled() {
    }
}

impl Double for W2 {
    type Doubled = W4;

    proof fn lemma_doubled() {
    }
}

impl Double for W4 {
    type Doubled = W8;

    proof fn lemma_doubled() {
    }
}

} // verus!
