//! Capability tokens.
//!
//! A token is a zero-sized proof that a set of CPU features may be used. It
//! can be had in two ways only: by detection, or by a caller who already knows
//! that the features are present.

use vstd::prelude::*;

verus! {

/// Indicates support for a particular CPU feature set.
///
/// A value of an implementing type exists only where the features are
/// supported.
pub trait Token: Copy {
    /// Whether the features that this token stands for are present on the
    /// executing CPU.
    spec fn supported() -> bool;

    /// Detects whether the required CPU features are supported.
    fn new() -> (token: Option<Self>)
        ensures
            token.is_some() <==> Self::supported(),
    ;

    /// Creates the token without detecting whether the CPU features are
    /// supported. The caller has to know that they are.
    fn new_unchecked() -> (token: Self)
        requires
            Self::supported(),
    ;

    /// Converts the token to the fallback token, which every CPU supports.
    fn to_generic(self) -> (token: Generic);
}

/// The fallback token: plain scalar code, available everywhere.
#[derive(Clone, Copy, Debug)]
pub struct Generic;

impl Token for Generic {
    open spec fn supported() -> bool {
        true
    }

    fn new() -> (token: Option<Self>) {
        Some(Generic)
    }

    fn new_unchecked() -> (token: Self) {
        Generic
    }

    fn to_generic(self) -> (token: Generic) {
        self
    }
}

/// A capability tier: one feature set that a token can stand for.
#[derive(Clone, Copy, Debug, PartialEq, Eq, Structural)]
pub enum Tier {
    /// 256-bit vectors on x86.
    Avx,
    /// 128-bit vectors on x86.
    Sse,
    /// 128-bit vectors on 64-bit ARM.
    Neon,
    /// 128-bit vectors on WebAssembly.
    Simd128,
    /// Plain scalar code.
    Generic,
}

/// A family of compilation targets, as far as the tiers depend on it.
#[derive(Clone, Copy, Debug, PartialEq, Eq, Structural)]
pub enum Target {
    /// 32-bit or 64-bit x86.
    X86,
    /// 64-bit ARM with its vector extension enabled.
    Aarch64,
    /// 32-bit WebAssembly with its vector extension enabled.
    Wasm32,
    /// Any other target.
    Other,
}

impl Tier {
    /// Whether a token of this tier converts to one of `to`: to itself, from
    /// the wider x86 tier to the narrower, and from every tier to the
    /// fallback. Never upward, and never across architectures.
    pub open spec fn converts_to(self, to: Tier) -> bool {
        self == to || to == Tier::Generic || (self == Tier::Avx && to == Tier::Sse)
    }

    /// Decides whether a token of this tier converts to one of `to`.
    pub fn can_convert_to(self, to: Tier) -> (yes: bool)
        ensures
            yes == self.converts_to(to),
    {
        match (self, to) {
            (_, Tier::Generic) => true,
            (Tier::Avx, Tier::Avx) => true,
            (Tier::Avx, Tier::Sse) => true,
            (Tier::Sse, Tier::Sse) => true,
            (Tier::Neon, Tier::Neon) => true,
            (Tier::Simd128, Tier::Simd128) => true,
            _ => false,
        }
    }
}

/// The tiers that a target may use, most capable first, ending with the
/// fallback.
pub open spec fn tiers_of(target: Target) -> Seq<Tier> {
    match target {
        Target::X86 => seq![Tier::Avx, Tier::Sse, Tier::Generic],
        Target::Aarch64 => seq![Tier::Neon, Tier::Generic],
        Target::Wasm32 => seq![Tier::Simd128, Tier::Generic],
        Target::Other => seq![Tier::Generic],
    }
}

/// Lists the tiers that a target may use, in priority order.
pub fn supported_tiers(target: Target) -> (tiers: Vec<Tier>)
    ensures
        tiers@ == tiers_of(target),
{
    let mut tiers: Vec<Tier> = Vec::new();
    match target {
        Target::X86 => {
            tiers.push(Tier::Avx);
            tiers.push(Tier::Sse);
        },
        Target::Aarch64 => {
            tiers.push(Tier::Neon);
        },
        Target::Wasm32 => {
            tiers.push(Tier::Simd128);
        },
        Target::Other => {},
    }
    tiers.push(Tier::Generic);
    assert(tiers@ =~= tiers_of(target));
    tiers
}

/// The list of a target is never empty, ends with the fallback, names no
/// tier twice, and each tier in it converts to every tier behind it.
pub proof fn lemma_tiers_ordered(target: Target)
    ensures
        tiers_of(target).len() >= 1,
        tiers_of(target).last() == Tier::Generic,
        forall|i: int, j: int|
            0 <= i < j < tiers_of(target).len() ==> {
                &&& tiers_of(target)[i] != tiers_of(target)[j]
                &&& (#[trigger] tiers_of(target)[i]).converts_to(#[trigger] tiers_of(target)[j])
                &&& !tiers_of(target)[j].converts_to(tiers_of(target)[i])
            },
{
}

/// Conversion only ever goes downward: it is reflexive, transitive, and
/// never goes both ways between two different tiers.
pub proof fn lemma_conversion_order(a: Tier, b: Tier, c: Tier)
    ensures
        a.converts_to(a),
        a.converts_to(Tier::Generic),
        a.converts_to(b) && b.converts_to(c) ==> a.converts_to(c),
        a.converts_to(b) && b.converts_to(a) ==> a == b,
{
}

} // verus!
