//! Vectors of scalar lanes, written once for every CPU.
//!
//! Numeric code is written once against [`vector::Vector`] and its arithmetic
//! refinements. A capability token ([`arch::Token`]) licenses every vector
//! that is built, and [`shim::Shim2`] composes two vectors into one of twice
//! the width where no wider register exists.
//!
//! Every vector is modelled by the sequence of its lanes, and every contract is
//! stated over that sequence.

pub mod arch;
pub mod generic;
pub mod scalar;
pub mod shim;
pub mod vector;
pub mod width;
