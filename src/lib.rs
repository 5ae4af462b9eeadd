//! An owner-gated registry of protocol addresses and an aggregator that sums
//! each protocol's yield for a user, with overflow-checked 256-bit arithmetic.

pub mod laws;
pub mod primitives;
pub mod registry;
pub mod yields;
