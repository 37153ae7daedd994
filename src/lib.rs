//! Export of the parameters that an on-chain (EVM) verifier of a PLONK-style
//! proof needs: curve points in the pairing precompile's coordinate order, the
//! Fiat–Shamir seed derived from a verifying key, the structural counts that size
//! the generated contract's loops, and a transcript abstraction that runs either
//! over real proof bytes or over fixed placeholder values.
use vstd::prelude::*;

pub mod field;
pub mod encode;
pub mod shape;
pub mod seed;
pub mod transcript;
pub mod context;

verus! {

} // verus!
