//! Translation between a bridge contract's ABI and the relay's records:
//! call payloads, log decoding, and log filters.
use vstd::prelude::*;

pub mod abi;
pub mod types;
pub mod bridge;

verus! {

} // verus!
