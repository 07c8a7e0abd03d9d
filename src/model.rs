//! The inputs of one proving call, and what a prover hands back.

use crate::layout::Layout;
use vstd::prelude::*;

verus! {

/// A named contiguous address range of the execution's public memory.
#[derive(Debug, Clone)]
pub struct MemorySegment<'a> {
    pub name: &'a str,
    pub start: starknet_types_core::felt::Felt,
    pub end: starknet_types_core::felt::Felt,
}

/// One public-memory record: an address, its value, and the page it is on.
#[derive(Debug, Clone)]
pub struct MemoryEntry {
    pub address: usize,
    pub value: starknet_types_core::felt::Felt,
    pub page: usize,
}

/// The layout's dynamic parameters. Reserved: their schema is not settled
/// yet, so the value holds nothing.
#[derive(Debug, Clone, Copy, PartialEq, Eq, Default, Structural)]
pub struct DynamicParams {}

/// All that a prover needs to produce one proof. It borrows every buffer
/// from the caller.
#[derive(Debug, Clone)]
pub struct ProofRequest<'a> {
    // Public input.
    pub layout: Layout,
    pub rc_min: isize,
    pub rc_max: isize,
    pub n_steps: usize,
    pub memory_segments: &'a [MemorySegment<'a>],
    pub public_memory: &'a [MemoryEntry],
    pub dynamic_params: DynamicParams,
    // Private input.
    pub trace: &'a [u8],
    pub memory: &'a [u8],
    pub pedersen: &'a [starknet_types_core::felt::Felt],
    pub range_check: &'a [starknet_types_core::felt::Felt],
    pub ecdsa: &'a [starknet_types_core::felt::Felt],
    pub bitwise: &'a [starknet_types_core::felt::Felt],
    pub ec_ops: &'a [starknet_types_core::felt::Felt],
    pub keccak: &'a [starknet_types_core::felt::Felt],
    pub poseidon: &'a [starknet_types_core::felt::Felt],
}

/// What a prover produces. It holds nothing yet: reading the prover's output
/// file into it is still to be written.
#[derive(Debug, Clone, PartialEq, Eq, Structural)]
pub struct Proof {}

/// A layer that makes data available to the network without (necessarily)
/// relying on a local database. It has no operations: it serves as a bound.
pub trait DataAvailabilityLayer {}

} // verus!
