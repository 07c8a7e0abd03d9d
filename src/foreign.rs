//! Types of other crates that the library carries without reading them.

use vstd::prelude::*;

verus! {

/// An operating-system error: the process could not be spawned, or a file or
/// stream operation failed. Carried through unread.
#[verifier::external_type_specification]
#[verifier::external_body]
pub struct ExIoError(std::io::Error);

/// A JSON encoding or decoding error. Carried through unread.
#[verifier::external_type_specification]
#[verifier::external_body]
pub struct ExJsonError(serde_json::Error);

/// An element of the prime field of the Cairo virtual machine. Its value is
/// carried through unread.
#[verifier::external_type_specification]
#[verifier::external_body]
pub struct ExFelt(starknet_types_core::felt::Felt);

/// Relies on `Felt`'s derived `Clone`: `Felt` is `Copy`, so a clone is the
/// same value.
pub assume_specification[ <starknet_types_core::felt::Felt as Clone>::clone ](
    f: &starknet_types_core::felt::Felt,
) -> (r: starknet_types_core::felt::Felt)
    ensures
        r == *f,
;

} // verus!
