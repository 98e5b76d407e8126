//! Identifier types shared by the whole crate.

use vstd::prelude::*;

verus! {

/// Opaque, comparable, orderable identity of a consensus participant.
pub type ValidatorId = u64;

/// Identifier under which a caller invokes the mutation API.
pub type AccountId = u64;

} // verus!
