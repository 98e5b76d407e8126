//! Why a mutation request was refused.

use vstd::prelude::*;

verus! {

/// Every failure of the mutation API. All variants are caller-visible and
/// recoverable; a failed call leaves the store untouched.
#[derive(Clone, Copy, Debug, PartialEq, Eq)]
pub enum Error {
    /// The caller does not satisfy the privileged-origin predicate.
    Unauthorized,
    /// An addition was requested for an identity already queued for addition.
    ValidatorAlreadyAdded,
    /// A removal was requested for an identity that is not in the active set.
    NotValidator,
    /// A removal would leave fewer than the configured minimum of validators
    /// once every queued removal is accounted for.
    TooFewValidators,
}

} // verus!
