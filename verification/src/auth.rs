//! The privileged-origin predicate that gates every mutation request.

use vstd::prelude::*;

use crate::ids::AccountId;

verus! {

/// Capability check supplied by the host: decides which callers may mutate
/// validator-set membership. The store is agnostic to how the host implements
/// it (a root account, a multisig, governance, ...).
pub trait Authorizer {
    /// The callers the predicate accepts.
    spec fn allows(&self, caller: AccountId) -> bool;

    /// Decides whether `caller` may invoke a privileged operation.
    fn authorize(&self, caller: AccountId) -> (r: bool)
        ensures
            r == self.allows(caller),
    ;
}

/// Privileged-origin predicate that accepts exactly one root account.
pub struct RootAccount {
    pub root: AccountId,
}

impl Authorizer for RootAccount {
    open spec fn allows(&self, caller: AccountId) -> bool {
        caller == self.root
    }

    fn authorize(&self, caller: AccountId) -> (r: bool) {
        caller == self.root
    }
}

} // verus!
