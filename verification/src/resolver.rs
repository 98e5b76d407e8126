//! Conversion from caller-supplied account identifiers to validator
//! identities, supplied by the host and used only at the edge between the
//! two identifier spaces.

use vstd::prelude::*;

use crate::ids::AccountId;
use crate::ids::ValidatorId;

verus! {

/// Host-supplied resolution of an account to the validator identity the
/// consensus layer knows it by, if any.
pub trait IdentityResolver {
    /// What the account resolves to.
    spec fn resolution(&self, account: AccountId) -> Option<ValidatorId>;

    /// Resolves `account`, returning `None` for accounts that name no
    /// validator.
    fn resolve(&self, account: AccountId) -> (r: Option<ValidatorId>)
        ensures
            r == self.resolution(account),
    ;
}

/// Resolver for hosts whose account and validator identifier spaces
/// coincide: every account names itself.
pub struct ValidatorOf;

impl IdentityResolver for ValidatorOf {
    open spec fn resolution(&self, account: AccountId) -> Option<ValidatorId> {
        Some(account)
    }

    fn resolve(&self, account: AccountId) -> (r: Option<ValidatorId>) {
        Some(account)
    }
}

/// The identities that `accounts` resolve to under `resolver`, in input
/// order, with unresolvable accounts dropped.
pub open spec fn resolved_ids<R: IdentityResolver>(
    resolver: R,
    accounts: Seq<AccountId>,
) -> Seq<ValidatorId>
    decreases accounts.len(),
{
    if accounts.len() == 0 {
        Seq::empty()
    } else {
        let rest = resolved_ids(resolver, accounts.drop_last());
        match resolver.resolution(accounts.last()) {
            Some(v) => rest.push(v),
            None => rest,
        }
    }
}

/// Maps caller-supplied accounts to validator identities, dropping the
/// accounts that resolve to nothing.
pub fn resolve_validators<R: IdentityResolver>(
    resolver: &R,
    accounts: &Vec<AccountId>,
) -> (out: Vec<ValidatorId>)
    ensures
        out@ == resolved_ids(*resolver, accounts@),
{
    let mut out: Vec<ValidatorId> = Vec::new();
    let n = accounts.len();
    let mut i: usize = 0;
    while i < n
        invariant
            n == accounts@.len(),
            i <= n,
            out@ == resolved_ids(*resolver, accounts@.take(i as int)),
        decreases n - i,
    {
        proof {
            assert(accounts@.take(i + 1).drop_last() =~= accounts@.take(i as int));
            assert(accounts@.take(i + 1).last() == accounts@[i as int]);
        }
        match resolver.resolve(accounts[i]) {
            Some(v) => out.push(v),
            None => {},
        }
        i = i + 1;
    }
    proof {
        assert(accounts@.take(n as int) =~= accounts@);
    }
    out
}

} // verus!
