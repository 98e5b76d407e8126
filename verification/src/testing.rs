//! An in-memory host for exercising the store end to end: a root-only
//! authorizer, a session counter and the store itself, wired the way a real
//! host would wire them. The test suite drives whole scenarios through it.

use vstd::prelude::*;

use crate::auth::RootAccount;
use crate::errors::Error;
use crate::events::Event;
use crate::events::extends_by_one;
use crate::ids::AccountId;
use crate::ids::ValidatorId;
use crate::manager::ValidatorManager;
use crate::manager::accepts_batch;
use crate::manager::initialize_validators;
use crate::transition::next_active;

verus! {

/// A self-contained host: the store, a single privileged root account and
/// the index of the running session.
pub struct Test {
    /// The store under test.
    pub manager: ValidatorManager,
    /// The privileged-origin predicate: exactly one root account.
    pub auth: RootAccount,
    /// The session the host is currently in.
    pub session: u32,
}

impl Test {
    /// Well-formedness of the whole host: that of the store.
    pub open spec fn wf(self) -> bool {
        self.manager.wf()
    }

    /// A host at genesis: the supplied initial active set, empty queues, no
    /// events, session zero, and `root` as the only privileged caller.
    pub fn genesis(initial: Vec<ValidatorId>, min_authorities: usize, root: AccountId) -> (t: Test)
        requires
            initial@.no_duplicates(),
            min_authorities >= 1,
            initial@.len() >= min_authorities,
        ensures
            t.wf(),
            t.manager.active@ == initial@,
            t.manager.to_add@ == Seq::<ValidatorId>::empty(),
            t.manager.to_remove@ == Seq::<ValidatorId>::empty(),
            t.manager.min_authorities == min_authorities,
            t.manager.events@ == Seq::<Event>::empty(),
            t.auth.root == root,
            t.session == 0,
    {
        Test { manager: initialize_validators(initial, min_authorities), auth: RootAccount { root }, session: 0 }
    }

    /// Block hook: ends the running session and starts session `index`,
    /// applying the queued changes at the boundary, as the host's scheduler
    /// would.
    pub fn on_initialize(&mut self, index: u32)
        requires
            old(self).wf(),
        ensures
            final(self).wf(),
            final(self).session == index,
            final(self).auth == old(self).auth,
            final(self).manager.active@ == next_active(
                old(self).manager.active@,
                old(self).manager.to_add@,
                old(self).manager.to_remove@,
            ),
            final(self).manager.to_add@ == Seq::<ValidatorId>::empty(),
            final(self).manager.to_remove@ == Seq::<ValidatorId>::empty(),
            final(self).manager.min_authorities == old(self).manager.min_authorities,
            final(self).manager.events@ == old(self).manager.events@,
            final(self).manager.active@.len() >= old(self).manager.min_authorities,
    {
        self.manager.on_session_end(self.session);
        self.session = index;
        let _adopted = self.manager.on_new_session(index);
    }

    /// Requests that `validators` be queued for addition, as `caller`.
    pub fn register_validators(&mut self, caller: AccountId, validators: Vec<ValidatorId>) -> (r:
        Result<(), Error>)
        requires
            old(self).wf(),
        ensures
            final(self).wf(),
            final(self).auth == old(self).auth,
            final(self).session == old(self).session,
            final(self).manager.active@ == old(self).manager.active@,
            final(self).manager.to_remove@ == old(self).manager.to_remove@,
            final(self).manager.min_authorities == old(self).manager.min_authorities,
            r is Ok <==> caller == old(self).auth.root && accepts_batch(
                old(self).manager.to_add@,
                validators@,
            ),
            caller != old(self).auth.root ==> r == Err::<(), Error>(Error::Unauthorized),
            caller == old(self).auth.root && !accepts_batch(old(self).manager.to_add@, validators@)
                ==> r == Err::<(), Error>(Error::ValidatorAlreadyAdded),
            r is Ok ==> final(self).manager.to_add@ == old(self).manager.to_add@ + validators@,
            r is Ok ==> extends_by_one(old(self).manager.events@, final(self).manager.events@),
            r is Ok ==> final(self).manager.events@.last().is_registration(validators@),
            r is Err ==> final(self).manager.to_add@ == old(self).manager.to_add@,
            r is Err ==> final(self).manager.events@ == old(self).manager.events@,
    {
        self.manager.register_validators(&self.auth, caller, validators)
    }

    /// Requests that `validator` be queued for removal, as `caller`.
    pub fn remove_validator(&mut self, caller: AccountId, validator: ValidatorId) -> (r: Result<
        (),
        Error,
    >)
        requires
            old(self).wf(),
        ensures
            final(self).wf(),
            final(self).auth == old(self).auth,
            final(self).session == old(self).session,
            final(self).manager.active@ == old(self).manager.active@,
            final(self).manager.to_add@ == old(self).manager.to_add@,
            final(self).manager.min_authorities == old(self).manager.min_authorities,
            r is Ok <==> caller == old(self).auth.root && old(self).manager.active@.contains(
                validator,
            ) && old(self).manager.removal_keeps_quorum(validator),
            caller != old(self).auth.root ==> r == Err::<(), Error>(Error::Unauthorized),
            caller == old(self).auth.root && !old(self).manager.active@.contains(validator) ==> r
                == Err::<(), Error>(Error::NotValidator),
            caller == old(self).auth.root && old(self).manager.active@.contains(validator) && !old(
                self,
            ).manager.removal_keeps_quorum(validator) ==> r == Err::<(), Error>(
                Error::TooFewValidators,
            ),
            r is Ok ==> final(self).manager.to_remove@ == (if old(
                self,
            ).manager.to_remove@.contains(validator) {
                old(self).manager.to_remove@
            } else {
                old(self).manager.to_remove@.push(validator)
            }),
            r is Ok ==> extends_by_one(old(self).manager.events@, final(self).manager.events@),
            r is Ok ==> final(self).manager.events@.last().is_removal(validator),
            r is Err ==> final(self).manager.to_remove@ == old(self).manager.to_remove@,
            r is Err ==> final(self).manager.events@ == old(self).manager.events@,
    {
        self.manager.remove_validator(&self.auth, caller, validator)
    }

    /// The validator set in force for the running session.
    pub fn validators(&self) -> (v: Vec<ValidatorId>)
        ensures
            v@ == self.manager.active@,
    {
        self.manager.active_set()
    }

    /// Snapshot of the identities queued for addition.
    pub fn validators_to_add(&self) -> (v: Vec<ValidatorId>)
        ensures
            v@ == self.manager.to_add@,
    {
        self.manager.validators_to_add()
    }

    /// Snapshot of the identities queued for removal.
    pub fn validators_to_remove(&self) -> (v: Vec<ValidatorId>)
        ensures
            v@ == self.manager.to_remove@,
    {
        self.manager.validators_to_remove()
    }

    /// Every notification emitted so far, oldest first.
    pub fn events(&self) -> (e: &Vec<Event>)
        ensures
            e@ == self.manager.events@,
    {
        self.manager.event_log()
    }
}

} // verus!
