//! The validator set store and its mutation API: queues of pending
//! additions and removals, validated up front and drained at each session
//! boundary.

use vstd::prelude::*;

use crate::auth::Authorizer;
use crate::errors::Error;
use crate::events::Event;
use crate::events::extends_by_one;
use crate::ids::AccountId;
use crate::ids::ValidatorId;
use crate::transition::next_active;
use crate::transition::not_in;
use crate::transition::not_in_nor;
use crate::transition::survivors;
use crate::transition::with_additions;
use crate::transition::lemma_filter_equiv;
use crate::transition::lemma_filter_keeps_all;
use crate::transition::lemma_next_active_no_duplicates;
use crate::transition::lemma_next_active_quorum;

verus! {

/// The validator set store: the active set in force for the running
/// session, the two pending queues, the configured quorum floor and the
/// log of emitted notifications.
///
/// The host mutates it only through the methods below; every method keeps
/// `wf()`.
pub struct ValidatorManager {
    /// The validator set in force for the running session. Mutated only at
    /// a session boundary.
    pub active: Vec<ValidatorId>,
    /// Identities queued for inclusion at the next boundary, in request
    /// order.
    pub to_add: Vec<ValidatorId>,
    /// Identities queued for exclusion at the next boundary.
    pub to_remove: Vec<ValidatorId>,
    /// Lower bound on the size of any active set committed at a boundary.
    pub min_authorities: usize,
    /// Every notification emitted so far, oldest first.
    pub events: Vec<Event>,
}

/// When a batch of addition candidates is acceptable against the pending
/// addition queue: no candidate may already be queued, and no candidate may
/// occur twice in the batch. The whole batch is validated before any write,
/// so a request either queues every candidate or queues none.
pub open spec fn accepts_batch(pending: Seq<ValidatorId>, candidates: Seq<ValidatorId>) -> bool {
    &&& candidates.no_duplicates()
    &&& forall|i: int| 0 <= i < candidates.len() ==> !pending.contains(#[trigger] candidates[i])
}

impl ValidatorManager {
    /// Well-formedness: the quorum floor is positive, the active set and
    /// both queues hold no duplicates, only active members are queued for
    /// removal, and enough active members survive the queued removals to
    /// keep the next committed set at or above the floor.
    pub open spec fn wf(self) -> bool {
        &&& self.min_authorities >= 1
        &&& self.active@.no_duplicates()
        &&& self.to_add@.no_duplicates()
        &&& self.to_remove@.no_duplicates()
        &&& forall|i: int|
            0 <= i < self.to_remove@.len() ==> self.active@.contains(#[trigger] self.to_remove@[i])
        &&& survivors(self.active@, self.to_remove@).len() >= self.min_authorities
    }

    /// When removing `validator` is safe: the active members that are
    /// neither already queued for removal nor equal to `validator` still
    /// number at least the quorum floor. The guard counts the queue in
    /// aggregate, not merely the current set size, so a queue that is
    /// individually satisfiable but unsafe as a whole is never built up.
    pub open spec fn removal_keeps_quorum(self, validator: ValidatorId) -> bool {
        self.active@.filter(not_in_nor(self.to_remove@, validator)).len() >= self.min_authorities
    }
}

/// The quorum law: whatever sequence of accepted mutation requests led to a
/// well-formed store — genesis establishes `wf()` and every mutation method
/// ensures it — the set committed at the next session boundary holds at
/// least `min_authorities` validators. `on_new_session` returns exactly
/// this set.
pub proof fn lemma_boundary_meets_quorum(m: ValidatorManager)
    requires
        m.wf(),
    ensures
        next_active(m.active@, m.to_add@, m.to_remove@).len() >= m.min_authorities,
{
    lemma_next_active_quorum(m.active@, m.to_add@, m.to_remove@);
}

/// Idempotence of rejection: a non-empty batch that has just been queued is
/// never acceptable again. A successful `register_validators` call leaves
/// the addition queue at `pending + candidates`, against which the same
/// batch fails the acceptance test; by the contract of
/// `register_validators`, the repeated submission therefore returns
/// `ValidatorAlreadyAdded` and leaves the queue — and so its size —
/// unchanged.
pub proof fn lemma_repeat_registration_rejected(
    pending: Seq<ValidatorId>,
    candidates: Seq<ValidatorId>,
)
    requires
        candidates.len() > 0,
    ensures
        !accepts_batch(pending + candidates, candidates),
{
    assert((pending + candidates)[pending.len() as int] == candidates[0]);
    assert((pending + candidates).contains(candidates[0]));
}

/// Whether `ids` holds `x`.
fn contains_id(ids: &Vec<ValidatorId>, x: ValidatorId) -> (r: bool)
    ensures
        r == ids@.contains(x),
{
    let n = ids.len();
    let mut i: usize = 0;
    while i < n
        invariant
            n == ids@.len(),
            i <= n,
            forall|j: int| 0 <= j < i ==> ids@[j] != x,
        decreases n - i,
    {
        if ids[i] == x {
            return true;
        }
        i = i + 1;
    }
    false
}

/// Whether the first `end` entries of `ids` hold `x`.
fn contains_id_up_to(ids: &Vec<ValidatorId>, end: usize, x: ValidatorId) -> (r: bool)
    requires
        end <= ids@.len(),
    ensures
        r == ids@.take(end as int).contains(x),
{
    let mut i: usize = 0;
    while i < end
        invariant
            end <= ids@.len(),
            i <= end,
            forall|j: int| 0 <= j < i ==> ids@[j] != x,
        decreases end - i,
    {
        if ids[i] == x {
            assert(ids@.take(end as int)[i as int] == x);
            return true;
        }
        i = i + 1;
    }
    false
}

/// `base` with every addition that is not already a member appended in
/// queue order.
fn merge_additions(base: &Vec<ValidatorId>, additions: &Vec<ValidatorId>) -> (out: Vec<
    ValidatorId,
>)
    ensures
        out@ == with_additions(base@, additions@),
{
    let mut out = copy_ids(base);
    let n = additions.len();
    let mut i: usize = 0;
    while i < n
        invariant
            n == additions@.len(),
            i <= n,
            out@ == base@ + additions@.take(i as int).filter(not_in(base@)),
        decreases n - i,
    {
        let v = additions[i];
        proof {
            broadcast use vstd::seq_lib::group_seq_properties;

            assert(additions@.take(i + 1) =~= additions@.take(i as int).push(
                additions@[i as int],
            ));
            additions@.take(i as int).lemma_filter_push(additions@[i as int], not_in(base@));
        }
        if !contains_id(base, v) {
            out.push(v);
            proof {
                Seq::push_distributes_over_add(
                    base@,
                    additions@.take(i as int).filter(not_in(base@)),
                    additions@[i as int],
                );
            }
        }
        i = i + 1;
    }
    proof {
        assert(additions@.take(n as int) =~= additions@);
    }
    out
}

/// The members of `ids`, in order, that are not queued for removal.
fn drop_removed(ids: &Vec<ValidatorId>, removals: &Vec<ValidatorId>) -> (out: Vec<ValidatorId>)
    ensures
        out@ == ids@.filter(not_in(removals@)),
{
    let n = ids.len();
    let mut out: Vec<ValidatorId> = Vec::new();
    let mut i: usize = 0;
    while i < n
        invariant
            n == ids@.len(),
            i <= n,
            out@ == ids@.take(i as int).filter(not_in(removals@)),
        decreases n - i,
    {
        let v = ids[i];
        proof {
            broadcast use vstd::seq_lib::group_seq_properties;

            assert(ids@.take(i + 1) =~= ids@.take(i as int).push(ids@[i as int]));
            ids@.take(i as int).lemma_filter_push(ids@[i as int], not_in(removals@));
        }
        if !contains_id(removals, v) {
            out.push(v);
        }
        i = i + 1;
    }
    proof {
        assert(ids@.take(n as int) =~= ids@);
    }
    out
}

/// A fresh vector with the same identities in the same order.
fn copy_ids(ids: &Vec<ValidatorId>) -> (out: Vec<ValidatorId>)
    ensures
        out@ == ids@,
{
    let n = ids.len();
    let mut out: Vec<ValidatorId> = Vec::new();
    let mut i: usize = 0;
    while i < n
        invariant
            n == ids@.len(),
            i <= n,
            out@ == ids@.take(i as int),
        decreases n - i,
    {
        out.push(ids[i]);
        proof {
            assert(ids@.take(i + 1) =~= ids@.take(i as int).push(ids@[i as int]));
        }
        i = i + 1;
    }
    proof {
        assert(ids@.take(n as int) =~= ids@);
    }
    out
}

/// Genesis: installs the host-supplied initial active set with both queues
/// empty and nothing emitted. The host owes a duplicate-free initial set at
/// least as large as the quorum floor; every committed set thereafter stays
/// at or above that floor.
pub fn initialize_validators(initial: Vec<ValidatorId>, min_authorities: usize) -> (m:
    ValidatorManager)
    requires
        initial@.no_duplicates(),
        min_authorities >= 1,
        initial@.len() >= min_authorities,
    ensures
        m.wf(),
        m.active@ == initial@,
        m.to_add@ == Seq::<ValidatorId>::empty(),
        m.to_remove@ == Seq::<ValidatorId>::empty(),
        m.min_authorities == min_authorities,
        m.events@ == Seq::<Event>::empty(),
{
    let m = ValidatorManager {
        active: initial,
        to_add: Vec::new(),
        to_remove: Vec::new(),
        min_authorities,
        events: Vec::new(),
    };
    proof {
        broadcast use vstd::seq_lib::group_seq_properties;

        lemma_filter_keeps_all(m.active@, not_in(m.to_remove@));
    }
    m
}

impl ValidatorManager {
    /// Queues `candidates` for inclusion at the next session boundary.
    ///
    /// The caller must satisfy the privileged-origin predicate, no candidate
    /// may already be queued for addition and no candidate may occur twice
    /// in the batch; a member of the current active set may be re-queued as
    /// long as it is not already pending. The batch is validated in full
    /// before any write, so either every candidate is queued and a
    /// `ValidatorsRegistered` notification carries the whole accepted list,
    /// or the store is left exactly as it was.
    #[verifier::loop_isolation(false)]
    pub fn register_validators<A: Authorizer>(
        &mut self,
        auth: &A,
        caller: AccountId,
        candidates: Vec<ValidatorId>,
    ) -> (r: Result<(), Error>)
        requires
            old(self).wf(),
        ensures
            final(self).wf(),
            final(self).active@ == old(self).active@,
            final(self).to_remove@ == old(self).to_remove@,
            final(self).min_authorities == old(self).min_authorities,
            r is Ok <==> auth.allows(caller) && accepts_batch(old(self).to_add@, candidates@),
            !auth.allows(caller) ==> r == Err::<(), Error>(Error::Unauthorized),
            auth.allows(caller) && !accepts_batch(old(self).to_add@, candidates@) ==> r == Err::<
                (),
                Error,
            >(Error::ValidatorAlreadyAdded),
            r is Ok ==> final(self).to_add@ == old(self).to_add@ + candidates@,
            r is Ok ==> extends_by_one(old(self).events@, final(self).events@),
            r is Ok ==> final(self).events@.last().is_registration(candidates@),
            r is Err ==> final(self).to_add@ == old(self).to_add@,
            r is Err ==> final(self).events@ == old(self).events@,
    {
        if !auth.authorize(caller) {
            return Err(Error::Unauthorized);
        }
        // Validate the whole batch first: no write happens unless every
        // candidate is acceptable.
        let n = candidates.len();
        let mut i: usize = 0;
        while i < n
            invariant
                n == candidates@.len(),
                i <= n,
                accepts_batch(self.to_add@, candidates@.take(i as int)),
            decreases n - i,
        {
            if contains_id(&self.to_add, candidates[i]) {
                return Err(Error::ValidatorAlreadyAdded);
            }
            if contains_id_up_to(&candidates, i, candidates[i]) {
                proof {
                    broadcast use vstd::seq_lib::group_seq_properties;

                    let j = candidates@.take(i as int).lemma_contains_to_index(
                        candidates@[i as int],
                    );
                    assert(candidates@[j] == candidates@[i as int]);
                }
                return Err(Error::ValidatorAlreadyAdded);
            }
            proof {
                broadcast use vstd::seq_lib::group_seq_properties;

                assert(candidates@.take(i + 1) =~= candidates@.take(i as int).push(
                    candidates@[i as int],
                ));
            }
            i = i + 1;
        }
        proof {
            assert(candidates@.take(n as int) =~= candidates@);
        }
        // The batch is accepted: emit the notification and queue every
        // candidate.
        self.events.push(Event::ValidatorsRegistered { validators: copy_ids(&candidates) });
        let ghost pre = self.to_add@;
        let ghost logged = self.events@;
        let mut i: usize = 0;
        while i < n
            invariant
                n == candidates@.len(),
                i <= n,
                self.to_add@ == pre + candidates@.take(i as int),
                self.events@ == logged,
                self.active@ == old(self).active@,
                self.to_remove@ == old(self).to_remove@,
                self.min_authorities == old(self).min_authorities,
            decreases n - i,
        {
            self.to_add.push(candidates[i]);
            proof {
                assert(candidates@.take(i + 1) =~= candidates@.take(i as int).push(
                    candidates@[i as int],
                ));
                assert(pre + candidates@.take(i + 1) =~= (pre + candidates@.take(i as int)).push(
                    candidates@[i as int],
                ));
            }
            i = i + 1;
        }
        proof {
            broadcast use vstd::seq_lib::group_seq_properties;

            assert(pre + candidates@.take(n as int) =~= pre + candidates@);
            assert(self.events@.take(old(self).events@.len() as int) =~= old(self).events@);
            assert forall|p: int, q: int|
                0 <= p < self.to_add@.len() && 0 <= q < self.to_add@.len() && p
                    != q implies self.to_add@[p] != self.to_add@[q] by {
                if p < pre.len() && q >= pre.len() {
                    assert(!pre.contains(candidates@[q - pre.len()]));
                }
                if q < pre.len() && p >= pre.len() {
                    assert(!pre.contains(candidates@[p - pre.len()]));
                }
            }
        }
        Ok(())
    }

    /// Queues `validator` for exclusion at the next session boundary.
    ///
    /// The caller must satisfy the privileged-origin predicate, the target
    /// must be a member of the current active set, and removing it together
    /// with everything already queued for removal must leave at least
    /// `min_authorities` members standing; queued additions are discounted.
    /// On success the target joins the removal queue (a second request for
    /// the same target leaves the queue as it is) and a `ValidatorRemoved`
    /// notification is emitted; on failure the store is left exactly as it
    /// was.
    #[verifier::loop_isolation(false)]
    pub fn remove_validator<A: Authorizer>(
        &mut self,
        auth: &A,
        caller: AccountId,
        validator: ValidatorId,
    ) -> (r: Result<(), Error>)
        requires
            old(self).wf(),
        ensures
            final(self).wf(),
            final(self).active@ == old(self).active@,
            final(self).to_add@ == old(self).to_add@,
            final(self).min_authorities == old(self).min_authorities,
            r is Ok <==> auth.allows(caller) && old(self).active@.contains(validator) && old(
                self,
            ).removal_keeps_quorum(validator),
            !auth.allows(caller) ==> r == Err::<(), Error>(Error::Unauthorized),
            auth.allows(caller) && !old(self).active@.contains(validator) ==> r == Err::<
                (),
                Error,
            >(Error::NotValidator),
            auth.allows(caller) && old(self).active@.contains(validator) && !old(
                self,
            ).removal_keeps_quorum(validator) ==> r == Err::<(), Error>(Error::TooFewValidators),
            r is Ok ==> final(self).to_remove@ == (if old(self).to_remove@.contains(validator) {
                old(self).to_remove@
            } else {
                old(self).to_remove@.push(validator)
            }),
            r is Ok ==> extends_by_one(old(self).events@, final(self).events@),
            r is Ok ==> final(self).events@.last().is_removal(validator),
            r is Err ==> final(self).to_remove@ == old(self).to_remove@,
            r is Err ==> final(self).events@ == old(self).events@,
    {
        if !auth.authorize(caller) {
            return Err(Error::Unauthorized);
        }
        if !contains_id(&self.active, validator) {
            return Err(Error::NotValidator);
        }
        // Count the active members that would survive every queued removal
        // plus this one: the guard checks the queue in aggregate.
        let ghost keep = not_in_nor(self.to_remove@, validator);
        let n = self.active.len();
        let mut count: usize = 0;
        let mut i: usize = 0;
        while i < n
            invariant
                count == self.active@.take(i as int).filter(keep).len(),
                count <= i <= n,
            decreases n - i,
        {
            let v = self.active[i];
            proof {
                broadcast use vstd::seq_lib::group_seq_properties;

                assert(self.active@.take(i + 1) =~= self.active@.take(i as int).push(
                    self.active@[i as int],
                ));
                self.active@.take(i as int).lemma_filter_len_push(keep, self.active@[i as int]);
            }
            if !contains_id(&self.to_remove, v) && v != validator {
                count = count + 1;
            }
            i = i + 1;
        }
        proof {
            assert(self.active@.take(n as int) =~= self.active@);
        }
        if count < self.min_authorities {
            return Err(Error::TooFewValidators);
        }
        if !contains_id(&self.to_remove, validator) {
            self.to_remove.push(validator);
            proof {
                broadcast use vstd::seq_lib::group_seq_properties;

                lemma_filter_equiv(self.active@, not_in(self.to_remove@), keep);
            }
        }
        self.events.push(Event::ValidatorRemoved { validator });
        proof {
            broadcast use vstd::seq_lib::group_seq_properties;

            assert(self.events@.take(old(self).events@.len() as int) =~= old(self).events@);
            if old(self).to_remove@.contains(validator) {
                lemma_filter_equiv(self.active@, not_in(self.to_remove@), keep);
            }
        }
        Ok(())
    }

    /// End-of-session hook: read-only, mutates nothing. The host may call
    /// it to snapshot metrics for the session that is ending.
    pub fn on_session_end(&self, _index: u32) {
    }

    /// Start-of-session hook: the transition function. Applies the queued
    /// additions to the outgoing set, then takes the queued removals out,
    /// clears both queues unconditionally, adopts the result as the active
    /// set and returns it for the host to adopt too.
    ///
    /// The returned set never falls below `min_authorities`: the mutation
    /// API pre-validates every removal against the whole queue, and that
    /// validation is exactly what the quorum bound of the transition needs,
    /// so the under-quorum transition the design worries about is proved
    /// unreachable rather than handled.
    pub fn on_new_session(&mut self, _index: u32) -> (next: Vec<ValidatorId>)
        requires
            old(self).wf(),
        ensures
            final(self).wf(),
            next@ == next_active(old(self).active@, old(self).to_add@, old(self).to_remove@),
            final(self).active@ == next@,
            final(self).to_add@ == Seq::<ValidatorId>::empty(),
            final(self).to_remove@ == Seq::<ValidatorId>::empty(),
            final(self).min_authorities == old(self).min_authorities,
            final(self).events@ == old(self).events@,
            next@.len() >= old(self).min_authorities,
            next@.no_duplicates(),
    {
        let merged = merge_additions(&self.active, &self.to_add);
        let next = drop_removed(&merged, &self.to_remove);
        proof {
            broadcast use vstd::seq_lib::group_seq_properties;

            lemma_next_active_quorum(self.active@, self.to_add@, self.to_remove@);
            lemma_next_active_no_duplicates(self.active@, self.to_add@, self.to_remove@);
        }
        self.active = next;
        self.to_add = Vec::new();
        self.to_remove = Vec::new();
        proof {
            broadcast use vstd::seq_lib::group_seq_properties;

            lemma_filter_keeps_all(self.active@, not_in(self.to_remove@));
        }
        copy_ids(&self.active)
    }

    /// The active set in force for the running session.
    pub fn active_set(&self) -> (v: Vec<ValidatorId>)
        ensures
            v@ == self.active@,
    {
        copy_ids(&self.active)
    }

    /// Snapshot of the identities queued for addition, in request order.
    pub fn validators_to_add(&self) -> (v: Vec<ValidatorId>)
        ensures
            v@ == self.to_add@,
    {
        copy_ids(&self.to_add)
    }

    /// Snapshot of the identities queued for removal.
    pub fn validators_to_remove(&self) -> (v: Vec<ValidatorId>)
        ensures
            v@ == self.to_remove@,
    {
        copy_ids(&self.to_remove)
    }

    /// Every notification emitted so far, oldest first.
    pub fn event_log(&self) -> (e: &Vec<Event>)
        ensures
            e@ == self.events@,
    {
        &self.events
    }
}

} // verus!
