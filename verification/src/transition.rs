//! The session-boundary transition: what the next active set is, given the
//! set in force and the two pending queues, and the facts that hold of it.

use vstd::prelude::*;

use crate::ids::ValidatorId;

verus! {

/// The predicate that keeps an identity exactly when it is not a member of
/// `excluded`.
pub open spec fn not_in(excluded: Seq<ValidatorId>) -> spec_fn(ValidatorId) -> bool {
    |v: ValidatorId| !excluded.contains(v)
}

/// The predicate that keeps an identity exactly when it is neither a member
/// of `excluded` nor equal to `extra`.
pub open spec fn not_in_nor(
    excluded: Seq<ValidatorId>,
    extra: ValidatorId,
) -> spec_fn(ValidatorId) -> bool {
    |v: ValidatorId| !excluded.contains(v) && v != extra
}

/// The queued additions that are not already members of `base`, in queue
/// order. Additions of current members collapse into the union and change
/// nothing.
pub open spec fn fresh_additions(
    base: Seq<ValidatorId>,
    additions: Seq<ValidatorId>,
) -> Seq<ValidatorId> {
    additions.filter(not_in(base))
}

/// `base` with the queued additions applied: the members of `base` in their
/// existing order, followed by the genuinely new additions in queue order.
pub open spec fn with_additions(
    base: Seq<ValidatorId>,
    additions: Seq<ValidatorId>,
) -> Seq<ValidatorId> {
    base + fresh_additions(base, additions)
}

/// The active set for the next session: additions are applied to `base`
/// first, then every identity queued for removal is taken out.
pub open spec fn next_active(
    base: Seq<ValidatorId>,
    additions: Seq<ValidatorId>,
    removals: Seq<ValidatorId>,
) -> Seq<ValidatorId> {
    with_additions(base, additions).filter(not_in(removals))
}

/// The members of `base` that survive the queued removals, in their existing
/// order. Their count is what the removal guard keeps at or above the
/// configured minimum.
pub open spec fn survivors(
    base: Seq<ValidatorId>,
    removals: Seq<ValidatorId>,
) -> Seq<ValidatorId> {
    base.filter(not_in(removals))
}

/// Two pointwise-equal predicates filter a sequence to the same result.
pub proof fn lemma_filter_equiv(
    s: Seq<ValidatorId>,
    p: spec_fn(ValidatorId) -> bool,
    q: spec_fn(ValidatorId) -> bool,
)
    requires
        forall|v: ValidatorId| #[trigger] p(v) == #[trigger] q(v),
    ensures
        s.filter(p) == s.filter(q),
    decreases s.len(),
{
    reveal(Seq::filter);
    if s.len() > 0 {
        lemma_filter_equiv(s.drop_last(), p, q);
    }
}

/// Filtering with a predicate that accepts every element is the identity.
pub proof fn lemma_filter_keeps_all(s: Seq<ValidatorId>, pred: spec_fn(ValidatorId) -> bool)
    requires
        forall|i: int| 0 <= i < s.len() ==> pred(#[trigger] s[i]),
    ensures
        s.filter(pred) == s,
    decreases s.len(),
{
    reveal(Seq::filter);
    if s.len() > 0 {
        lemma_filter_keeps_all(s.drop_last(), pred);
    }
}

/// Filtering preserves distinctness: a sequence without duplicates stays
/// without duplicates once elements are dropped.
proof fn lemma_filter_no_duplicates(s: Seq<ValidatorId>, pred: spec_fn(ValidatorId) -> bool)
    requires
        s.no_duplicates(),
    ensures
        s.filter(pred).no_duplicates(),
    decreases s.len(),
{
    broadcast use vstd::seq_lib::group_seq_properties;

    reveal(Seq::filter);
    if s.len() > 0 {
        let rest = s.drop_last();
        lemma_filter_no_duplicates(rest, pred);
        if pred(s.last()) {
            assert(!rest.contains(s.last()));
            assert(!rest.filter(pred).contains(s.last())) by {
                if rest.filter(pred).contains(s.last()) {
                    rest.lemma_filter_contains_rev(pred, s.last());
                }
            }
        }
    }
}

/// Membership in the next active set, characterised: an identity is active
/// after the boundary exactly when it was active before or queued for
/// addition, and not queued for removal.
pub proof fn lemma_next_active_members(
    base: Seq<ValidatorId>,
    additions: Seq<ValidatorId>,
    removals: Seq<ValidatorId>,
)
    ensures
        forall|v: ValidatorId|
            #[trigger] next_active(base, additions, removals).contains(v)
                <==> ((base.contains(v) || additions.contains(v)) && !removals.contains(v)),
{
    broadcast use vstd::seq_lib::group_seq_properties;

    let merged = with_additions(base, additions);
    let keep_new = not_in(base);
    let keep = not_in(removals);
    let next = next_active(base, additions, removals);
    assert forall|v: ValidatorId| #[trigger] next.contains(v) implies ((base.contains(v)
        || additions.contains(v)) && !removals.contains(v)) by {
        merged.lemma_filter_contains_rev(keep, v);
        let i = merged.lemma_contains_to_index(v);
        if i >= base.len() {
            assert(fresh_additions(base, additions)[i - base.len()] == v);
            assert(fresh_additions(base, additions).contains(v));
            additions.lemma_filter_contains_rev(keep_new, v);
        } else {
            assert(base[i] == v);
            assert(base.contains(v));
        }
        let j = next.lemma_contains_to_index(v);
        merged.lemma_filter_pred(keep, j);
    }
    assert forall|v: ValidatorId| (base.contains(v) || additions.contains(v))
        && !removals.contains(v) implies #[trigger] next.contains(v) by {
        if base.contains(v) {
            let i = base.lemma_contains_to_index(v);
            assert(merged[i] == v);
            assert(merged.contains(v));
        } else {
            let i = additions.lemma_contains_to_index(v);
            additions.lemma_filter_contains(keep_new, i);
            let j = fresh_additions(base, additions).lemma_contains_to_index(v);
            assert(merged[base.len() + j] == v);
            assert(merged.contains(v));
        }
        let k = merged.lemma_contains_to_index(v);
        merged.lemma_filter_contains(keep, k);
    }
}

/// Removal precedence: an identity queued for removal is absent from the
/// next active set, whatever was queued for addition. The queued removal
/// alone determines its absence after the boundary.
pub proof fn lemma_removal_precedence(
    base: Seq<ValidatorId>,
    additions: Seq<ValidatorId>,
    removals: Seq<ValidatorId>,
    v: ValidatorId,
)
    requires
        removals.contains(v),
    ensures
        !next_active(base, additions, removals).contains(v),
{
    lemma_next_active_members(base, additions, removals);
}

/// The next active set has no duplicate identities, provided the set in
/// force and the addition queue had none.
pub proof fn lemma_next_active_no_duplicates(
    base: Seq<ValidatorId>,
    additions: Seq<ValidatorId>,
    removals: Seq<ValidatorId>,
)
    requires
        base.no_duplicates(),
        additions.no_duplicates(),
    ensures
        next_active(base, additions, removals).no_duplicates(),
{
    broadcast use vstd::seq_lib::group_seq_properties;

    let keep_new = not_in(base);
    let fresh = fresh_additions(base, additions);
    let merged = with_additions(base, additions);
    lemma_filter_no_duplicates(additions, keep_new);
    assert forall|i: int, j: int|
        0 <= i < merged.len() && 0 <= j < merged.len() && i != j implies merged[i]
        != merged[j] by {
        if i < base.len() && j >= base.len() {
            additions.lemma_filter_pred(keep_new, j - base.len());
        }
        if j < base.len() && i >= base.len() {
            additions.lemma_filter_pred(keep_new, i - base.len());
        }
    }
    lemma_filter_no_duplicates(merged, not_in(removals));
}

/// The quorum bound: the next active set is at least as large as the part of
/// the outgoing set that survives the queued removals, whatever the addition
/// queue holds.
pub proof fn lemma_next_active_quorum(
    base: Seq<ValidatorId>,
    additions: Seq<ValidatorId>,
    removals: Seq<ValidatorId>,
)
    ensures
        next_active(base, additions, removals).len() >= survivors(base, removals).len(),
{
    let keep = not_in(removals);
    Seq::filter_distributes_over_add(base, fresh_additions(base, additions), keep);
    assert(next_active(base, additions, removals) == survivors(base, removals)
        + fresh_additions(base, additions).filter(keep));
}

} // verus!
