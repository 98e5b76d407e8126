//! Notifications emitted by the mutation API.

use vstd::prelude::*;

use crate::ids::ValidatorId;

verus! {

/// Observational notification emitted on a successful mutation request.
/// Events feed nothing back into the store; they only record what was
/// accepted, for the host to observe.
#[derive(Clone, Debug, PartialEq, Eq)]
pub enum Event {
    /// A batch of candidates was queued for addition.
    ValidatorsRegistered { validators: Vec<ValidatorId> },
    /// A validator was queued for removal.
    ValidatorRemoved { validator: ValidatorId },
}

impl Event {
    /// Holds when this event announces exactly the accepted candidate list `vs`.
    pub open spec fn is_registration(self, vs: Seq<ValidatorId>) -> bool {
        match self {
            Event::ValidatorsRegistered { validators } => validators@ == vs,
            _ => false,
        }
    }

    /// Holds when this event announces that `v` was queued for removal.
    pub open spec fn is_removal(self, v: ValidatorId) -> bool {
        match self {
            Event::ValidatorRemoved { validator } => validator == v,
            _ => false,
        }
    }
}

/// Holds when `post` is `pre` with exactly one event appended: a successful
/// mutation request extends the log by one and rewrites nothing.
pub open spec fn extends_by_one(pre: Seq<Event>, post: Seq<Event>) -> bool {
    &&& post.len() == pre.len() + 1
    &&& post.take(pre.len() as int) == pre
}

} // verus!
