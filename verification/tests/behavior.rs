//! Tests of the stated properties on concrete values: the quorum bound,
//! idempotence of rejection, unconditional queue clearing, removal
//! precedence, the edge cases of batch validation, and the direct store API.

use validator_manager::Error;
use validator_manager::Event;
use validator_manager::IdentityResolver;
use validator_manager::RootAccount;
use validator_manager::Test;
use validator_manager::ValidatorOf;
use validator_manager::initialize_validators;
use validator_manager::resolve_validators;

fn host() -> Test {
    Test::genesis(vec![1, 2, 3], 2, 1)
}

#[test]
fn quorum_holds_after_mixed_operations() {
    let mut t = host();
    assert!(t.register_validators(1, vec![4, 5]).is_ok());
    assert!(t.remove_validator(1, 1).is_ok());
    // A second removal would leave only one survivor of the old set and is
    // refused, although additions are pending.
    assert_eq!(t.remove_validator(1, 2), Err(Error::TooFewValidators));
    t.on_initialize(1);
    assert_eq!(t.validators(), vec![2, 3, 4, 5]);
    assert!(t.validators().len() >= 2);
}

#[test]
fn second_submission_is_rejected_and_queue_size_kept() {
    let mut t = host();
    assert!(t.register_validators(1, vec![7]).is_ok());
    assert_eq!(t.validators_to_add().len(), 1);
    assert_eq!(t.register_validators(1, vec![7]), Err(Error::ValidatorAlreadyAdded));
    assert_eq!(t.validators_to_add().len(), 1);
}

#[test]
fn queues_are_empty_after_every_boundary() {
    let mut t = host();
    assert!(t.register_validators(1, vec![4]).is_ok());
    assert!(t.remove_validator(1, 3).is_ok());
    t.on_initialize(1);
    assert_eq!(t.validators_to_add(), Vec::<u64>::new());
    assert_eq!(t.validators_to_remove(), Vec::<u64>::new());
    // A boundary with nothing queued also leaves both queues empty.
    t.on_initialize(2);
    assert_eq!(t.validators_to_add(), Vec::<u64>::new());
    assert_eq!(t.validators_to_remove(), Vec::<u64>::new());
}

#[test]
fn removal_takes_precedence_over_pending_addition() {
    let mut t = host();
    assert!(t.remove_validator(1, 2).is_ok());
    // 2 is still active per the base set, so re-queueing it for addition is
    // accepted; the queued removal alone decides its absence afterwards.
    assert!(t.register_validators(1, vec![2]).is_ok());
    assert_eq!(t.validators_to_add(), vec![2]);
    assert_eq!(t.validators_to_remove(), vec![2]);
    t.on_initialize(1);
    assert!(!t.validators().contains(&2));
    assert_eq!(t.validators(), vec![1, 3]);
}

#[test]
fn empty_batch_is_accepted() {
    let mut t = host();
    assert!(t.register_validators(1, vec![]).is_ok());
    assert_eq!(t.validators_to_add(), Vec::<u64>::new());
    assert!(t.events().contains(&Event::ValidatorsRegistered { validators: vec![] }));
}

#[test]
fn batch_with_internal_duplicate_is_rejected() {
    let mut t = host();
    assert_eq!(t.register_validators(1, vec![5, 5]), Err(Error::ValidatorAlreadyAdded));
    assert_eq!(t.validators_to_add(), Vec::<u64>::new());
}

#[test]
fn readding_an_active_member_changes_nothing_at_the_boundary() {
    let mut t = host();
    assert!(t.register_validators(1, vec![2]).is_ok());
    t.on_initialize(1);
    assert_eq!(t.validators(), vec![1, 2, 3]);
}

#[test]
fn removing_the_same_validator_twice_keeps_the_queue() {
    let mut t = host();
    assert!(t.remove_validator(1, 2).is_ok());
    assert!(t.remove_validator(1, 2).is_ok());
    assert_eq!(t.validators_to_remove(), vec![2]);
}

#[test]
fn quorum_guard_still_holds_after_a_boundary() {
    let mut t = host();
    assert!(t.remove_validator(1, 2).is_ok());
    t.on_initialize(2);
    assert_eq!(t.validators(), vec![1, 3]);
    // Removing another member of the now smaller set would leave one.
    assert_eq!(t.remove_validator(1, 3), Err(Error::TooFewValidators));
}

#[test]
fn unauthorized_calls_mutate_nothing() {
    let mut t = host();
    let active = t.validators();
    let to_add = t.validators_to_add();
    let to_remove = t.validators_to_remove();
    let events = t.events().clone();
    assert_eq!(t.register_validators(9, vec![4]), Err(Error::Unauthorized));
    assert_eq!(t.remove_validator(9, 2), Err(Error::Unauthorized));
    assert_eq!(t.validators(), active);
    assert_eq!(t.validators_to_add(), to_add);
    assert_eq!(t.validators_to_remove(), to_remove);
    assert_eq!(t.events(), &events);
}

#[test]
fn failed_removal_leaves_the_removal_queue() {
    let mut t = host();
    assert_eq!(t.remove_validator(1, 99), Err(Error::NotValidator));
    assert_eq!(t.validators_to_remove(), Vec::<u64>::new());
}

#[test]
fn pending_addition_is_not_yet_removable() {
    let mut t = host();
    assert!(t.register_validators(1, vec![4]).is_ok());
    // 4 only joins the active set at the boundary, so it cannot be removed
    // within the same window.
    assert_eq!(t.remove_validator(1, 4), Err(Error::NotValidator));
    t.on_initialize(1);
    assert!(t.remove_validator(1, 4).is_ok());
}

#[test]
fn genesis_at_the_exact_minimum_refuses_any_removal() {
    let mut t = Test::genesis(vec![1, 2], 2, 1);
    assert_eq!(t.remove_validator(1, 1), Err(Error::TooFewValidators));
    assert_eq!(t.remove_validator(1, 2), Err(Error::TooFewValidators));
}

#[test]
fn events_are_logged_in_call_order() {
    let mut t = host();
    assert!(t.register_validators(1, vec![4]).is_ok());
    assert!(t.remove_validator(1, 2).is_ok());
    assert_eq!(
        t.events(),
        &vec![
            Event::ValidatorsRegistered { validators: vec![4] },
            Event::ValidatorRemoved { validator: 2 },
        ]
    );
}

#[test]
fn store_can_be_driven_without_the_host() {
    let mut m = initialize_validators(vec![1, 2, 3], 2);
    let auth = RootAccount { root: 9 };
    assert!(m.register_validators(&auth, 9, vec![4]).is_ok());
    assert_eq!(
        m.register_validators(&auth, 1, vec![5]),
        Err(Error::Unauthorized)
    );
    m.on_session_end(0);
    let next = m.on_new_session(1);
    assert_eq!(next, vec![1, 2, 3, 4]);
    assert_eq!(m.active_set(), vec![1, 2, 3, 4]);
}

#[test]
fn identity_resolver_passes_accounts_through() {
    let resolver = ValidatorOf;
    assert_eq!(resolver.resolve(5), Some(5));
    assert_eq!(resolve_validators(&resolver, &vec![10, 20, 30]), vec![10, 20, 30]);
    assert_eq!(resolve_validators(&resolver, &Vec::new()), Vec::<u64>::new());
}
