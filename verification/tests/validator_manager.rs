//! Scenario tests driving the manager through an in-memory host.

use validator_manager::Error;
use validator_manager::Event;
use validator_manager::Test;

fn validator_keys(c: &[u64]) -> Vec<u64> {
    c.iter().map(|val| *val).collect()
}

fn new_test_ext() -> Test {
    Test::genesis(vec![1, 2, 3], 2, 1)
}

#[test]
fn initial_validators_should_be_set() {
    let mut t = new_test_ext();

    // Start at session 1: the genesis validators are in force.
    t.on_initialize(1);

    assert_eq!(t.validators(), validator_keys(&[1, 2, 3]));
}

#[test]
fn add_validators_should_work() {
    let mut t = new_test_ext();

    // Start at session 1
    t.on_initialize(1);
    assert_eq!(t.validators(), validator_keys(&[1, 2, 3]));

    // Register a new validator
    assert!(t.register_validators(1, validator_keys(&[4])).is_ok());

    // Check that the validator is in the queue
    assert_eq!(t.validators_to_add(), validator_keys(&[4]));

    // Trigger a new session
    t.on_initialize(2);

    // Validators should now include the new one
    assert_eq!(t.validators(), validator_keys(&[1, 2, 3, 4]));

    // Check the event was emitted
    assert!(t.events().contains(&Event::ValidatorsRegistered {
        validators: validator_keys(&[4]),
    }));
}

#[test]
fn cannot_add_duplicate_validator() {
    let mut t = new_test_ext();

    // Add validator 4 to the pending queue
    assert!(t.register_validators(1, validator_keys(&[4])).is_ok());

    // Attempting to add it again should fail and leave the queue alone
    assert_eq!(
        t.register_validators(1, validator_keys(&[4])),
        Err(Error::ValidatorAlreadyAdded)
    );
    assert_eq!(t.validators_to_add(), validator_keys(&[4]));
}

#[test]
fn remove_validator_should_work() {
    let mut t = new_test_ext();

    // Start at session 1
    t.on_initialize(1);
    assert_eq!(t.validators(), validator_keys(&[1, 2, 3]));

    // Remove validator 2
    assert!(t.remove_validator(1, 2).is_ok());

    // Check that the validator is in the removal queue
    assert_eq!(t.validators_to_remove(), validator_keys(&[2]));

    // Trigger a new session
    t.on_initialize(2);

    // Validators should no longer include the removed one
    assert_eq!(t.validators(), validator_keys(&[1, 3]));

    // Check the event was emitted
    assert!(t.events().contains(&Event::ValidatorRemoved { validator: 2 }));
}

#[test]
fn cannot_remove_nonexistent_validator() {
    let mut t = new_test_ext();

    // Start at session 1
    t.on_initialize(1);

    // Attempt to remove a validator that is not active
    assert_eq!(t.remove_validator(1, 99), Err(Error::NotValidator));
}

#[test]
fn cannot_remove_below_min_validators() {
    let mut t = new_test_ext();

    // Start at session 1
    t.on_initialize(1);
    assert_eq!(t.validators(), validator_keys(&[1, 2, 3]));

    // Remove validator 2
    assert!(t.remove_validator(1, 2).is_ok());

    // Removing validator 3 as well would leave a single member
    assert_eq!(t.remove_validator(1, 3), Err(Error::TooFewValidators));
}

#[test]
fn unauthorized_origin_cannot_add_validators() {
    let mut t = new_test_ext();

    // Use an unauthorized account (not 1)
    assert!(t.register_validators(2, validator_keys(&[4])).is_err());
}

#[test]
fn unauthorized_origin_cannot_remove_validators() {
    let mut t = new_test_ext();

    // Start at session 1
    t.on_initialize(1);

    // Use an unauthorized account (not 1)
    assert!(t.remove_validator(2, 3).is_err());
}
