//! Staged mutation of a consensus validator set.
//!
//! Privileged callers queue additions to and removals from the active
//! validator set; the queued changes are validated up front and applied
//! atomically at the next session boundary, which always leaves at least
//! `min_authorities` validators in force.

pub mod auth;
pub mod errors;
pub mod events;
pub mod ids;
pub mod manager;
pub mod resolver;
pub mod testing;
pub mod transition;

pub use auth::Authorizer;
pub use auth::RootAccount;
pub use errors::Error;
pub use events::Event;
pub use ids::AccountId;
pub use ids::ValidatorId;
pub use manager::ValidatorManager;
pub use manager::initialize_validators;
pub use resolver::IdentityResolver;
pub use resolver::ValidatorOf;
pub use resolver::resolve_validators;
pub use testing::Test;
