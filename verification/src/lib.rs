//! Commit-then-reveal name registration.
//!
//! A participant first registers a commitment, the Keccak-256 digest of the
//! name they intend to take, and later reveals the name to claim it. The
//! commitment hides the name until the reveal, so an observer of the first
//! step cannot race the participant to the name.

pub mod types;
pub mod hashing;
pub mod assoc;
pub mod registry;
pub mod ownership;
pub mod model;
pub mod pallet;
pub mod laws;

pub use pallet::Pallet;
pub use types::{AccountId, Error, Event};
