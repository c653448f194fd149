//! Vanity-address search engine: derive candidate keys from random seeds,
//! encode them in the base-58 alphabet, and race workers against a prefix
//! target with a shared cancellation signal.

pub mod codec;
pub mod deriver;
pub mod errors;
pub mod target;
pub mod token;
pub mod worker;
pub mod engine;
pub mod coordinator;

pub use codec::maybe_bs58_aware_lowercase;
