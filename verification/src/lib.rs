//! Search for Ed25519 key pairs whose Base58 public key ends in a chosen suffix,
//! and the rules of the service that offers the search.

pub mod answers;
pub mod api;
pub mod base58;
pub mod history;
pub mod hits;
pub mod jobs;
pub mod keys;
pub mod laws;
pub mod models;
pub mod run;
pub mod search;
pub mod text;
pub mod vanity;
pub mod worker;

pub use jobs::AppState;
pub use vanity::{
    estimate_attempts, matches_suffix, validate_suffix, VanityConfig, VanityResult,
};
