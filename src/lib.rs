//! Registration, confirmation and sign-in against a managed identity
//! provider, with users mirrored into a key-value record store.
//!
//! The library computes every request that the two services receive and
//! decides every outcome from their replies; the network calls themselves
//! are made by the caller.
pub mod errors;
pub mod identity;
pub mod manager;
pub mod models;
pub mod secret_hash;
pub mod store;
