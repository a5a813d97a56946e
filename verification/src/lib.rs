//! Proof-of-channel-ownership service core.
//!
//! A channel owner proves control of a channel through a delegated OAuth2
//! exchange with an external identity provider. The proven identity is
//! packaged into a signed, time-bounded claim; any mutating request must
//! present such a claim, and the verified identity keys an idempotent
//! upsert against a permission-record store.

pub mod claim;
pub mod http;
pub mod provider;
pub mod routes;
pub mod store;
pub mod text;
