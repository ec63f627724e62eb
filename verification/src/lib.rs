//! Canonical state admission for UbU: the verified rules that decide what the
//! store accepts, and an in-memory store whose writers follow them.

pub mod admission;
pub mod candidates;
pub mod envelope;
pub mod errors;
pub mod json;
pub mod laws;
pub mod messages;
pub mod models;
pub mod order;
pub mod queries;
pub mod replay;
pub mod result_laws;
pub mod store;
pub mod text;

pub use errors::StoreError;
