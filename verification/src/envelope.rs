//! Mutation envelopes: what a canonical writer is told about the request it serves.

use vstd::prelude::*;

use crate::errors::CoreError;

verus! {

/// The version of an object that a request observed.
#[derive(Debug, Clone, Copy, PartialEq, Eq, Structural)]
pub enum VersionRef {
    /// The object did not exist.
    Absent,
    /// The object stood at this version.
    Version(u64),
}

/// The Device-scoped key under which a request is recorded, once.
#[derive(Debug, Clone, PartialEq, Eq)]
pub struct MutationKey {
    pub origin_device_id: String,
    pub idempotency_key: String,
}

/// The envelope of a canonical mutation request.
#[derive(Debug)]
pub struct MutationEnvelope {
    pub origin_device_id: String,
    pub idempotency_key: String,
    /// Read preconditions: each object id with the version the request observed,
    /// in the envelope's order.
    pub observed_versions: Vec<(String, VersionRef)>,
    pub actor_identity_id: String,
    pub authority_source: String,
    pub created_time: String,
    pub effective_time: String,
    pub recorded_time: String,
    /// The envelope as the ledger keeps it (serialized JSON).
    pub envelope_json: String,
    /// What the core crate's envelope validation said of this envelope.
    pub validation: Result<(), CoreError>,
}

impl MutationEnvelope {
    /// The envelope's Device-scoped key.
    pub fn mutation_key(&self) -> (k: MutationKey)
        ensures
            k.origin_device_id == self.origin_device_id,
            k.idempotency_key == self.idempotency_key,
    {
        MutationKey {
            origin_device_id: self.origin_device_id.clone(),
            idempotency_key: self.idempotency_key.clone(),
        }
    }
}

} // verus!
