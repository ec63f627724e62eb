use vstd::prelude::*;

verus! {

/// Audit row for an admitted mutation. `result_version` records the admitted
/// version, while replay reads the object's current state rather than a snapshot.
/// Zero denotes an unversioned append-only log or external-reference result; a
/// negative version denotes a candidate-only result.
#[derive(Debug, Clone, PartialEq, Eq)]
pub struct RecordedMutation {
    pub origin_device_id: String,
    pub idempotency_key: String,
    pub envelope_json: String,
    pub canonical_payload: String,
    pub result_object_id: String,
    pub result_version: i64,
    pub recorded_at: String,
}

impl RecordedMutation {
    /// A copy of this record.
    pub fn duplicate(&self) -> (r: Self)
        ensures
            r == *self,
    {
        RecordedMutation {
            origin_device_id: self.origin_device_id.clone(),
            idempotency_key: self.idempotency_key.clone(),
            envelope_json: self.envelope_json.clone(),
            canonical_payload: self.canonical_payload.clone(),
            result_object_id: self.result_object_id.clone(),
            result_version: self.result_version,
            recorded_at: self.recorded_at.clone(),
        }
    }
}

/// A copy of an optional text.
pub fn copy_opt_string(s: &Option<String>) -> (r: Option<String>)
    ensures
        r == *s,
{
    match s {
        Some(t) => Some(t.clone()),
        None => None,
    }
}

} // verus!
