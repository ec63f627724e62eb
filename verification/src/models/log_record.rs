use vstd::prelude::*;

verus! {

/// An append-only log entry as stored.
#[derive(Debug, Clone, PartialEq, Eq)]
pub struct LogRecord {
    pub id: String,
    pub event_type: String,
    pub object_refs_json: String,
    pub payload_json: String,
    pub provenance_json: String,
    pub created_at: String,
}

/// A log entry submitted for appending; `object_refs`, `payload` and
/// `provenance` are JSON text.
#[derive(Debug, Clone, PartialEq, Eq)]
pub struct NewLogRecord {
    pub id: String,
    pub event_type: String,
    pub object_refs: String,
    pub payload: String,
    pub provenance: String,
    pub created_at: String,
}

impl LogRecord {
    /// A copy of this record.
    pub fn duplicate(&self) -> (r: Self)
        ensures
            r == *self,
    {
        LogRecord {
            id: self.id.clone(),
            event_type: self.event_type.clone(),
            object_refs_json: self.object_refs_json.clone(),
            payload_json: self.payload_json.clone(),
            provenance_json: self.provenance_json.clone(),
            created_at: self.created_at.clone(),
        }
    }
}

} // verus!
