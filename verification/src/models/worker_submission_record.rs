use vstd::prelude::*;

verus! {

/// A noncanonical worker submission as stored.
#[derive(Debug, Clone, PartialEq, Eq)]
pub struct WorkerSubmissionRecord {
    pub id: String,
    pub candidate_id: String,
    pub object_type: String,
    pub status: String,
    pub payload_json: String,
    pub authority_source: String,
    pub submitted_at: String,
    pub created_at: String,
}

/// A worker submission submitted for storing; `payload` is JSON text.
#[derive(Debug, Clone, PartialEq, Eq)]
pub struct NewWorkerSubmissionRecord {
    pub id: String,
    pub candidate_id: String,
    pub object_type: String,
    pub status: String,
    pub payload: String,
    pub authority_source: String,
    pub submitted_at: String,
    pub created_at: String,
}

impl WorkerSubmissionRecord {
    /// A copy of this record.
    pub fn duplicate(&self) -> (r: Self)
        ensures
            r == *self,
    {
        WorkerSubmissionRecord {
            id: self.id.clone(),
            candidate_id: self.candidate_id.clone(),
            object_type: self.object_type.clone(),
            status: self.status.clone(),
            payload_json: self.payload_json.clone(),
            authority_source: self.authority_source.clone(),
            submitted_at: self.submitted_at.clone(),
            created_at: self.created_at.clone(),
        }
    }
}

} // verus!
