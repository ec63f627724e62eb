use vstd::prelude::*;

verus! {

/// A derived plan artifact as stored.
#[derive(Debug, Clone, PartialEq, Eq)]
pub struct PlanRecord {
    pub id: String,
    pub request_id: String,
    pub status: String,
    pub payload_json: String,
    pub created_at: String,
}

/// A plan submitted for storing; `payload` is JSON text.
#[derive(Debug, Clone, PartialEq, Eq)]
pub struct NewPlanRecord {
    pub id: String,
    pub request_id: String,
    pub status: String,
    pub payload: String,
    pub created_at: String,
}

impl PlanRecord {
    /// A copy of this record.
    pub fn duplicate(&self) -> (r: Self)
        ensures
            r == *self,
    {
        PlanRecord {
            id: self.id.clone(),
            request_id: self.request_id.clone(),
            status: self.status.clone(),
            payload_json: self.payload_json.clone(),
            created_at: self.created_at.clone(),
        }
    }
}

} // verus!
