use vstd::prelude::*;

verus! {

/// A projection preview as stored.
#[derive(Debug, Clone, PartialEq, Eq)]
pub struct ProjectionPreviewRecord {
    pub id: String,
    pub request_id: String,
    pub status: String,
    pub payload_json: String,
    pub created_at: String,
}

/// A projection preview submitted for storing; `payload` is JSON text.
#[derive(Debug, Clone, PartialEq, Eq)]
pub struct NewProjectionPreviewRecord {
    pub id: String,
    pub request_id: String,
    pub status: String,
    pub payload: String,
    pub created_at: String,
}

/// A projection result as stored.
#[derive(Debug, Clone, PartialEq, Eq)]
pub struct ProjectionResultRecord {
    pub id: String,
    pub preview_id: String,
    pub status: String,
    pub payload_json: String,
    pub created_at: String,
}

/// A projection result submitted for storing; `payload` is JSON text.
#[derive(Debug, Clone, PartialEq, Eq)]
pub struct NewProjectionResultRecord {
    pub id: String,
    pub preview_id: String,
    pub status: String,
    pub payload: String,
    pub created_at: String,
}

impl ProjectionPreviewRecord {
    /// A copy of this record.
    pub fn duplicate(&self) -> (r: Self)
        ensures
            r == *self,
    {
        ProjectionPreviewRecord {
            id: self.id.clone(),
            request_id: self.request_id.clone(),
            status: self.status.clone(),
            payload_json: self.payload_json.clone(),
            created_at: self.created_at.clone(),
        }
    }
}

impl ProjectionResultRecord {
    /// A copy of this record.
    pub fn duplicate(&self) -> (r: Self)
        ensures
            r == *self,
    {
        ProjectionResultRecord {
            id: self.id.clone(),
            preview_id: self.preview_id.clone(),
            status: self.status.clone(),
            payload_json: self.payload_json.clone(),
            created_at: self.created_at.clone(),
        }
    }
}

} // verus!
