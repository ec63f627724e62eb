use vstd::prelude::*;

use crate::models::recorded_mutation::copy_opt_string;

verus! {

/// A reference to an object of an outside source, as stored.
#[derive(Debug, Clone, PartialEq, Eq)]
pub struct ExternalReferenceRecord {
    pub id: String,
    pub source_type: String,
    pub source_id: String,
    pub url: Option<String>,
    pub payload_hash: Option<String>,
    pub payload_json: String,
    pub created_at: String,
}

/// An external reference submitted for storing; `payload` is JSON text.
#[derive(Debug, Clone, PartialEq, Eq)]
pub struct NewExternalReferenceRecord {
    pub id: String,
    pub source_type: String,
    pub source_id: String,
    pub url: Option<String>,
    pub payload_hash: Option<String>,
    pub payload: String,
    pub created_at: String,
}

impl ExternalReferenceRecord {
    /// A copy of this record.
    pub fn duplicate(&self) -> (r: Self)
        ensures
            r == *self,
    {
        ExternalReferenceRecord {
            id: self.id.clone(),
            source_type: self.source_type.clone(),
            source_id: self.source_id.clone(),
            url: copy_opt_string(&self.url),
            payload_hash: copy_opt_string(&self.payload_hash),
            payload_json: self.payload_json.clone(),
            created_at: self.created_at.clone(),
        }
    }
}

} // verus!
