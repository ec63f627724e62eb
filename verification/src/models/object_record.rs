use vstd::prelude::*;

verus! {

/// A canonical object as stored.
#[derive(Debug, Clone, PartialEq, Eq)]
pub struct ObjectRecord {
    pub id: String,
    pub object_type: String,
    pub version: i64,
    pub status: String,
    pub compartment_label: String,
    pub payload_json: String,
    pub created_at: String,
    pub updated_at: String,
}

/// A canonical object submitted for admission; `payload` is JSON text.
#[derive(Debug, Clone, PartialEq, Eq)]
pub struct NewObjectRecord {
    pub id: String,
    pub object_type: String,
    pub version: i64,
    pub status: String,
    pub compartment_label: String,
    pub payload: String,
    pub created_at: String,
    pub updated_at: String,
}

/// A submitted object with its texts seen as character sequences.
pub struct NewObjectView {
    pub id: Seq<char>,
    pub object_type: Seq<char>,
    pub version: i64,
    pub status: Seq<char>,
    pub compartment_label: Seq<char>,
    pub payload: Seq<char>,
    pub created_at: Seq<char>,
    pub updated_at: Seq<char>,
}

impl View for NewObjectRecord {
    type V = NewObjectView;

    open spec fn view(&self) -> NewObjectView {
        NewObjectView {
            id: self.id@,
            object_type: self.object_type@,
            version: self.version,
            status: self.status@,
            compartment_label: self.compartment_label@,
            payload: self.payload@,
            created_at: self.created_at@,
            updated_at: self.updated_at@,
        }
    }
}

impl ObjectRecord {
    /// A copy of this record.
    pub fn duplicate(&self) -> (r: Self)
        ensures
            r == *self,
    {
        ObjectRecord {
            id: self.id.clone(),
            object_type: self.object_type.clone(),
            version: self.version,
            status: self.status.clone(),
            compartment_label: self.compartment_label.clone(),
            payload_json: self.payload_json.clone(),
            created_at: self.created_at.clone(),
            updated_at: self.updated_at.clone(),
        }
    }
}

} // verus!
