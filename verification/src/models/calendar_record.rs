use vstd::prelude::*;

verus! {

/// A derived calendar artifact as stored.
#[derive(Debug, Clone, PartialEq, Eq)]
pub struct CalendarRecord {
    pub id: String,
    pub plan_id: String,
    pub window_start: String,
    pub window_end: String,
    pub payload_json: String,
    pub created_at: String,
}

/// A calendar submitted for storing; `payload` is JSON text.
#[derive(Debug, Clone, PartialEq, Eq)]
pub struct NewCalendarRecord {
    pub id: String,
    pub plan_id: String,
    pub window_start: String,
    pub window_end: String,
    pub payload: String,
    pub created_at: String,
}

impl CalendarRecord {
    /// A copy of this record.
    pub fn duplicate(&self) -> (r: Self)
        ensures
            r == *self,
    {
        CalendarRecord {
            id: self.id.clone(),
            plan_id: self.plan_id.clone(),
            window_start: self.window_start.clone(),
            window_end: self.window_end.clone(),
            payload_json: self.payload_json.clone(),
            created_at: self.created_at.clone(),
        }
    }
}

} // verus!
