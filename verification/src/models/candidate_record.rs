use vstd::prelude::*;

use crate::models::recorded_mutation::copy_opt_string;

verus! {

/// Where an advisory candidate stands in review.
#[derive(Debug, Clone, Copy, PartialEq, Eq, Structural)]
pub enum CandidateLifecycleState {
    Proposed,
    Deferred,
    Resurfaced,
    Admitted,
    Rejected,
    Archived,
}

/// How a lifecycle state is spelled in stored rows.
pub open spec fn state_spelling(s: CandidateLifecycleState) -> Seq<char> {
    match s {
        CandidateLifecycleState::Proposed => "proposed"@,
        CandidateLifecycleState::Deferred => "deferred"@,
        CandidateLifecycleState::Resurfaced => "resurfaced"@,
        CandidateLifecycleState::Admitted => "admitted"@,
        CandidateLifecycleState::Rejected => "rejected"@,
        CandidateLifecycleState::Archived => "archived"@,
    }
}

impl CandidateLifecycleState {
    /// The state every new proposal starts in.
    pub const INITIAL: CandidateLifecycleState = CandidateLifecycleState::Proposed;

    /// The state's spelling in stored rows.
    pub fn spelling(&self) -> (s: String)
        ensures
            s@ == state_spelling(*self),
    {
        match self {
            CandidateLifecycleState::Proposed => "proposed".to_owned(),
            CandidateLifecycleState::Deferred => "deferred".to_owned(),
            CandidateLifecycleState::Resurfaced => "resurfaced".to_owned(),
            CandidateLifecycleState::Admitted => "admitted".to_owned(),
            CandidateLifecycleState::Rejected => "rejected".to_owned(),
            CandidateLifecycleState::Archived => "archived".to_owned(),
        }
    }
}

/// Candidate-state row, deliberately distinct from canonical ObjectRecord.
#[derive(Debug, Clone, PartialEq, Eq)]
pub struct CandidateRecord {
    pub advisory_candidate_id: String,
    pub candidate_kind: String,
    pub lifecycle_state: String,
    pub version: i64,
    pub suppression_key: Option<String>,
    pub review_order: Option<i64>,
    pub payload_json: String,
    pub created_at: String,
    pub updated_at: String,
}

/// Review-only event; its envelope preserves the complete decision provenance.
#[derive(Debug, Clone, PartialEq, Eq)]
pub struct CandidateDecisionEvent {
    pub id: String,
    pub advisory_candidate_id: String,
    pub from_state: String,
    pub to_state: String,
    pub resurface_trigger: Option<String>,
    pub observed_candidate_version: i64,
    pub envelope_json: String,
    pub resulting_object_id: Option<String>,
    pub recorded_at: String,
}

/// The view of an optional text.
pub open spec fn opt_text(t: Option<String>) -> Option<Seq<char>> {
    match t {
        Some(s) => Some(s@),
        None => None,
    }
}

/// A candidate row with its texts seen as character sequences.
pub struct CandidateView {
    pub advisory_candidate_id: Seq<char>,
    pub candidate_kind: Seq<char>,
    pub lifecycle_state: Seq<char>,
    pub version: i64,
    pub suppression_key: Option<Seq<char>>,
    pub review_order: Option<i64>,
    pub payload_json: Seq<char>,
    pub created_at: Seq<char>,
    pub updated_at: Seq<char>,
}

impl View for CandidateRecord {
    type V = CandidateView;

    open spec fn view(&self) -> CandidateView {
        CandidateView {
            advisory_candidate_id: self.advisory_candidate_id@,
            candidate_kind: self.candidate_kind@,
            lifecycle_state: self.lifecycle_state@,
            version: self.version,
            suppression_key: opt_text(self.suppression_key),
            review_order: self.review_order,
            payload_json: self.payload_json@,
            created_at: self.created_at@,
            updated_at: self.updated_at@,
        }
    }
}

/// A decision event with its texts seen as character sequences.
pub struct DecisionEventView {
    pub id: Seq<char>,
    pub advisory_candidate_id: Seq<char>,
    pub from_state: Seq<char>,
    pub to_state: Seq<char>,
    pub resurface_trigger: Option<Seq<char>>,
    pub observed_candidate_version: i64,
    pub envelope_json: Seq<char>,
    pub resulting_object_id: Option<Seq<char>>,
    pub recorded_at: Seq<char>,
}

impl View for CandidateDecisionEvent {
    type V = DecisionEventView;

    open spec fn view(&self) -> DecisionEventView {
        DecisionEventView {
            id: self.id@,
            advisory_candidate_id: self.advisory_candidate_id@,
            from_state: self.from_state@,
            to_state: self.to_state@,
            resurface_trigger: opt_text(self.resurface_trigger),
            observed_candidate_version: self.observed_candidate_version,
            envelope_json: self.envelope_json@,
            resulting_object_id: opt_text(self.resulting_object_id),
            recorded_at: self.recorded_at@,
        }
    }
}

impl CandidateRecord {
    /// A copy of this record.
    pub fn duplicate(&self) -> (r: Self)
        ensures
            r == *self,
    {
        CandidateRecord {
            advisory_candidate_id: self.advisory_candidate_id.clone(),
            candidate_kind: self.candidate_kind.clone(),
            lifecycle_state: self.lifecycle_state.clone(),
            version: self.version,
            suppression_key: copy_opt_string(&self.suppression_key),
            review_order: self.review_order,
            payload_json: self.payload_json.clone(),
            created_at: self.created_at.clone(),
            updated_at: self.updated_at.clone(),
        }
    }
}

impl CandidateDecisionEvent {
    /// A copy of this event.
    pub fn duplicate(&self) -> (r: Self)
        ensures
            r == *self,
    {
        CandidateDecisionEvent {
            id: self.id.clone(),
            advisory_candidate_id: self.advisory_candidate_id.clone(),
            from_state: self.from_state.clone(),
            to_state: self.to_state.clone(),
            resurface_trigger: copy_opt_string(&self.resurface_trigger),
            observed_candidate_version: self.observed_candidate_version,
            envelope_json: self.envelope_json.clone(),
            resulting_object_id: copy_opt_string(&self.resulting_object_id),
            recorded_at: self.recorded_at.clone(),
        }
    }
}

} // verus!

verus! {

/// A durable suppression record as stored: the rejection's suppression key, the
/// rejected candidate, and the record itself (JSON text).
#[derive(Debug, Clone, PartialEq, Eq)]
pub struct StoredSuppression {
    pub suppression_key: String,
    pub advisory_candidate_id: String,
    pub payload_json: String,
    pub decided_at: String,
}

impl StoredSuppression {
    /// A copy of this record.
    pub fn duplicate(&self) -> (r: Self)
        ensures
            r == *self,
    {
        StoredSuppression {
            suppression_key: self.suppression_key.clone(),
            advisory_candidate_id: self.advisory_candidate_id.clone(),
            payload_json: self.payload_json.clone(),
            decided_at: self.decided_at.clone(),
        }
    }
}

} // verus!
