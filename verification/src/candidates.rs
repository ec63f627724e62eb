//! Candidate-state writers. Review records never enter admitted-state tables,
//! and the only way from an advisory candidate to a canonical object is
//! `admit_advisory_candidate`, which goes through ordinary canonical admission.

use vstd::prelude::*;
use vstd::string::StringExecFns;

use crate::admission::ObjectChecks;
use crate::envelope::MutationEnvelope;
use crate::errors::{outcome, CoreError, DatabaseError, DatabaseErrorView, StoreError, StoreErrorView, Table};
use crate::json::{
    json_doc_with_integer, json_doc_with_link, json_doc_with_text, json_link, json_link_of, json_pair_text,
    json_same_document, json_same_value, json_set_integer, json_set_link, json_set_text, json_string_pair,
};
use crate::models::candidate_record::{
    opt_text, state_spelling, CandidateDecisionEvent, CandidateLifecycleState, CandidateRecord, CandidateView,
    DecisionEventView, StoredSuppression,
};
use crate::models::object_record::{NewObjectRecord, ObjectRecord};
use crate::queries::{admission_plan, max_store_version, with_admitted};
use crate::errors::CoreErrorView;
use crate::store::{
    candidate_key, event_key, find, has_key, ledger_row, prepare_verdict, put_row, suppression_key, KeyedRow,
    MutationTarget, Prepared, StoreView, UbuStore,
};
use crate::order::{keep, order_of, sort_rows, stable_sort, strict_order, RowFilter, RowOrder};
use crate::text::{
    lemma_text_less_asymmetric, lemma_text_less_transitive, render_version_label, same_text, text_less, text_precedes,
    version_label,
};

verus! {

/// A candidate proposal, as the store reads it.
#[derive(Debug, Clone, PartialEq, Eq)]
pub struct AdvisoryCandidate {
    pub advisory_candidate_id: String,
    /// The spelling of the candidate's kind.
    pub candidate_kind: String,
    pub lifecycle_state: CandidateLifecycleState,
    pub version: u64,
    pub suppression_key: Option<String>,
    pub review_order: Option<i64>,
    pub proposed_at: String,
    /// The whole candidate as JSON text.
    pub payload_json: String,
}

/// The identity of the decision event a request records: `canddec:` followed by
/// the JSON pair of its Device and idempotency key.
pub open spec fn decision_id_of(envelope: MutationEnvelope) -> Seq<char> {
    "canddec:"@ + json_string_pair(envelope.origin_device_id@, envelope.idempotency_key@)
}

/// The identity of the decision event a request records (see `decision_id_of`).
pub fn decision_id(envelope: &MutationEnvelope) -> (r: String)
    ensures
        r@ == decision_id_of(*envelope),
{
    let mut id = "canddec:".to_owned();
    let pair = json_pair_text(&envelope.origin_device_id, &envelope.idempotency_key);
    id.append(&pair);
    id
}

// ---------------------------------------------------------------------------
// Storing proposals
// ---------------------------------------------------------------------------

/// How a writer over candidates ends.
pub enum CandidateOutcome {
    /// A replay: the recorded candidate's current row, nothing written.
    Replayed(CandidateRecord),
    /// Refused, nothing written.
    Refused(StoreErrorView),
    /// A new candidate row was written.
    Stored(CandidateView),
}

/// The row a new proposal becomes: its state spelled, its version, its producer's
/// proposal time as creation time and the envelope's recorded time as update time.
pub open spec fn proposal_row(candidate: AdvisoryCandidate, recorded_time: Seq<char>) -> CandidateView {
    CandidateView {
        advisory_candidate_id: candidate.advisory_candidate_id@,
        candidate_kind: candidate.candidate_kind@,
        lifecycle_state: state_spelling(candidate.lifecycle_state),
        version: candidate.version as i64,
        suppression_key: opt_text(candidate.suppression_key),
        review_order: candidate.review_order,
        payload_json: candidate.payload_json@,
        created_at: candidate.proposed_at@,
        updated_at: recorded_time,
    }
}

/// What storing a proposal does: the core crate must accept the candidate
/// (`validation`) and it must be in the initial state; then the shared checks
/// (a replay answers the recorded candidate); a fresh proposal needs a version
/// that SQLite can hold and a new id, and is stored with one ledger row whose
/// result version is the negative candidate version.
pub open spec fn store_candidate_outcome(s: StoreView, envelope: MutationEnvelope, candidate: AdvisoryCandidate, canonical_payload: Seq<char>, validation: Result<(), CoreError>) -> CandidateOutcome {
    match validation {
        Err(e) => CandidateOutcome::Refused(StoreErrorView::Core(e@)),
        Ok(_) => if candidate.lifecycle_state != CandidateLifecycleState::Proposed {
            CandidateOutcome::Refused(StoreErrorView::InvalidInitialCandidateState { state: candidate.lifecycle_state })
        } else {
            match prepare_verdict(s, envelope, canonical_payload, MutationTarget::Candidate) {
                Err(e) => CandidateOutcome::Refused(e),
                Ok(Prepared::Replay(row)) =>
                    CandidateOutcome::Replayed(find(s.candidates, candidate_key(), row.result_object_id@).unwrap()),
                Ok(Prepared::Fresh) => if candidate.version > max_store_version() {
                    CandidateOutcome::Refused(StoreErrorView::ObjectVersionExhausted {
                        object_id: candidate.advisory_candidate_id@,
                        version: candidate.version,
                    })
                } else if has_key(s.candidates, candidate_key(), candidate.advisory_candidate_id@) {
                    CandidateOutcome::Refused(StoreErrorView::Sqlx(DatabaseErrorView::UniqueViolation {
                        table: Table::AdvisoryCandidates,
                        key: candidate.advisory_candidate_id@,
                    }))
                } else {
                    CandidateOutcome::Stored(proposal_row(candidate, envelope.recorded_time@))
                },
            }
        },
    }
}

/// The stores and answers `store_advisory_candidate` may leave: a replay answers
/// the recorded candidate and a refusal its error, both writing nothing; a stored
/// proposal appends its row and one ledger row (result version: the negative
/// candidate version) and answers the row.
pub open spec fn stores_candidate(old: StoreView, new: StoreView, envelope: MutationEnvelope, candidate: AdvisoryCandidate, canonical_payload: String, validation: Result<(), CoreError>, r: Result<CandidateRecord, StoreError>) -> bool {
    match store_candidate_outcome(old, envelope, candidate, canonical_payload@, validation) {
        CandidateOutcome::Replayed(row) => r == Ok::<CandidateRecord, StoreError>(row) && new == old,
        CandidateOutcome::Refused(e) => r matches Err(x) && x@ == e && new == old,
        CandidateOutcome::Stored(v) => r matches Ok(row) && row@ == v && new == (StoreView {
            candidates: old.candidates.push(row),
            ledger: old.ledger.push(ledger_row(envelope, canonical_payload, row.advisory_candidate_id, (-row.version) as i64)),
            ..old
        }),
    }
}

/// Store a new proposal with its envelope (see `store_candidate_outcome`). The
/// proposal never enters canonical state. `validation` is what the core crate's
/// candidate validation said; `canonical_payload` is the canonical form of the
/// request, which replays compare.
pub fn store_advisory_candidate(store: &mut UbuStore, envelope: &MutationEnvelope, candidate: AdvisoryCandidate, canonical_payload: String, validation: &Result<(), CoreError>) -> (r: Result<CandidateRecord, StoreError>)
    requires
        old(store).wf(),
    ensures
        final(store).wf(),
        stores_candidate(old(store)@, final(store)@, *envelope, candidate, canonical_payload, *validation, r),
{
    match validation {
        Err(e) => return Err(StoreError::Core(e.clone_core())),
        Ok(_) => {},
    }
    if candidate.lifecycle_state != CandidateLifecycleState::Proposed {
        return Err(StoreError::InvalidInitialCandidateState { state: candidate.lifecycle_state });
    }
    match store.prepare_mutation(envelope, &canonical_payload, MutationTarget::Candidate) {
        Err(e) => return Err(e),
        Ok(Prepared::Replay(row)) => return Ok(store.candidate_row(&row.result_object_id).unwrap()),
        Ok(Prepared::Fresh) => {},
    }
    if candidate.version > 0x7fff_ffff_ffff_ffff {
        return Err(StoreError::ObjectVersionExhausted {
            object_id: candidate.advisory_candidate_id,
            version: candidate.version,
        });
    }
    if store.candidate_row(&candidate.advisory_candidate_id).is_some() {
        return Err(StoreError::Sqlx(DatabaseError::UniqueViolation {
            table: Table::AdvisoryCandidates,
            key: candidate.advisory_candidate_id,
        }));
    }
    let version = candidate.version as i64;
    let row = CandidateRecord {
        advisory_candidate_id: candidate.advisory_candidate_id,
        candidate_kind: candidate.candidate_kind,
        lifecycle_state: candidate.lifecycle_state.spelling(),
        version,
        suppression_key: candidate.suppression_key,
        review_order: candidate.review_order,
        payload_json: candidate.payload_json,
        created_at: candidate.proposed_at,
        updated_at: envelope.recorded_time.clone(),
    };
    let answer = row.duplicate();
    let result_id = row.advisory_candidate_id.clone();
    store.insert_candidate(row);
    store.record_mutation(envelope, canonical_payload, result_id, -version);
    Ok(answer)
}

// ---------------------------------------------------------------------------
// Decisions
// ---------------------------------------------------------------------------

/// The candidate a decision observed: it must exist and stand at the observed version.
pub open spec fn observed_candidate_verdict(s: StoreView, id: Seq<char>, observed_version: u64) -> Result<CandidateRecord, StoreErrorView> {
    match find(s.candidates, candidate_key(), id) {
        None => Err(StoreErrorView::CandidateMissing { id }),
        Some(c) => if c.version < 0 || c.version as int != observed_version as int {
            Err(StoreErrorView::PreconditionFailed {
                object_id: id,
                expected: version_label(Some(observed_version as int)),
                actual: version_label(Some(c.version as int)),
            })
        } else {
            Ok(c)
        },
    }
}

/// The candidate's payload with the links a decision sets: deferral and
/// resurfacing link their decision events (resurfacing also keeps the preceding
/// deferral and the trigger), admission links the resulting object, rejection and
/// archiving link their decision events.
pub open spec fn link_update(payload: Seq<char>, next: CandidateLifecycleState, trigger: Option<Seq<char>>, resulting: Option<Seq<char>>, event_id: Seq<char>) -> Seq<char> {
    match next {
        CandidateLifecycleState::Deferred => json_doc_with_link(payload, "deferral_ref"@, Some(event_id)),
        CandidateLifecycleState::Resurfaced => json_doc_with_link(
            json_doc_with_link(
                json_doc_with_link(payload, "prior_deferral_ref"@, json_link_of(payload, "deferral_ref"@)),
                "resurface_trigger"@,
                trigger,
            ),
            "resurfacing_ref"@,
            Some(event_id),
        ),
        CandidateLifecycleState::Admitted => json_doc_with_link(payload, "admission_ref"@, resulting),
        CandidateLifecycleState::Rejected => json_doc_with_link(payload, "rejection_ref"@, Some(event_id)),
        CandidateLifecycleState::Archived => json_doc_with_link(payload, "archive_ref"@, Some(event_id)),
        CandidateLifecycleState::Proposed => payload,
    }
}

/// The candidate's payload after a decision: its new state and version, a newly
/// assigned suppression key where there is one, and the decision's links.
pub open spec fn decided_payload(payload: Seq<char>, next: CandidateLifecycleState, version: i64, assigned_key: Option<Seq<char>>, trigger: Option<Seq<char>>, resulting: Option<Seq<char>>, event_id: Seq<char>) -> Seq<char> {
    let p1 = json_doc_with_text(payload, "lifecycle_state"@, state_spelling(next));
    let p2 = json_doc_with_integer(p1, "version"@, version);
    let p3 = match assigned_key {
        Some(k) => json_doc_with_text(p2, "suppression_key"@, k),
        None => p2,
    };
    link_update(p3, next, trigger, resulting, event_id)
}

/// The payload a decision stores: the core crate's serialization of the decided
/// candidate (`decided`) where it holds the same JSON value as the payload the
/// decision computes (`computed`), which it then keeps member for member in the
/// core type's order; otherwise the computed payload.
pub open spec fn stored_decided_payload(decided: Seq<char>, computed: Seq<char>) -> Seq<char> {
    if json_same_value(decided, computed) { decided } else { computed }
}

/// What one decision writes, or why it cannot: the candidate takes the next
/// version and the new state (and a newly assigned suppression key, if any), and
/// one decision event records the transition, the observed version, the envelope
/// and the resulting object; its identity comes from the request's key. The
/// decided candidate must pass the core crate's validation (`decided`: the
/// core's serialization of it, or its refusal), checked after the version bound
/// and before the event is written.
pub open spec fn decision_verdict(s: StoreView, envelope: MutationEnvelope, current: CandidateRecord, next: CandidateLifecycleState, trigger: Option<Seq<char>>, resulting: Option<Seq<char>>, assigned_key: Option<Seq<char>>, decided: Result<String, CoreError>) -> Result<(CandidateView, DecisionEventView), StoreErrorView> {
    let event_id = decision_id_of(envelope);
    if current.version >= max_store_version() {
        Err(StoreErrorView::ObjectVersionExhausted { object_id: current.advisory_candidate_id@, version: current.version as u64 })
    } else if decided is Err {
        Err(StoreErrorView::Core(decided->Err_0@))
    } else if has_key(s.decision_events, event_key(), event_id) {
        Err(StoreErrorView::Sqlx(DatabaseErrorView::UniqueViolation { table: Table::CandidateDecisionEvents, key: event_id }))
    } else {
        let version = (current.version + 1) as i64;
        Ok((
            CandidateView {
                advisory_candidate_id: current.advisory_candidate_id@,
                candidate_kind: current.candidate_kind@,
                lifecycle_state: state_spelling(next),
                version,
                suppression_key: match assigned_key {
                    Some(k) => Some(k),
                    None => opt_text(current.suppression_key),
                },
                review_order: current.review_order,
                payload_json: stored_decided_payload(
                    decided->Ok_0@,
                    decided_payload(current.payload_json@, next, version, assigned_key, trigger, resulting, event_id),
                ),
                created_at: current.created_at@,
                updated_at: envelope.recorded_time@,
            },
            DecisionEventView {
                id: event_id,
                advisory_candidate_id: current.advisory_candidate_id@,
                from_state: current.lifecycle_state@,
                to_state: state_spelling(next),
                resurface_trigger: trigger,
                observed_candidate_version: current.version,
                envelope_json: envelope.envelope_json@,
                resulting_object_id: resulting,
                recorded_at: envelope.recorded_time@,
            },
        ))
    }
}

fn decided_payload_text(payload: &str, next: CandidateLifecycleState, version: i64, assigned_key: &Option<String>, trigger: &Option<String>, resulting: &Option<String>, event_id: &str) -> (r: String)
    ensures
        r@ == decided_payload(payload@, next, version, opt_text(*assigned_key), opt_text(*trigger), opt_text(*resulting), event_id@),
{
    let p1 = json_set_text(payload, "lifecycle_state", &next.spelling());
    let p2 = json_set_integer(&p1, "version", version);
    let p3 = match assigned_key {
        Some(k) => json_set_text(&p2, "suppression_key", k),
        None => p2,
    };
    match next {
        CandidateLifecycleState::Deferred => json_set_link(&p3, "deferral_ref", Some(event_id)),
        CandidateLifecycleState::Resurfaced => {
            let prior = json_link(&p3, "deferral_ref");
            let q1 = match &prior {
                Some(p) => json_set_link(&p3, "prior_deferral_ref", Some(p.as_str())),
                None => json_set_link(&p3, "prior_deferral_ref", None),
            };
            let q2 = match trigger {
                Some(t) => json_set_link(&q1, "resurface_trigger", Some(t.as_str())),
                None => json_set_link(&q1, "resurface_trigger", None),
            };
            json_set_link(&q2, "resurfacing_ref", Some(event_id))
        },
        CandidateLifecycleState::Admitted => match resulting {
            Some(o) => json_set_link(&p3, "admission_ref", Some(o.as_str())),
            None => json_set_link(&p3, "admission_ref", None),
        },
        CandidateLifecycleState::Rejected => json_set_link(&p3, "rejection_ref", Some(event_id)),
        CandidateLifecycleState::Archived => json_set_link(&p3, "archive_ref", Some(event_id)),
        CandidateLifecycleState::Proposed => p3,
    }
}

/// The store after a decision: the candidate row replaced, the event appended.
pub open spec fn decision_written(old: StoreView, new: StoreView, row: CandidateRecord, event_view: DecisionEventView) -> bool {
    &&& new.candidates == put_row(old.candidates, row)
    &&& new.decision_events.len() == old.decision_events.len() + 1
    &&& new.decision_events == old.decision_events.push(new.decision_events.last())
    &&& new.decision_events.last()@ == event_view
}

impl UbuStore {
    /// The candidate a decision observed (see `observed_candidate_verdict`).
    pub(crate) fn observed_candidate(&self, id: &str, observed_version: u64) -> (r: Result<CandidateRecord, StoreError>)
        requires
            self.wf(),
        ensures
            outcome(r) == observed_candidate_verdict(self@, id@, observed_version),
    {
        match self.candidate_row(id) {
            None => Err(StoreError::CandidateMissing { id: id.to_owned() }),
            Some(c) => {
                if c.version < 0 || c.version as u64 != observed_version {
                    let actual = if c.version < 0 {
                        assert(false) by {
                            let i = choose|i: int| 0 <= i < self@.candidates.len() && candidate_key()(self@.candidates[i]) == id@;
                            crate::store::lemma_find_at(self@.candidates, candidate_key(), i);
                            assert(self@.candidates[i].version >= 0);
                        }
                        render_version_label(None)
                    } else {
                        render_version_label(Some(c.version as u64))
                    };
                    return Err(StoreError::PreconditionFailed {
                        object_id: id.to_owned(),
                        expected: render_version_label(Some(observed_version)),
                        actual,
                    });
                }
                Ok(c)
            },
        }
    }

    /// Plans one decision (see `decision_verdict`), writing nothing.
    pub(crate) fn plan_decision(&self, envelope: &MutationEnvelope, current: &CandidateRecord, next: CandidateLifecycleState, trigger: Option<String>, resulting: Option<String>, assigned_key: Option<String>, decided: &Result<String, CoreError>) -> (r: Result<(CandidateRecord, CandidateDecisionEvent), StoreError>)
        requires
            self.wf(),
            current.version >= 0,
        ensures
            match decision_verdict(self@, *envelope, *current, next, opt_text(trigger), opt_text(resulting), opt_text(assigned_key), *decided) {
                Err(e) => r matches Err(x) && x@ == e,
                Ok((cv, ev)) => r matches Ok((row, event)) && row@ == cv && event@ == ev && row.version >= 1
                    && row.advisory_candidate_id == current.advisory_candidate_id,
            },
    {
        if current.version >= 0x7fff_ffff_ffff_ffff {
            return Err(StoreError::ObjectVersionExhausted {
                object_id: current.advisory_candidate_id.clone(),
                version: current.version as u64,
            });
        }
        let decided_text = match decided {
            Err(e) => return Err(StoreError::Core(e.clone_core())),
            Ok(t) => t,
        };
        let event_id = decision_id(envelope);
        if self.event_row(&event_id).is_some() {
            return Err(StoreError::Sqlx(DatabaseError::UniqueViolation { table: Table::CandidateDecisionEvents, key: event_id }));
        }
        let version = current.version + 1;
        let computed = decided_payload_text(&current.payload_json, next, version, &assigned_key, &trigger, &resulting, &event_id);
        let payload_json = if json_same_document(decided_text, &computed) { decided_text.clone() } else { computed };
        let suppression_key = match assigned_key {
            Some(k) => Some(k),
            None => crate::models::recorded_mutation::copy_opt_string(&current.suppression_key),
        };
        let row = CandidateRecord {
            advisory_candidate_id: current.advisory_candidate_id.clone(),
            candidate_kind: current.candidate_kind.clone(),
            lifecycle_state: next.spelling(),
            version,
            suppression_key,
            review_order: current.review_order,
            payload_json,
            created_at: current.created_at.clone(),
            updated_at: envelope.recorded_time.clone(),
        };
        let event = CandidateDecisionEvent {
            id: event_id,
            advisory_candidate_id: current.advisory_candidate_id.clone(),
            from_state: current.lifecycle_state.clone(),
            to_state: next.spelling(),
            resurface_trigger: trigger,
            observed_candidate_version: current.version,
            envelope_json: envelope.envelope_json.clone(),
            resulting_object_id: resulting,
            recorded_at: envelope.recorded_time.clone(),
        };
        Ok((row, event))
    }

    /// Writes a planned decision.
    pub(crate) fn apply_decision(&mut self, row: CandidateRecord, event: CandidateDecisionEvent)
        requires
            old(self).wf(),
            row.version >= 0,
            has_key(old(self)@.candidates, candidate_key(), row.key_view()),
            !has_key(old(self)@.decision_events, event_key(), event.key_view()),
        ensures
            final(self).wf(),
            final(self)@ == (StoreView {
                candidates: put_row(old(self)@.candidates, row),
                decision_events: old(self)@.decision_events.push(event),
                ..old(self)@
            }),
    {
        self.replace_candidate(row);
        self.insert_event(event);
    }
}

/// What the core crate said of a lifecycle decision.
#[derive(Debug)]
pub struct DecisionChecks {
    /// The state machine on moving the candidate's current state to the next one
    /// (with the trigger, if any).
    pub transition: Result<(), CoreError>,
    /// The decided candidate (its next state and version, a newly assigned
    /// suppression key, and the decision's links set on the core type) as the core
    /// crate serializes it once its validation passes, or the validation's refusal.
    pub decided_candidate: Result<String, CoreError>,
}

/// What a generic lifecycle transition does: after the shared checks (a replay
/// answers the recorded candidate), the candidate must exist at the observed
/// version, the core state machine must allow the transition
/// (`checks.transition`), and admission and rejection are refused because they
/// need their dedicated writers; then one decision is written with one ledger row.
pub open spec fn transition_outcome(s: StoreView, envelope: MutationEnvelope, id: Seq<char>, observed_version: u64, next: CandidateLifecycleState, trigger: Option<Seq<char>>, canonical_payload: Seq<char>, checks: DecisionChecks) -> Result<Option<(CandidateView, DecisionEventView)>, StoreErrorView> {
    match prepare_verdict(s, envelope, canonical_payload, MutationTarget::Candidate) {
        Err(e) => Err(e),
        Ok(Prepared::Replay(_)) => Ok(None),
        Ok(Prepared::Fresh) => match observed_candidate_verdict(s, id, observed_version) {
            Err(e) => Err(e),
            Ok(current) => match checks.transition {
                Err(e) => Err(StoreErrorView::Core(e@)),
                Ok(_) => if next == CandidateLifecycleState::Admitted || next == CandidateLifecycleState::Rejected {
                    Err(StoreErrorView::DedicatedCandidateWriterRequired { state: next })
                } else {
                    match decision_verdict(s, envelope, current, next, trigger, None, None, checks.decided_candidate) {
                        Err(e) => Err(e),
                        Ok(d) => Ok(Some(d)),
                    }
                },
            },
        },
    }
}

/// The candidate a replay answers: the current row of the recorded candidate.
pub open spec fn replayed_candidate(s: StoreView, envelope: MutationEnvelope) -> CandidateRecord {
    find(s.candidates, candidate_key(), s.recorded(envelope.origin_device_id@, envelope.idempotency_key@).unwrap().result_object_id@).unwrap()
}

/// The stores and answers `transition_advisory_candidate` may leave: a refusal
/// answers its error and a replay the recorded candidate's current row, both
/// writing nothing; a written decision replaces the candidate row, appends the
/// event and one ledger row, changes nothing else, and answers the new row.
pub open spec fn transitions_candidate(old: StoreView, new: StoreView, envelope: MutationEnvelope, id: Seq<char>, observed_version: u64, next: CandidateLifecycleState, trigger: Option<Seq<char>>, canonical_payload: String, checks: DecisionChecks, r: Result<CandidateRecord, StoreError>) -> bool {
    match transition_outcome(old, envelope, id, observed_version, next, trigger, canonical_payload@, checks) {
        Err(e) => r matches Err(x) && x@ == e && new == old,
        Ok(None) => r == Ok::<CandidateRecord, StoreError>(replayed_candidate(old, envelope)) && new == old,
        Ok(Some((cv, ev))) => r matches Ok(row) && row@ == cv && decision_written(old, new, row, ev)
            && new.ledger == old.ledger.push(ledger_row(envelope, canonical_payload, row.advisory_candidate_id, (-row.version) as i64))
            && new == (StoreView {
                candidates: new.candidates,
                decision_events: new.decision_events,
                ledger: new.ledger,
                ..old
            }),
    }
}

/// Move a candidate through one lifecycle transition (see `transition_outcome`).
/// `checks` is what the core crate said of the decision: the state machine on
/// moving the candidate's current state to `next` with `trigger` (the trigger's
/// spelling), and its validation of the decided candidate.
pub fn transition_advisory_candidate(store: &mut UbuStore, envelope: &MutationEnvelope, id: &str, observed_version: u64, next_state: CandidateLifecycleState, trigger: Option<String>, canonical_payload: String, checks: &DecisionChecks) -> (r: Result<CandidateRecord, StoreError>)
    requires
        old(store).wf(),
    ensures
        final(store).wf(),
        transitions_candidate(old(store)@, final(store)@, *envelope, id@, observed_version, next_state, opt_text(trigger), canonical_payload, *checks, r),
{
    match store.prepare_mutation(envelope, &canonical_payload, MutationTarget::Candidate) {
        Err(e) => return Err(e),
        Ok(Prepared::Replay(row)) => return Ok(store.candidate_row(&row.result_object_id).unwrap()),
        Ok(Prepared::Fresh) => {},
    }
    let current = match store.observed_candidate(id, observed_version) {
        Err(e) => return Err(e),
        Ok(c) => c,
    };
    match &checks.transition {
        Err(e) => return Err(StoreError::Core(e.clone_core())),
        Ok(_) => {},
    }
    if next_state == CandidateLifecycleState::Admitted || next_state == CandidateLifecycleState::Rejected {
        return Err(StoreError::DedicatedCandidateWriterRequired { state: next_state });
    }
    let (row, event) = match store.plan_decision(envelope, &current, next_state, trigger, None, None, &checks.decided_candidate) {
        Err(e) => return Err(e),
        Ok(d) => d,
    };
    proof {
        let i = choose|i: int| 0 <= i < store@.candidates.len() && candidate_key()(store@.candidates[i]) == id@;
        assert(candidate_key()(store@.candidates[i]) == row.key_view());
    }
    let answer = row.duplicate();
    let result_id = row.advisory_candidate_id.clone();
    let version = row.version;
    store.apply_decision(row, event);
    store.record_mutation(envelope, canonical_payload, result_id, -version);
    Ok(answer)
}

// ---------------------------------------------------------------------------
// Rejection
// ---------------------------------------------------------------------------

/// Caller-owned rejection inputs; provenance is taken from the envelope.
#[derive(Debug, Clone, PartialEq, Eq)]
pub struct RejectionInput {
    pub rejection_reason_or_user_correction: String,
    /// The spelling of the retention policy.
    pub retention_policy: String,
    pub evidence_hashes_or_source_fingerprints: Vec<String>,
    pub suppression_key: Option<String>,
}

/// A suppression record as the core crate built it for a rejection.
#[derive(Debug, Clone, PartialEq, Eq)]
pub struct SuppressionDraft {
    /// The record as JSON text.
    pub payload_json: String,
    /// When the rejection was decided (the envelope's effective time).
    pub decided_at: String,
}

/// What the core crate said of a rejection.
#[derive(Debug)]
pub struct RejectionChecks {
    /// The state machine on moving the candidate's current state to `rejected`.
    pub transition: Result<(), CoreError>,
    /// The key derived from the candidate's kind, normalized proposal and
    /// targets, used when neither the candidate nor the caller supplies one.
    pub derived_suppression_key: String,
    /// The suppression record built for the rejection under the key that
    /// `rejection_suppression_key` chooses.
    pub suppression_record: Result<SuppressionDraft, CoreError>,
    /// The rejected candidate (see `DecisionChecks::decided_candidate`) as the core
    /// crate serializes it once its validation passes, or the refusal.
    pub decided_candidate: Result<String, CoreError>,
}

/// Which suppression key a rejection uses: a proposal may acquire its key at
/// rejection, but an existing key must not silently change. An existing key
/// stands (a different supplied key conflicts); otherwise the supplied key, or
/// else the derived one.
pub open spec fn rejection_key(existing: Option<Seq<char>>, supplied: Option<Seq<char>>, derived: Seq<char>) -> Result<Seq<char>, StoreErrorView> {
    match (existing, supplied) {
        (Some(e), Some(s)) => if e != s { Err(StoreErrorView::SuppressionKeyConflict) } else { Ok(e) },
        (Some(e), None) => Ok(e),
        (None, Some(s)) => Ok(s),
        (None, None) => Ok(derived),
    }
}

/// Chooses the suppression key of a rejection (see `rejection_key`).
pub fn rejection_suppression_key(existing: &Option<String>, supplied: &Option<String>, derived: &str) -> (r: Result<String, StoreError>)
    ensures
        match rejection_key(opt_text(*existing), opt_text(*supplied), derived@) {
            Ok(k) => r matches Ok(x) && x@ == k,
            Err(e) => r matches Err(x) && x@ == e,
        },
{
    match (existing, supplied) {
        (Some(e), Some(s)) => if !same_text(e, s) { Err(StoreError::SuppressionKeyConflict) } else { Ok(e.clone()) },
        (Some(e), None) => Ok(e.clone()),
        (None, Some(s)) => Ok(s.clone()),
        (None, None) => Ok(derived.to_owned()),
    }
}

/// What a rejection writes, or why it cannot: after the shared checks (a replay
/// answers the recorded candidate), the candidate must exist at the observed
/// version, the state machine must allow rejection, the suppression key is
/// chosen, the suppression record must build and its key must be new; then the
/// suppression record, the decision and one ledger row are written together.
/// `Ok(None)` is a replay; `Ok(Some((row, event, key)))` a written rejection.
pub open spec fn reject_outcome(s: StoreView, envelope: MutationEnvelope, id: Seq<char>, observed_version: u64, supplied_key: Option<Seq<char>>, checks: RejectionChecks, canonical_payload: Seq<char>) -> Result<Option<(CandidateView, DecisionEventView, Seq<char>)>, StoreErrorView> {
    match prepare_verdict(s, envelope, canonical_payload, MutationTarget::Candidate) {
        Err(e) => Err(e),
        Ok(Prepared::Replay(_)) => Ok(None),
        Ok(Prepared::Fresh) => match observed_candidate_verdict(s, id, observed_version) {
            Err(e) => Err(e),
            Ok(current) => match checks.transition {
                Err(e) => Err(StoreErrorView::Core(e@)),
                Ok(_) => match rejection_key(opt_text(current.suppression_key), supplied_key, checks.derived_suppression_key@) {
                    Err(e) => Err(e),
                    Ok(key) => match checks.suppression_record {
                        Err(e) => Err(StoreErrorView::Core(e@)),
                        Ok(_) => if has_key(s.suppressions, suppression_key(), key) {
                            Err(StoreErrorView::Sqlx(DatabaseErrorView::UniqueViolation { table: Table::SuppressionRecords, key }))
                        } else {
                            let assigned = if current.suppression_key is None { Some(key) } else { None };
                            match decision_verdict(s, envelope, current, CandidateLifecycleState::Rejected, None, None, assigned, checks.decided_candidate) {
                                Err(e) => Err(e),
                                Ok((cv, ev)) => Ok(Some((cv, ev, key))),
                            }
                        },
                    },
                },
            },
        },
    }
}

/// The store after a rejection: the suppression record appended (under the
/// chosen key, for the candidate, as the core crate built it), the decision
/// written, and one ledger row appended; nothing else changed.
pub open spec fn rejection_written(old: StoreView, new: StoreView, envelope: MutationEnvelope, canonical_payload: String, row: CandidateRecord, event_view: DecisionEventView, key: Seq<char>, draft: Result<SuppressionDraft, CoreError>) -> bool {
    &&& decision_written(old, new, row, event_view)
    &&& new.ledger == old.ledger.push(ledger_row(envelope, canonical_payload, row.advisory_candidate_id, (-row.version) as i64))
    &&& new.suppressions.len() == old.suppressions.len() + 1
    &&& new.suppressions == old.suppressions.push(new.suppressions.last())
    &&& new.suppressions.last().suppression_key@ == key
    &&& new.suppressions.last().advisory_candidate_id == row.advisory_candidate_id
    &&& draft matches Ok(d)
    &&& new.suppressions.last().payload_json == d.payload_json
    &&& new.suppressions.last().decided_at == d.decided_at
    &&& new == (StoreView {
        candidates: new.candidates,
        decision_events: new.decision_events,
        ledger: new.ledger,
        suppressions: new.suppressions,
        ..old
    })
}

/// The stores and answers `reject_advisory_candidate` may leave: a refusal
/// answers its error and a replay the recorded candidate's current row, both
/// writing nothing; a written rejection is as `rejection_written` says, and
/// answers the new candidate row.
pub open spec fn rejects_candidate(old: StoreView, new: StoreView, envelope: MutationEnvelope, id: Seq<char>, observed_version: u64, supplied_key: Option<Seq<char>>, checks: RejectionChecks, canonical_payload: String, r: Result<CandidateRecord, StoreError>) -> bool {
    match reject_outcome(old, envelope, id, observed_version, supplied_key, checks, canonical_payload@) {
        Err(e) => r matches Err(x) && x@ == e && new == old,
        Ok(None) => r == Ok::<CandidateRecord, StoreError>(replayed_candidate(old, envelope)) && new == old,
        Ok(Some((cv, ev, key))) => r matches Ok(row) && row@ == cv
            && rejection_written(old, new, envelope, canonical_payload, row, ev, key, checks.suppression_record),
    }
}

/// Reject a candidate atomically with a durable suppression record and a decision
/// event, without creating canonical state (see `reject_outcome`).
pub fn reject_advisory_candidate(store: &mut UbuStore, envelope: &MutationEnvelope, id: &str, observed_version: u64, input: &RejectionInput, canonical_payload: String, checks: RejectionChecks) -> (r: Result<CandidateRecord, StoreError>)
    requires
        old(store).wf(),
    ensures
        final(store).wf(),
        rejects_candidate(old(store)@, final(store)@, *envelope, id@, observed_version, opt_text(input.suppression_key), checks, canonical_payload, r),
{
    match store.prepare_mutation(envelope, &canonical_payload, MutationTarget::Candidate) {
        Err(e) => return Err(e),
        Ok(Prepared::Replay(row)) => return Ok(store.candidate_row(&row.result_object_id).unwrap()),
        Ok(Prepared::Fresh) => {},
    }
    let current = match store.observed_candidate(id, observed_version) {
        Err(e) => return Err(e),
        Ok(c) => c,
    };
    match &checks.transition {
        Err(e) => return Err(StoreError::Core(e.clone_core())),
        Ok(_) => {},
    }
    let key = match rejection_suppression_key(&current.suppression_key, &input.suppression_key, &checks.derived_suppression_key) {
        Err(e) => return Err(e),
        Ok(k) => k,
    };
    let draft = match checks.suppression_record {
        Err(e) => return Err(StoreError::Core(e)),
        Ok(d) => d,
    };
    if store.suppression_row(&key).is_some() {
        return Err(StoreError::Sqlx(DatabaseError::UniqueViolation { table: Table::SuppressionRecords, key }));
    }
    let assigned = if current.suppression_key.is_none() { Some(key.clone()) } else { None };
    let (row, event) = match store.plan_decision(envelope, &current, CandidateLifecycleState::Rejected, None, None, assigned, &checks.decided_candidate) {
        Err(e) => return Err(e),
        Ok(d) => d,
    };
    proof {
        let i = choose|i: int| 0 <= i < store@.candidates.len() && candidate_key()(store@.candidates[i]) == id@;
        assert(candidate_key()(store@.candidates[i]) == row.key_view());
    }
    let suppression = StoredSuppression {
        suppression_key: key,
        advisory_candidate_id: current.advisory_candidate_id.clone(),
        payload_json: draft.payload_json,
        decided_at: draft.decided_at,
    };
    store.insert_suppression(suppression);
    let answer = row.duplicate();
    let result_id = row.advisory_candidate_id.clone();
    let version = row.version;
    store.apply_decision(row, event);
    store.record_mutation(envelope, canonical_payload, result_id, -version);
    Ok(answer)
}

// ---------------------------------------------------------------------------
// Admission
// ---------------------------------------------------------------------------

/// How admitting a candidate ends.
pub enum CandidateAdmission {
    /// A replay of the same admission: the candidate's and the object's current rows.
    Replayed(CandidateRecord, ObjectRecord),
    /// Refused, nothing written.
    Refused(StoreErrorView),
    /// The object was admitted and the candidate decision written.
    Admitted(ObjectRecord, CandidateView, DecisionEventView),
}

/// Whether a recorded decision event is this admission of candidate `id` at the
/// observed version, resulting in `object_id`.
pub open spec fn is_admission_event(e: CandidateDecisionEvent, id: Seq<char>, observed_version: u64, object_id: Seq<char>) -> bool {
    &&& e.advisory_candidate_id@ == id
    &&& e.observed_candidate_version >= 0
    &&& e.observed_candidate_version as int == observed_version as int
    &&& e.to_state@ == "admitted"@
    &&& opt_text(e.resulting_object_id) == Some(object_id)
}

/// What admitting a candidate does, in one transaction. After the shared checks
/// for a canonical object: a replay must match this candidate's admission event
/// (an ordinary object replay is no proof that this candidate was admitted), and
/// answers the candidate's and the object's current rows. A fresh admission needs
/// the candidate at the observed version and the state machine's leave; the
/// object goes through ordinary canonical admission; then the decision, linked to
/// the admitted object, is written with it.
pub open spec fn admit_candidate_outcome(s: StoreView, envelope: MutationEnvelope, id: Seq<char>, observed_version: u64, record: NewObjectRecord, canonical_payload: String, checks: ObjectChecks, decision: DecisionChecks) -> CandidateAdmission {
    match prepare_verdict(s, envelope, canonical_payload@, MutationTarget::Object) {
        Err(e) => CandidateAdmission::Refused(e),
        Ok(Prepared::Replay(row)) => match find(s.decision_events, event_key(), decision_id_of(envelope)) {
            Some(event) => if is_admission_event(event, id, observed_version, row.result_object_id@) {
                match find(s.candidates, candidate_key(), id) {
                    None => CandidateAdmission::Refused(StoreErrorView::CandidateMissing { id }),
                    Some(c) => match s.object(row.result_object_id@) {
                        Some(o) => CandidateAdmission::Replayed(c, o),
                        None => CandidateAdmission::Refused(StoreErrorView::RecordedMutationObjectMissing { object_id: row.result_object_id@ }),
                    },
                }
            } else {
                CandidateAdmission::Refused(StoreErrorView::ReplayTargetMismatch { object_id: id, expected_table: Table::CandidateDecisionEvents })
            },
            None => CandidateAdmission::Refused(StoreErrorView::ReplayTargetMismatch { object_id: id, expected_table: Table::CandidateDecisionEvents }),
        },
        Ok(Prepared::Fresh) => match observed_candidate_verdict(s, id, observed_version) {
            Err(e) => CandidateAdmission::Refused(e),
            Ok(current) => match decision.transition {
                Err(e) => CandidateAdmission::Refused(StoreErrorView::Core(e@)),
                Ok(_) => match admission_plan(s, envelope, record, checks) {
                    Err(e) => CandidateAdmission::Refused(e),
                    Ok(object) => match decision_verdict(s, envelope, current, CandidateLifecycleState::Admitted, None, Some(object.id@), None, decision.decided_candidate) {
                        Err(e) => CandidateAdmission::Refused(e),
                        Ok((cv, ev)) => CandidateAdmission::Admitted(object, cv, ev),
                    },
                },
            },
        },
    }
}

/// The stores and answers `admit_advisory_candidate` may leave: a refusal answers
/// its error and a replay the candidate's and the object's current rows, both
/// writing nothing; an admission writes the object and its ledger row as ordinary
/// admission does, then the decision, and answers the new candidate row and the
/// object.
pub open spec fn admits_candidate(old: StoreView, new: StoreView, envelope: MutationEnvelope, id: Seq<char>, observed_version: u64, record: NewObjectRecord, canonical_payload: String, checks: ObjectChecks, decision: DecisionChecks, r: Result<(CandidateRecord, ObjectRecord), StoreError>) -> bool {
    match admit_candidate_outcome(old, envelope, id, observed_version, record, canonical_payload, checks, decision) {
        CandidateAdmission::Refused(e) => r matches Err(x) && x@ == e && new == old,
        CandidateAdmission::Replayed(c, o) => r == Ok::<(CandidateRecord, ObjectRecord), StoreError>((c, o)) && new == old,
        CandidateAdmission::Admitted(object, cv, ev) => r matches Ok((row, o)) && o == object && row@ == cv
            && decision_written(with_admitted(old, envelope, canonical_payload, object), new, row, ev)
            && new == (StoreView {
                candidates: new.candidates,
                decision_events: new.decision_events,
                ..with_admitted(old, envelope, canonical_payload, object)
            }),
    }
}

/// Admit a candidate: one transaction, one ordinary canonical ledger entry, and
/// one linked review decision (see `admit_candidate_outcome`). `canonical_payload`
/// is the canonical form of the object's payload; `checks` is what the core crate
/// and the JSON reader said of the object; `decision` is what the core crate said
/// of the decision: the state machine on moving the candidate to `admitted`, and
/// its validation of the admitted candidate.
pub fn admit_advisory_candidate(store: &mut UbuStore, envelope: &MutationEnvelope, id: &str, observed_version: u64, record: NewObjectRecord, canonical_payload: String, checks: &ObjectChecks, decision: &DecisionChecks) -> (r: Result<(CandidateRecord, ObjectRecord), StoreError>)
    requires
        old(store).wf(),
    ensures
        final(store).wf(),
        admits_candidate(old(store)@, final(store)@, *envelope, id@, observed_version, record, canonical_payload, *checks, *decision, r),
{
    let prepared = match store.prepare_mutation(envelope, &canonical_payload, MutationTarget::Object) {
        Err(e) => return Err(e),
        Ok(p) => p,
    };
    match prepared {
        Prepared::Replay(replay) => {
            let event_id = decision_id(envelope);
            let matches = match store.event_row(&event_id) {
                Some(event) => {
                    same_text(&event.advisory_candidate_id, id)
                        && event.observed_candidate_version >= 0
                        && event.observed_candidate_version as u64 == observed_version
                        && same_text(&event.to_state, "admitted")
                        && match &event.resulting_object_id {
                            Some(o) => same_text(o, &replay.result_object_id),
                            None => false,
                        }
                },
                None => false,
            };
            if !matches {
                return Err(StoreError::ReplayTargetMismatch {
                    object_id: id.to_owned(),
                    expected_table: Table::CandidateDecisionEvents,
                });
            }
            let candidate = match store.candidate_row(id) {
                None => return Err(StoreError::CandidateMissing { id: id.to_owned() }),
                Some(c) => c,
            };
            return match store.current_object(&replay.result_object_id) {
                Some(o) => Ok((candidate, o)),
                None => Err(StoreError::RecordedMutationObjectMissing { object_id: replay.result_object_id }),
            };
        },
        Prepared::Fresh => {},
    }
    let current = match store.observed_candidate(id, observed_version) {
        Err(e) => return Err(e),
        Ok(c) => c,
    };
    match &decision.transition {
        Err(e) => return Err(StoreError::Core(e.clone_core())),
        Ok(_) => {},
    }
    let object = match store.plan_admission(envelope, record, checks) {
        Err(e) => return Err(e),
        Ok(o) => o,
    };
    let (row, event) = match store.plan_decision(envelope, &current, CandidateLifecycleState::Admitted, None, Some(object.id.clone()), None, &decision.decided_candidate) {
        Err(e) => return Err(e),
        Ok(d) => d,
    };
    proof {
        let i = choose|i: int| 0 <= i < store@.candidates.len() && candidate_key()(store@.candidates[i]) == id@;
        assert(candidate_key()(store@.candidates[i]) == row.key_view());
    }
    let answer_object = object.duplicate();
    store.apply_admission(envelope, canonical_payload, object);
    let answer = row.duplicate();
    store.apply_decision(row, event);
    Ok((answer, answer_object))
}

} // verus!

verus! {

// ---------------------------------------------------------------------------
// Candidate-state reads
// ---------------------------------------------------------------------------

/// `a` comes before `b` in review order: an absent review order before any
/// number, then smaller numbers first.
pub open spec fn review_order_less(a: Option<i64>, b: Option<i64>) -> bool {
    match (a, b) {
        (None, Some(_)) => true,
        (Some(x), Some(y)) => x < y,
        _ => false,
    }
}

/// The review surface's order: review order, then creation time, then id.
pub struct ReviewSurfaceOrder;

impl RowOrder<CandidateRecord> for ReviewSurfaceOrder {
    open spec fn before(a: CandidateRecord, b: CandidateRecord) -> bool {
        ||| review_order_less(a.review_order, b.review_order)
        ||| a.review_order == b.review_order && text_less(a.created_at@, b.created_at@)
        ||| a.review_order == b.review_order && a.created_at@ == b.created_at@
            && text_less(a.advisory_candidate_id@, b.advisory_candidate_id@)
    }

    fn precedes(a: &CandidateRecord, b: &CandidateRecord) -> (r: bool) {
        let order_less = match (a.review_order, b.review_order) {
            (None, Some(_)) => true,
            (Some(x), Some(y)) => x < y,
            _ => false,
        };
        if order_less {
            return true;
        }
        if a.review_order != b.review_order {
            return false;
        }
        if text_precedes(&a.created_at, &b.created_at) {
            return true;
        }
        same_text(&a.created_at, &b.created_at) && text_precedes(&a.advisory_candidate_id, &b.advisory_candidate_id)
    }
}

/// The review order and the decision order are strict orders.
pub proof fn lemma_candidate_orders_strict()
    ensures
        strict_order(order_of::<CandidateRecord, ReviewSurfaceOrder>()),
        strict_order(order_of::<CandidateDecisionEvent, DecisionOrder>()),
{
    assert forall|a: Seq<char>, b: Seq<char>| text_less(a, b) implies !text_less(b, a) by {
        lemma_text_less_asymmetric(a, b);
    }
    assert forall|a: Seq<char>, b: Seq<char>, c: Seq<char>| text_less(a, b) && text_less(b, c) implies text_less(a, c) by {
        lemma_text_less_transitive(a, b, c);
    }
}

/// Candidates that await review: `proposed` or `resurfaced`.
pub struct AwaitingReview;

impl RowFilter<CandidateRecord> for AwaitingReview {
    open spec fn keeps(&self, r: CandidateRecord) -> bool {
        r.lifecycle_state@ == "proposed"@ || r.lifecycle_state@ == "resurfaced"@
    }

    fn matches(&self, r: &CandidateRecord) -> (b: bool) {
        same_text(&r.lifecycle_state, "proposed") || same_text(&r.lifecycle_state, "resurfaced")
    }
}

/// The active review surface: the candidates in `proposed` or `resurfaced`,
/// in review order (absent order first), then creation time, then id.
pub open spec fn review_surface(s: StoreView) -> Seq<CandidateRecord> {
    stable_sort(
        keep(s.candidates, |r: CandidateRecord| r.lifecycle_state@ == "proposed"@ || r.lifecycle_state@ == "resurfaced"@),
        order_of::<CandidateRecord, ReviewSurfaceOrder>(),
    )
}

/// The active review surface only: candidates in `proposed` or `resurfaced`,
/// those without a review order first, then by review order, creation time
/// and id.
pub fn review_queue(store: &UbuStore) -> (r: Vec<CandidateRecord>)
    ensures
        r@ == review_surface(store@),
{
    let filter = AwaitingReview;
    let selected = store.select_candidates(&filter);
    assert((|r: CandidateRecord| filter.keeps(r)) =~= (|r: CandidateRecord| r.lifecycle_state@ == "proposed"@ || r.lifecycle_state@ == "resurfaced"@));
    sort_rows::<CandidateRecord, ReviewSurfaceOrder>(selected)
}

/// The candidate row of id `id`, if there is one.
pub fn get_advisory_candidate(store: &UbuStore, id: &str) -> (r: Option<CandidateRecord>)
    requires
        store.wf(),
    ensures
        r == find(store@.candidates, candidate_key(), id@),
{
    store.candidate_row(id)
}

/// Decision events in decision order: observed candidate version, then id.
pub struct DecisionOrder;

impl RowOrder<CandidateDecisionEvent> for DecisionOrder {
    open spec fn before(a: CandidateDecisionEvent, b: CandidateDecisionEvent) -> bool {
        ||| a.observed_candidate_version < b.observed_candidate_version
        ||| a.observed_candidate_version == b.observed_candidate_version && text_less(a.id@, b.id@)
    }

    fn precedes(a: &CandidateDecisionEvent, b: &CandidateDecisionEvent) -> (r: bool) {
        a.observed_candidate_version < b.observed_candidate_version
            || (a.observed_candidate_version == b.observed_candidate_version && text_precedes(&a.id, &b.id))
    }
}

/// Decision events about one candidate.
pub struct AboutCandidate {
    pub advisory_candidate_id: String,
}

impl RowFilter<CandidateDecisionEvent> for AboutCandidate {
    open spec fn keeps(&self, r: CandidateDecisionEvent) -> bool {
        r.advisory_candidate_id@ == self.advisory_candidate_id@
    }

    fn matches(&self, r: &CandidateDecisionEvent) -> (b: bool) {
        same_text(&r.advisory_candidate_id, &self.advisory_candidate_id)
    }
}

/// The decision events of candidate `id`, by observed version, then id.
pub open spec fn decision_history(s: StoreView, id: Seq<char>) -> Seq<CandidateDecisionEvent> {
    stable_sort(keep(s.decision_events, about_candidate(id)), order_of::<CandidateDecisionEvent, DecisionOrder>())
}

/// Whether a decision event is about candidate `id`.
pub open spec fn about_candidate(id: Seq<char>) -> spec_fn(CandidateDecisionEvent) -> bool {
    |r: CandidateDecisionEvent| r.advisory_candidate_id@ == id
}

/// The decision events of candidate `id`, in decision order: by the candidate
/// version each decision observed, then by event id (so equal or backdated
/// timestamps do not reorder decisions).
pub fn list_candidate_decision_events(store: &UbuStore, id: &str) -> (r: Vec<CandidateDecisionEvent>)
    ensures
        r@ == decision_history(store@, id@),
{
    let filter = AboutCandidate { advisory_candidate_id: id.to_owned() };
    let selected = store.select_decision_events(&filter);
    assert((|r: CandidateDecisionEvent| filter.keeps(r)) =~= about_candidate(id@));
    sort_rows::<CandidateDecisionEvent, DecisionOrder>(selected)
}

/// The durable suppression record stored under `suppression_key`, if any.
pub fn find_suppression_record(store: &UbuStore, suppression_key_text: &str) -> (r: Option<StoredSuppression>)
    requires
        store.wf(),
    ensures
        r == find(store@.suppressions, suppression_key(), suppression_key_text@),
{
    store.suppression_row(suppression_key_text)
}

} // verus!
