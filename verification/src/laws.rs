//! Laws of the store: what holds across calls of its writers and readers.

use vstd::prelude::*;

use crate::admission::ObjectChecks;
use crate::candidates::{
    about_candidate, admit_candidate_outcome, admits_candidate, decision_history, decision_id_of, lemma_candidate_orders_strict, reject_outcome,
    rejects_candidate, review_surface, store_candidate_outcome, stores_candidate, transition_outcome,
    transitions_candidate, AdvisoryCandidate, CandidateAdmission, CandidateOutcome, DecisionChecks, DecisionOrder, RejectionChecks,
    ReviewSurfaceOrder,
};
use crate::envelope::{MutationEnvelope, VersionRef};
use crate::errors::{CoreError, CoreErrorView, StoreError, StoreErrorView};
use crate::models::calendar_record::NewCalendarRecord;
use crate::models::candidate_record::{
    state_spelling, CandidateDecisionEvent, CandidateLifecycleState, CandidateRecord, CandidateView, DecisionEventView,
};
use crate::models::external_reference_record::{ExternalReferenceRecord, NewExternalReferenceRecord};
use crate::models::log_record::{LogRecord, NewLogRecord};
use crate::models::object_record::{NewObjectRecord, ObjectRecord};
use crate::models::plan_record::NewPlanRecord;
use crate::models::projection_record::{NewProjectionPreviewRecord, NewProjectionResultRecord};
use crate::models::worker_submission_record::NewWorkerSubmissionRecord;
use crate::order::{keep, lemma_sorted_selection, order_of, ordered_by};
use crate::queries::{
    active_tasks, admission_plan, admit_object_spec, with_admitted, append_log_entry_spec, external_references_of,
    lemma_read_orders_strict, lemma_target_matches, log_row_of, object_history, persist_universe_state_spec,
    recalculation_trigger_logs, store_calendar_spec, store_external_reference_spec, store_plan_spec,
    store_projection_preview_spec, store_projection_result_spec, store_worker_submission_spec, target_expectation,
    canonical_recorded, target_expectation_from, xref_row_of, CalendarChecks, LogChecks, LogsNewestFirst, LogsOldestFirst,
    ObjectsRecentFirst, ProjectionResultChecks, RecordChecks, ReferencesNewestFirst, WorkerSubmissionChecks,
};
use crate::store::{
    actual_label, candidate_key, expected_label, failed_precondition_from, find, lemma_found_has_key,
    lemma_preconditions_hold, lemma_push_fresh, lemma_put_object, lemma_put_row, ledger_key, ledger_row, log_key,
    event_key, object_key, preconditions_verdict, prepare_verdict, version_matches, xref_key, MutationTarget, Prepared, StoreView,
};
use crate::json::{json_string_pair, lemma_json_string_pair_injective};
use crate::text::like_contains;

verus! {

/// The conflict a writer answers when a Device's key is reused with another payload.
pub open spec fn key_conflict(envelope: MutationEnvelope) -> StoreErrorView {
    StoreErrorView::Core(CoreErrorView::IdempotencyKeyConflict {
        origin_device_id: envelope.origin_device_id@,
        idempotency_key: envelope.idempotency_key@,
    })
}

/// After a successful admission, the request's Device-scoped key is recorded with
/// its canonical payload, its result is a canonical object, and that object is the
/// answer and the current state of its id.
proof fn lemma_admission_recorded(s: StoreView, envelope: MutationEnvelope, record: NewObjectRecord, canonical_payload: String, checks: ObjectChecks)
    requires
        s.wf(),
        admit_object_spec(s, envelope, record, canonical_payload, checks).1 is Ok,
    ensures
        ({
            let (s1, r1) = admit_object_spec(s, envelope, record, canonical_payload, checks);
            let row = r1->Ok_0;
            &&& envelope.validation is Ok
            &&& s1.recorded(envelope.origin_device_id@, envelope.idempotency_key@) matches Some(lr)
                && lr.canonical_payload@ == canonical_payload@
                && lr.result_version > 0
                && lr.result_object_id@ == row.id@
            &&& s1.object(row.id@) == Some(row)
        }),
{
    let (s1, r1) = admit_object_spec(s, envelope, record, canonical_payload, checks);
    match prepare_verdict(s, envelope, canonical_payload@, MutationTarget::Object) {
        Err(_) => {},
        Ok(Prepared::Replay(lr)) => {
            let o = s.object(lr.result_object_id@).unwrap();
            lemma_found_has_key(s.objects, object_key(), lr.result_object_id@);
            assert(o.id@ == lr.result_object_id@);
        },
        Ok(Prepared::Fresh) => {
            let row = admission_plan(s, envelope, record, checks)->Ok_0;
            let lr = ledger_row(envelope, canonical_payload, row.id, row.version);
            assert(ledger_key()(lr) == (envelope.origin_device_id@, envelope.idempotency_key@));
            lemma_push_fresh(s.ledger, ledger_key(), lr);
            lemma_put_object(s.objects, row);
            assert(row.version >= 1) by {
                match target_expectation(envelope.observed_versions@, record.id@) {
                    Some(VersionRef::Version(v)) => {},
                    _ => {},
                }
            }
        },
    }
}

/// Replaying an admission is idempotent: once `admit_object` has answered a
/// request with an object, sending the same envelope again with the same
/// canonical payload (whatever record and checks come with it) answers that same
/// object, its current state, and writes nothing.
pub proof fn admission_replay_is_idempotent(s: StoreView, envelope: MutationEnvelope, record: NewObjectRecord, canonical_payload: String, checks: ObjectChecks, resent: NewObjectRecord, resent_checks: ObjectChecks)
    requires
        s.wf(),
        admit_object_spec(s, envelope, record, canonical_payload, checks).1 is Ok,
    ensures
        ({
            let (s1, r1) = admit_object_spec(s, envelope, record, canonical_payload, checks);
            admit_object_spec(s1, envelope, resent, canonical_payload, resent_checks) == (s1, r1)
        }),
{
    lemma_admission_recorded(s, envelope, record, canonical_payload, checks);
}

/// Idempotency keys are global per Device across the canonical writers: once
/// `admit_object` has answered a request, any canonical writer sent the same
/// Device and key with a different canonical payload refuses with an
/// idempotency-key conflict and writes nothing.
pub proof fn reused_key_conflicts_across_writers(
    s: StoreView,
    envelope: MutationEnvelope,
    record: NewObjectRecord,
    canonical_payload: String,
    checks: ObjectChecks,
    other_payload: String,
    other_record: NewObjectRecord,
    other_checks: ObjectChecks,
    log: NewLogRecord,
    log_checks: LogChecks,
    reference: NewExternalReferenceRecord,
    reference_checks: RecordChecks,
    state_id: String,
    state_json: String,
    provenance_json: String,
    stored: String,
    state_checks: ObjectChecks,
)
    requires
        s.wf(),
        admit_object_spec(s, envelope, record, canonical_payload, checks).1 is Ok,
        other_payload@ != canonical_payload@,
    ensures
        ({
            let s1 = admit_object_spec(s, envelope, record, canonical_payload, checks).0;
            &&& admit_object_spec(s1, envelope, other_record, other_payload, other_checks)
                == (s1, Err::<ObjectRecord, StoreErrorView>(key_conflict(envelope)))
            &&& append_log_entry_spec(s1, envelope, log, other_payload, log_checks)
                == (s1, Err::<LogRecord, StoreErrorView>(key_conflict(envelope)))
            &&& store_external_reference_spec(s1, envelope, reference, other_payload, reference_checks)
                == (s1, Err::<ExternalReferenceRecord, StoreErrorView>(key_conflict(envelope)))
            &&& persist_universe_state_spec(s1, envelope, state_id, state_json, provenance_json, stored, other_payload, state_checks)
                == (s1, Err::<ObjectRecord, StoreErrorView>(key_conflict(envelope)))
        }),
{
    lemma_admission_recorded(s, envelope, record, canonical_payload, checks);
}

/// Idempotency keys are global per Device across canonical and candidate writers:
/// once `admit_object` has answered a request, each candidate writer sent the
/// same Device and key with a different canonical payload refuses with an
/// idempotency-key conflict and writes nothing (a proposal once the core crate has
/// accepted it and it is in the initial state, which are checked first).
pub proof fn reused_key_conflicts_for_candidate_writers(
    s: StoreView,
    envelope: MutationEnvelope,
    record: NewObjectRecord,
    canonical_payload: String,
    checks: ObjectChecks,
    other_payload: String,
    candidate: AdvisoryCandidate,
    id: Seq<char>,
    observed_version: u64,
    next: CandidateLifecycleState,
    trigger: Option<Seq<char>>,
    decision: DecisionChecks,
    supplied_key: Option<Seq<char>>,
    rejection: RejectionChecks,
    object: NewObjectRecord,
    object_checks: ObjectChecks,
)
    requires
        s.wf(),
        admit_object_spec(s, envelope, record, canonical_payload, checks).1 is Ok,
        other_payload@ != canonical_payload@,
        candidate.lifecycle_state == CandidateLifecycleState::Proposed,
    ensures
        ({
            let s1 = admit_object_spec(s, envelope, record, canonical_payload, checks).0;
            &&& store_candidate_outcome(s1, envelope, candidate, other_payload@, Ok(()))
                == CandidateOutcome::Refused(key_conflict(envelope))
            &&& transition_outcome(s1, envelope, id, observed_version, next, trigger, other_payload@, decision)
                == Err::<Option<(CandidateView, DecisionEventView)>, StoreErrorView>(key_conflict(envelope))
            &&& reject_outcome(s1, envelope, id, observed_version, supplied_key, rejection, other_payload@)
                == Err::<Option<(CandidateView, DecisionEventView, Seq<char>)>, StoreErrorView>(key_conflict(envelope))
            &&& admit_candidate_outcome(s1, envelope, id, observed_version, object, other_payload, object_checks, decision)
                == CandidateAdmission::Refused(key_conflict(envelope))
        }),
{
    lemma_admission_recorded(s, envelope, record, canonical_payload, checks);
}

/// Object versions follow admissions: a fresh request that admits a new object
/// writes version 1 with the record's type and creation time; one that admits an
/// existing object writes the next version after its current one and keeps the
/// object's type and creation time. Either way the status, label, payload and
/// update time are the record's.
pub proof fn admission_versions(s: StoreView, envelope: MutationEnvelope, record: NewObjectRecord, canonical_payload: String, checks: ObjectChecks)
    requires
        s.wf(),
        s.recorded(envelope.origin_device_id@, envelope.idempotency_key@) is None,
        admit_object_spec(s, envelope, record, canonical_payload, checks).1 is Ok,
    ensures
        ({
            let row = admit_object_spec(s, envelope, record, canonical_payload, checks).1->Ok_0;
            &&& row.id@ == record.id@
            &&& row.status == record.status
            &&& row.compartment_label == record.compartment_label
            &&& row.payload_json == record.payload
            &&& row.updated_at == record.updated_at
            &&& match s.object(record.id@) {
                None => row.version == 1 && row.object_type == record.object_type && row.created_at == record.created_at,
                Some(current) => row.version == current.version + 1 && row.object_type == current.object_type
                    && row.created_at == current.created_at,
            }
        }),
{
    lemma_preconditions_hold(s, envelope.observed_versions@);
    if target_expectation(envelope.observed_versions@, record.id@) is Some {
        lemma_target_matches(s, envelope.observed_versions@, record.id@, 0);
    }
    if s.object(record.id@) is Some {
        lemma_found_has_key(s.objects, object_key(), record.id@);
    }
}

/// Read after write: after `admit_object` answers an object, the current state of
/// its id (what `get_current_state` reads) is that object, and every other id
/// reads what it read before.
pub proof fn admitted_object_is_current(s: StoreView, envelope: MutationEnvelope, record: NewObjectRecord, canonical_payload: String, checks: ObjectChecks)
    requires
        s.wf(),
        admit_object_spec(s, envelope, record, canonical_payload, checks).1 is Ok,
    ensures
        ({
            let (s1, r1) = admit_object_spec(s, envelope, record, canonical_payload, checks);
            &&& s1.object(r1->Ok_0.id@) == Some(r1->Ok_0)
            &&& forall|k: Seq<char>| k != r1->Ok_0.id@ ==> s1.object(k) == s.object(k)
        }),
{
    lemma_admission_recorded(s, envelope, record, canonical_payload, checks);
    if prepare_verdict(s, envelope, canonical_payload@, MutationTarget::Object) is Ok {
        if prepare_verdict(s, envelope, canonical_payload@, MutationTarget::Object)->Ok_0 is Fresh {
            lemma_put_object(s.objects, admission_plan(s, envelope, record, checks)->Ok_0);
        }
    }
}

/// A UniverseState update is a new version of an existing object: when
/// `persist_universe_state` writes, the state's object existed, the written row
/// is its next version with the stored payload text (`persist_universe_state`
/// fixes its characters to `universe_payload`) and the envelope's recorded time,
/// it keeps the object's type, status, label and creation time, and it is then
/// the object's current state.
pub proof fn universe_state_is_next_version(s: StoreView, envelope: MutationEnvelope, state_id: String, state_json: String, provenance_json: String, stored: String, canonical_payload: String, checks: ObjectChecks)
    requires
        s.wf(),
        s.recorded(envelope.origin_device_id@, envelope.idempotency_key@) is None,
        persist_universe_state_spec(s, envelope, state_id, state_json, provenance_json, stored, canonical_payload, checks).1 is Ok,
    ensures
        ({
            let (s1, r1) = persist_universe_state_spec(s, envelope, state_id, state_json, provenance_json, stored, canonical_payload, checks);
            let row = r1->Ok_0;
            &&& s.object(state_id@) matches Some(current)
                && row.version == current.version + 1
                && row.id == current.id
                && row.object_type == current.object_type
                && row.status == current.status
                && row.compartment_label == current.compartment_label
                && row.created_at == current.created_at
            &&& row.payload_json == stored
            &&& row.updated_at == envelope.recorded_time
            &&& s1.object(state_id@) == Some(row)
        }),
{
    lemma_preconditions_hold(s, envelope.observed_versions@);
    if target_expectation(envelope.observed_versions@, state_id@) is Some {
        lemma_target_matches(s, envelope.observed_versions@, state_id@, 0);
    }
    if s.object(state_id@) is Some {
        lemma_found_has_key(s.objects, object_key(), state_id@);
        lemma_put_object(s.objects, persist_universe_state_spec(s, envelope, state_id, state_json, provenance_json, stored, canonical_payload, checks).1->Ok_0);
    }
}

/// A refused request changes nothing: whenever a writer refuses, the store after
/// the call is the store before it.
pub proof fn refusals_change_nothing(
    s: StoreView,
    envelope: MutationEnvelope,
    canonical_payload: String,
    record: NewObjectRecord,
    checks: ObjectChecks,
    log: NewLogRecord,
    log_checks: LogChecks,
    reference: NewExternalReferenceRecord,
    reference_checks: RecordChecks,
    state_id: String,
    state_json: String,
    provenance_json: String,
    stored: String,
    plan: NewPlanRecord,
    plan_checks: RecordChecks,
    calendar: NewCalendarRecord,
    calendar_checks: CalendarChecks,
    submission: NewWorkerSubmissionRecord,
    submission_checks: WorkerSubmissionChecks,
    preview: NewProjectionPreviewRecord,
    preview_checks: RecordChecks,
    result: NewProjectionResultRecord,
    result_checks: ProjectionResultChecks,
)
    ensures
        admit_object_spec(s, envelope, record, canonical_payload, checks).1 is Err
            ==> admit_object_spec(s, envelope, record, canonical_payload, checks).0 == s,
        append_log_entry_spec(s, envelope, log, canonical_payload, log_checks).1 is Err
            ==> append_log_entry_spec(s, envelope, log, canonical_payload, log_checks).0 == s,
        store_external_reference_spec(s, envelope, reference, canonical_payload, reference_checks).1 is Err
            ==> store_external_reference_spec(s, envelope, reference, canonical_payload, reference_checks).0 == s,
        persist_universe_state_spec(s, envelope, state_id, state_json, provenance_json, stored, canonical_payload, checks).1 is Err
            ==> persist_universe_state_spec(s, envelope, state_id, state_json, provenance_json, stored, canonical_payload, checks).0 == s,
        store_plan_spec(s, plan, plan_checks).1 is Err ==> store_plan_spec(s, plan, plan_checks).0 == s,
        store_calendar_spec(s, calendar, calendar_checks).1 is Err ==> store_calendar_spec(s, calendar, calendar_checks).0 == s,
        store_worker_submission_spec(s, submission, submission_checks).1 is Err
            ==> store_worker_submission_spec(s, submission, submission_checks).0 == s,
        store_projection_preview_spec(s, preview, preview_checks).1 is Err
            ==> store_projection_preview_spec(s, preview, preview_checks).0 == s,
        store_projection_result_spec(s, result, result_checks).1 is Err
            ==> store_projection_result_spec(s, result, result_checks).0 == s,
{
}

/// Canonical writers only append evidence: the ledger, the logs and the external
/// references before a call are prefixes of those after it. A call either changes
/// nothing, or appends exactly one ledger row recording the request's envelope and
/// canonical payload and naming what it wrote (an object with its version, or a
/// log entry or external reference with version zero).
pub proof fn canonical_writers_append_evidence(
    s: StoreView,
    envelope: MutationEnvelope,
    canonical_payload: String,
    record: NewObjectRecord,
    checks: ObjectChecks,
    log: NewLogRecord,
    log_checks: LogChecks,
    reference: NewExternalReferenceRecord,
    reference_checks: RecordChecks,
    state_id: String,
    state_json: String,
    provenance_json: String,
    stored: String,
)
    ensures
        ({
            let (s1, r1) = admit_object_spec(s, envelope, record, canonical_payload, checks);
            &&& s.ledger.is_prefix_of(s1.ledger) && s.logs == s1.logs && s.external_references == s1.external_references
            &&& s1 == s || (r1 is Ok && s1.ledger == s.ledger.push(ledger_row(envelope, canonical_payload, r1->Ok_0.id, r1->Ok_0.version)))
        }),
        ({
            let (s1, r1) = persist_universe_state_spec(s, envelope, state_id, state_json, provenance_json, stored, canonical_payload, checks);
            &&& s.ledger.is_prefix_of(s1.ledger) && s.logs == s1.logs && s.external_references == s1.external_references
            &&& s1 == s || (r1 is Ok && s1.ledger == s.ledger.push(ledger_row(envelope, canonical_payload, r1->Ok_0.id, r1->Ok_0.version)))
        }),
        ({
            let (s1, r1) = append_log_entry_spec(s, envelope, log, canonical_payload, log_checks);
            &&& s.ledger.is_prefix_of(s1.ledger) && s.logs.is_prefix_of(s1.logs) && s.external_references == s1.external_references
            &&& s.objects == s1.objects
            &&& s1 == s || (r1 is Ok && s1.logs == s.logs.push(r1->Ok_0)
                && s1.ledger == s.ledger.push(ledger_row(envelope, canonical_payload, r1->Ok_0.id, 0)))
        }),
        ({
            let (s1, r1) = store_external_reference_spec(s, envelope, reference, canonical_payload, reference_checks);
            &&& s.ledger.is_prefix_of(s1.ledger) && s.logs == s1.logs && s.external_references.is_prefix_of(s1.external_references)
            &&& s.objects == s1.objects
            &&& s1 == s || (r1 is Ok && s1.external_references == s.external_references.push(r1->Ok_0)
                && s1.ledger == s.ledger.push(ledger_row(envelope, canonical_payload, r1->Ok_0.id, 0)))
        }),
{
    assert forall|y| #[trigger] s.ledger.push(y).subrange(0, s.ledger.len() as int) =~= s.ledger by {}
    assert forall|y| #[trigger] s.logs.push(y).subrange(0, s.logs.len() as int) =~= s.logs by {}
    assert forall|y| #[trigger] s.external_references.push(y).subrange(0, s.external_references.len() as int)
        =~= s.external_references by {}
}

/// Replaying a log append is idempotent: once `append_log_entry` has answered a
/// request with an entry, the same envelope and canonical payload again answer that
/// entry and write nothing.
pub proof fn log_replay_is_idempotent(s: StoreView, envelope: MutationEnvelope, record: NewLogRecord, canonical_payload: String, checks: LogChecks, resent: NewLogRecord, resent_checks: LogChecks)
    requires
        s.wf(),
        append_log_entry_spec(s, envelope, record, canonical_payload, checks).1 is Ok,
    ensures
        ({
            let (s1, r1) = append_log_entry_spec(s, envelope, record, canonical_payload, checks);
            append_log_entry_spec(s1, envelope, resent, canonical_payload, resent_checks) == (s1, r1)
        }),
{
    if prepare_verdict(s, envelope, canonical_payload@, MutationTarget::Log) is Ok {
        if prepare_verdict(s, envelope, canonical_payload@, MutationTarget::Log)->Ok_0 is Fresh {
            let row = log_row_of(record);
            let lr = ledger_row(envelope, canonical_payload, row.id, 0);
            assert(ledger_key()(lr) == (envelope.origin_device_id@, envelope.idempotency_key@));
            lemma_push_fresh(s.ledger, ledger_key(), lr);
            lemma_push_fresh(s.logs, log_key(), row);
        }
    }
}

/// Replaying an external reference is idempotent: once `store_external_reference`
/// has answered a request with a reference, the same envelope and canonical
/// payload again answer that reference and write nothing.
pub proof fn reference_replay_is_idempotent(s: StoreView, envelope: MutationEnvelope, record: NewExternalReferenceRecord, canonical_payload: String, checks: RecordChecks, resent: NewExternalReferenceRecord, resent_checks: RecordChecks)
    requires
        s.wf(),
        store_external_reference_spec(s, envelope, record, canonical_payload, checks).1 is Ok,
    ensures
        ({
            let (s1, r1) = store_external_reference_spec(s, envelope, record, canonical_payload, checks);
            store_external_reference_spec(s1, envelope, resent, canonical_payload, resent_checks) == (s1, r1)
        }),
{
    if prepare_verdict(s, envelope, canonical_payload@, MutationTarget::ExternalReference) is Ok {
        if prepare_verdict(s, envelope, canonical_payload@, MutationTarget::ExternalReference)->Ok_0 is Fresh {
            let row = xref_row_of(record);
            let lr = ledger_row(envelope, canonical_payload, row.id, 0);
            assert(ledger_key()(lr) == (envelope.origin_device_id@, envelope.idempotency_key@));
            lemma_push_fresh(s.ledger, ledger_key(), lr);
            lemma_push_fresh(s.external_references, xref_key(), row);
        }
    }
}

/// The canonical tables (objects, logs, external references) are as before.
pub open spec fn keeps_canonical_state(old: StoreView, new: StoreView) -> bool {
    &&& new.objects == old.objects
    &&& new.logs == old.logs
    &&& new.external_references == old.external_references
}

/// Proposals are candidate state only: storing one never changes the canonical
/// tables, nor the decision events or suppression records.
pub proof fn proposals_stay_candidate_state(old: StoreView, new: StoreView, envelope: MutationEnvelope, candidate: AdvisoryCandidate, canonical_payload: String, validation: Result<(), CoreError>, r: Result<CandidateRecord, StoreError>)
    requires
        stores_candidate(old, new, envelope, candidate, canonical_payload, validation, r),
    ensures
        keeps_canonical_state(old, new),
        new.decision_events == old.decision_events,
        new.suppressions == old.suppressions,
{
}

/// Lifecycle decisions are candidate state only: a transition never changes the
/// canonical tables, and it only appends decision events.
pub proof fn transitions_stay_candidate_state(old: StoreView, new: StoreView, envelope: MutationEnvelope, id: Seq<char>, observed_version: u64, next: CandidateLifecycleState, trigger: Option<Seq<char>>, canonical_payload: String, decision: DecisionChecks, r: Result<CandidateRecord, StoreError>)
    requires
        transitions_candidate(old, new, envelope, id, observed_version, next, trigger, canonical_payload, decision, r),
    ensures
        keeps_canonical_state(old, new),
        old.decision_events.is_prefix_of(new.decision_events),
        new.suppressions == old.suppressions,
{
    assert forall|y| #[trigger] old.decision_events.push(y).subrange(0, old.decision_events.len() as int)
        =~= old.decision_events by {}
}

/// Rejection creates no proposed canonical state: it never changes the canonical
/// tables, and it only appends decision events and suppression records.
pub proof fn rejections_stay_candidate_state(old: StoreView, new: StoreView, envelope: MutationEnvelope, id: Seq<char>, observed_version: u64, supplied_key: Option<Seq<char>>, checks: RejectionChecks, canonical_payload: String, r: Result<CandidateRecord, StoreError>)
    requires
        rejects_candidate(old, new, envelope, id, observed_version, supplied_key, checks, canonical_payload, r),
    ensures
        keeps_canonical_state(old, new),
        old.decision_events.is_prefix_of(new.decision_events),
        old.suppressions.is_prefix_of(new.suppressions),
{
    assert forall|y| #[trigger] old.decision_events.push(y).subrange(0, old.decision_events.len() as int)
        =~= old.decision_events by {}
    assert forall|y| #[trigger] old.suppressions.push(y).subrange(0, old.suppressions.len() as int)
        =~= old.suppressions by {}
}

/// The only way from an advisory candidate to a canonical object is ordinary admission:
/// when `admit_advisory_candidate` writes, the objects and the ledger become what
/// `admit_object` with the same envelope, record, payload and checks would make
/// them, and the object it answers is the one `admit_object` would answer. Logs
/// and external references never change, and a refusal changes nothing.
pub proof fn candidate_admission_is_ordinary_admission(old: StoreView, new: StoreView, envelope: MutationEnvelope, id: Seq<char>, observed_version: u64, record: NewObjectRecord, canonical_payload: String, checks: ObjectChecks, decision: DecisionChecks, r: Result<(CandidateRecord, ObjectRecord), StoreError>)
    requires
        admits_candidate(old, new, envelope, id, observed_version, record, canonical_payload, checks, decision, r),
    ensures
        new.logs == old.logs,
        new.external_references == old.external_references,
        r is Err ==> new == old,
        new == old || ({
            let (admitted, answer) = admit_object_spec(old, envelope, record, canonical_payload, checks);
            &&& r matches Ok((_, o)) && answer == Ok::<ObjectRecord, StoreErrorView>(o)
            &&& new.objects == admitted.objects
            &&& new.ledger == admitted.ledger
        }),
{
}

/// A lifecycle decision advances the candidate by one version: a fresh transition
/// that succeeds answers the candidate at the observed version plus one, in the
/// requested state (never admitted or rejected, which have their own writers);
/// that row is then the candidate's current row, and one decision event records
/// the move from the state it observed, at the observed version.
pub proof fn transitions_advance_one_version(old: StoreView, new: StoreView, envelope: MutationEnvelope, id: Seq<char>, observed_version: u64, next: CandidateLifecycleState, trigger: Option<Seq<char>>, canonical_payload: String, decision: DecisionChecks, r: Result<CandidateRecord, StoreError>)
    requires
        old.wf(),
        old.recorded(envelope.origin_device_id@, envelope.idempotency_key@) is None,
        transitions_candidate(old, new, envelope, id, observed_version, next, trigger, canonical_payload, decision, r),
        r is Ok,
    ensures
        ({
            let row = r->Ok_0;
            let event = new.decision_events.last();
            &&& row.version == observed_version + 1
            &&& row.advisory_candidate_id@ == id
            &&& row.lifecycle_state@ == state_spelling(next)
            &&& next != CandidateLifecycleState::Admitted && next != CandidateLifecycleState::Rejected
            &&& find(new.candidates, candidate_key(), id) == Some(row)
            &&& new.decision_events == old.decision_events.push(event)
            &&& event.advisory_candidate_id@ == id
            &&& event.observed_candidate_version == observed_version
            &&& event.from_state@ == find(old.candidates, candidate_key(), id).unwrap().lifecycle_state@
            &&& event.to_state@ == state_spelling(next)
        }),
{
    lemma_found_has_key(old.candidates, candidate_key(), id);
    lemma_put_row(old.candidates, r->Ok_0);
}

/// Replaying a proposal is idempotent: once `store_advisory_candidate` has answered
/// a proposal (of version 1 or more), the same envelope, proposal and payload again
/// answer the same row and write nothing.
pub proof fn proposal_replay_is_idempotent(s: StoreView, s1: StoreView, s2: StoreView, envelope: MutationEnvelope, candidate: AdvisoryCandidate, canonical_payload: String, validation: Result<(), CoreError>, r1: Result<CandidateRecord, StoreError>, r2: Result<CandidateRecord, StoreError>)
    requires
        s.wf(),
        candidate.version >= 1,
        stores_candidate(s, s1, envelope, candidate, canonical_payload, validation, r1),
        r1 is Ok,
        stores_candidate(s1, s2, envelope, candidate, canonical_payload, validation, r2),
    ensures
        s2 == s1,
        r2 == r1,
{
    match store_candidate_outcome(s, envelope, candidate, canonical_payload@, validation) {
        CandidateOutcome::Stored(v) => {
            let row = r1->Ok_0;
            let lr = ledger_row(envelope, canonical_payload, row.advisory_candidate_id, (-row.version) as i64);
            assert(ledger_key()(lr) == (envelope.origin_device_id@, envelope.idempotency_key@));
            lemma_push_fresh(s.ledger, ledger_key(), lr);
            lemma_push_fresh(s.candidates, candidate_key(), row);
            assert(s1.recorded(envelope.origin_device_id@, envelope.idempotency_key@) == Some(lr));
            assert(lr.result_version < 0);
            assert(find(s1.candidates, candidate_key(), row.advisory_candidate_id@) == Some(row));
            assert(prepare_verdict(s1, envelope, canonical_payload@, MutationTarget::Candidate) == Ok::<Prepared, StoreErrorView>(Prepared::Replay(lr)));
        },
        _ => {},
    }
}

/// Replaying a lifecycle decision is idempotent: once a transition has answered a
/// request, the same envelope and payload again answer the same candidate row and
/// write nothing.
pub proof fn transition_replay_is_idempotent(s: StoreView, s1: StoreView, s2: StoreView, envelope: MutationEnvelope, id: Seq<char>, observed_version: u64, next: CandidateLifecycleState, trigger: Option<Seq<char>>, canonical_payload: String, decision: DecisionChecks, r1: Result<CandidateRecord, StoreError>, r2: Result<CandidateRecord, StoreError>)
    requires
        s.wf(),
        transitions_candidate(s, s1, envelope, id, observed_version, next, trigger, canonical_payload, decision, r1),
        r1 is Ok,
        transitions_candidate(s1, s2, envelope, id, observed_version, next, trigger, canonical_payload, decision, r2),
    ensures
        s2 == s1,
        r2 == r1,
{
    if s1 != s {
        let row = r1->Ok_0;
        let lr = ledger_row(envelope, canonical_payload, row.advisory_candidate_id, (-row.version) as i64);
        assert(ledger_key()(lr) == (envelope.origin_device_id@, envelope.idempotency_key@));
        lemma_push_fresh(s.ledger, ledger_key(), lr);
        lemma_found_has_key(s.candidates, candidate_key(), id);
        lemma_put_row(s.candidates, row);
    }
}

/// When the only objects whose versions no longer match are those of id `id`,
/// the first failing precondition from `i` on is the first entry for `id`.
proof fn lemma_first_stale_entry(s: StoreView, observed: Seq<(String, VersionRef)>, id: Seq<char>, i: int)
    requires
        0 <= i,
        forall|j: int| 0 <= j < observed.len() && observed[j].0@ != id
            ==> version_matches(observed[j].1, s.actual_version(observed[j].0@)),
        forall|j: int| 0 <= j < observed.len() && observed[j].0@ == id
            ==> !version_matches(observed[j].1, s.actual_version(observed[j].0@)),
        target_expectation_from(observed, id, i) is Some,
    ensures
        failed_precondition_from(s, observed, i) matches Some(j)
            && 0 <= j < observed.len()
            && observed[j].0@ == id
            && Some(observed[j].1) == target_expectation_from(observed, id, i),
    decreases observed.len() - i,
{
    if observed[i].0@ != id {
        lemma_first_stale_entry(s, observed, id, i + 1);
    }
}

/// Object-version preconditions stop lost updates: once `admit_object` has
/// written an object for a request, a second request with another key that
/// observed the same versions (so it had not seen that write) is refused: the
/// precondition on that object fails, naming the version it observed and the
/// version now current, and nothing is written.
pub proof fn stale_observation_is_refused(s: StoreView, envelope: MutationEnvelope, record: NewObjectRecord, canonical_payload: String, checks: ObjectChecks, later: MutationEnvelope, later_record: NewObjectRecord, later_payload: String, later_checks: ObjectChecks)
    requires
        s.wf(),
        s.recorded(envelope.origin_device_id@, envelope.idempotency_key@) is None,
        admit_object_spec(s, envelope, record, canonical_payload, checks).1 is Ok,
        later.validation is Ok,
        later.observed_versions@ == envelope.observed_versions@,
        (later.origin_device_id@, later.idempotency_key@) != (envelope.origin_device_id@, envelope.idempotency_key@),
        s.recorded(later.origin_device_id@, later.idempotency_key@) is None,
    ensures
        ({
            let (s1, r1) = admit_object_spec(s, envelope, record, canonical_payload, checks);
            admit_object_spec(s1, later, later_record, later_payload, later_checks) == (s1, Err::<ObjectRecord, StoreErrorView>(
                StoreErrorView::PreconditionFailed {
                    object_id: record.id@,
                    expected: expected_label(target_expectation(envelope.observed_versions@, record.id@).unwrap()),
                    actual: actual_label(Some(r1->Ok_0.version)),
                },
            ))
        }),
{
    let (s1, r1) = admit_object_spec(s, envelope, record, canonical_payload, checks);
    let row = r1->Ok_0;
    let observed = envelope.observed_versions@;
    admission_versions(s, envelope, record, canonical_payload, checks);
    admitted_object_is_current(s, envelope, record, canonical_payload, checks);
    lemma_preconditions_hold(s, observed);
    lemma_target_matches(s, observed, record.id@, 0);
    let lr = ledger_row(envelope, canonical_payload, row.id, row.version);
    assert(ledger_key()(lr) == (envelope.origin_device_id@, envelope.idempotency_key@));
    lemma_push_fresh(s.ledger, ledger_key(), lr);
    assert(s1.recorded(later.origin_device_id@, later.idempotency_key@) is None);
    assert forall|j: int| 0 <= j < observed.len() && observed[j].0@ == record.id@
        implies !version_matches(observed[j].1, s1.actual_version(observed[j].0@)) by {
        assert(version_matches(observed[j].1, s.actual_version(record.id@)));
    }
    lemma_first_stale_entry(s1, observed, record.id@, 0);
}

/// Derived artifacts, projection records and worker submissions are not
/// canonical writes: storing one changes no table but its own, which it only
/// appends to. In particular a worker submission never becomes a canonical object
/// by itself.
pub proof fn derived_writers_only_append_their_own_table(
    s: StoreView,
    plan: NewPlanRecord,
    plan_checks: RecordChecks,
    calendar: NewCalendarRecord,
    calendar_checks: CalendarChecks,
    submission: NewWorkerSubmissionRecord,
    submission_checks: WorkerSubmissionChecks,
    preview: NewProjectionPreviewRecord,
    preview_checks: RecordChecks,
    result: NewProjectionResultRecord,
    result_checks: ProjectionResultChecks,
)
    ensures
        ({
            let s1 = store_plan_spec(s, plan, plan_checks).0;
            s1 == (StoreView { plans: s1.plans, ..s }) && s.plans.is_prefix_of(s1.plans)
        }),
        ({
            let s1 = store_calendar_spec(s, calendar, calendar_checks).0;
            s1 == (StoreView { calendars: s1.calendars, ..s }) && s.calendars.is_prefix_of(s1.calendars)
        }),
        ({
            let s1 = store_worker_submission_spec(s, submission, submission_checks).0;
            s1 == (StoreView { worker_submissions: s1.worker_submissions, ..s })
                && s.worker_submissions.is_prefix_of(s1.worker_submissions)
        }),
        ({
            let s1 = store_projection_preview_spec(s, preview, preview_checks).0;
            s1 == (StoreView { projection_previews: s1.projection_previews, ..s })
                && s.projection_previews.is_prefix_of(s1.projection_previews)
        }),
        ({
            let s1 = store_projection_result_spec(s, result, result_checks).0;
            s1 == (StoreView { projection_results: s1.projection_results, ..s })
                && s.projection_results.is_prefix_of(s1.projection_results)
        }),
{
    assert forall|y| #[trigger] s.plans.push(y).subrange(0, s.plans.len() as int) =~= s.plans by {}
    assert forall|y| #[trigger] s.calendars.push(y).subrange(0, s.calendars.len() as int) =~= s.calendars by {}
    assert forall|y| #[trigger] s.worker_submissions.push(y).subrange(0, s.worker_submissions.len() as int)
        =~= s.worker_submissions by {}
    assert forall|y| #[trigger] s.projection_previews.push(y).subrange(0, s.projection_previews.len() as int)
        =~= s.projection_previews by {}
    assert forall|y| #[trigger] s.projection_results.push(y).subrange(0, s.projection_results.len() as int)
        =~= s.projection_results by {}
}

/// The history of an object (what `get_object_history` and `replay_state` read)
/// holds exactly the log entries whose object references match `%id%` under LIKE, as often
/// as the log holds them, oldest first: no entry on it is older than one placed
/// before it.
pub proof fn object_history_is_ordered(s: StoreView, id: Seq<char>)
    ensures
        forall|r: LogRecord| #[trigger] object_history(s, id).contains(r)
            <==> s.logs.contains(r) && like_contains(r.object_refs_json@, id),
        object_history(s, id).to_multiset()
            == keep(s.logs, |r: LogRecord| like_contains(r.object_refs_json@, id)).to_multiset(),
        ordered_by(object_history(s, id), order_of::<LogRecord, LogsOldestFirst>()),
{
    lemma_read_orders_strict();
    lemma_sorted_selection(s.logs, |r: LogRecord| like_contains(r.object_refs_json@, id), order_of::<LogRecord, LogsOldestFirst>());
}

/// The other admitted-state reads hold exactly the rows they select, as often as
/// the table holds them, in their order: active Tasks most recently updated
/// first, external references (of a source type, or all) newest first, and
/// recalculation requests newest first.
pub proof fn admitted_reads_are_ordered(s: StoreView, source_type: Option<Seq<char>>)
    ensures
        forall|r: ObjectRecord| #[trigger] active_tasks(s).contains(r)
            <==> s.objects.contains(r) && r.object_type@ == "Task"@ && r.status@ == "active"@,
        ordered_by(active_tasks(s), order_of::<ObjectRecord, ObjectsRecentFirst>()),
        forall|r: ExternalReferenceRecord| #[trigger] external_references_of(s, source_type).contains(r)
            <==> s.external_references.contains(r) && match source_type {
                Some(t) => r.source_type@ == t,
                None => true,
            },
        ordered_by(external_references_of(s, source_type), order_of::<ExternalReferenceRecord, ReferencesNewestFirst>()),
        forall|r: LogRecord| #[trigger] recalculation_trigger_logs(s).contains(r)
            <==> s.logs.contains(r) && r.event_type@ == "recalculation_requested"@,
        ordered_by(recalculation_trigger_logs(s), order_of::<LogRecord, LogsNewestFirst>()),
{
    lemma_read_orders_strict();
    lemma_sorted_selection(
        s.objects,
        |r: ObjectRecord| r.object_type@ == "Task"@ && r.status@ == "active"@,
        order_of::<ObjectRecord, ObjectsRecentFirst>(),
    );
    lemma_sorted_selection(
        s.external_references,
        |r: ExternalReferenceRecord| match source_type {
            Some(t) => r.source_type@ == t,
            None => true,
        },
        order_of::<ExternalReferenceRecord, ReferencesNewestFirst>(),
    );
    lemma_sorted_selection(
        s.logs,
        |r: LogRecord| r.event_type@ == "recalculation_requested"@,
        order_of::<LogRecord, LogsNewestFirst>(),
    );
}

/// The review surface (what `review_queue` reads) holds exactly the candidates
/// awaiting review (`proposed` or `resurfaced`), as often as the table holds them,
/// in review order: no candidate on it precedes one placed before it (an absent
/// review order first, then by review order, creation time and id).
pub proof fn review_surface_is_ordered(s: StoreView)
    ensures
        forall|c: CandidateRecord| #[trigger] review_surface(s).contains(c)
            <==> s.candidates.contains(c) && (c.lifecycle_state@ == "proposed"@ || c.lifecycle_state@ == "resurfaced"@),
        review_surface(s).to_multiset() == keep(
            s.candidates,
            |r: CandidateRecord| r.lifecycle_state@ == "proposed"@ || r.lifecycle_state@ == "resurfaced"@,
        ).to_multiset(),
        ordered_by(review_surface(s), order_of::<CandidateRecord, ReviewSurfaceOrder>()),
{
    lemma_candidate_orders_strict();
    lemma_sorted_selection(
        s.candidates,
        |r: CandidateRecord| r.lifecycle_state@ == "proposed"@ || r.lifecycle_state@ == "resurfaced"@,
        order_of::<CandidateRecord, ReviewSurfaceOrder>(),
    );
}

/// A candidate's decision history (what `list_candidate_decision_events` reads)
/// holds exactly its decision events, as often as the table holds them, in
/// decision order: by the candidate version each observed, then by event id,
/// whatever their timestamps.
pub proof fn decision_history_is_ordered(s: StoreView, id: Seq<char>)
    ensures
        forall|e: CandidateDecisionEvent| #[trigger] decision_history(s, id).contains(e)
            <==> s.decision_events.contains(e) && e.advisory_candidate_id@ == id,
        decision_history(s, id).to_multiset() == keep(s.decision_events, about_candidate(id)).to_multiset(),
        ordered_by(decision_history(s, id), order_of::<CandidateDecisionEvent, DecisionOrder>()),
{
    lemma_candidate_orders_strict();
    lemma_sorted_selection(s.decision_events, about_candidate(id), order_of::<CandidateDecisionEvent, DecisionOrder>());
}

/// Replaying a UniverseState update is idempotent: once `persist_universe_state`
/// has answered a request, the same envelope and canonical payload again answer
/// that same object, its current state, and write nothing.
pub proof fn universe_state_replay_is_idempotent(s: StoreView, envelope: MutationEnvelope, state_id: String, state_json: String, provenance_json: String, stored: String, canonical_payload: String, checks: ObjectChecks, resent_state_json: String, resent_provenance_json: String, resent_stored: String, resent_checks: ObjectChecks)
    requires
        s.wf(),
        persist_universe_state_spec(s, envelope, state_id, state_json, provenance_json, stored, canonical_payload, checks).1 is Ok,
    ensures
        ({
            let (s1, r1) = persist_universe_state_spec(s, envelope, state_id, state_json, provenance_json, stored, canonical_payload, checks);
            persist_universe_state_spec(s1, envelope, state_id, resent_state_json, resent_provenance_json, resent_stored, canonical_payload, resent_checks) == (s1, r1)
        }),
{
    match prepare_verdict(s, envelope, canonical_payload@, MutationTarget::Object) {
        Ok(Prepared::Fresh) => {
            let row = persist_universe_state_spec(s, envelope, state_id, state_json, provenance_json, stored, canonical_payload, checks).1->Ok_0;
            let lr = ledger_row(envelope, canonical_payload, row.id, row.version);
            assert(ledger_key()(lr) == (envelope.origin_device_id@, envelope.idempotency_key@));
            lemma_push_fresh(s.ledger, ledger_key(), lr);
            lemma_put_object(s.objects, row);
        },
        _ => {},
    }
}

/// Replaying a rejection is idempotent: once `reject_advisory_candidate` has
/// answered a request, the same envelope and payload again answer the same
/// candidate row and write nothing.
pub proof fn rejection_replay_is_idempotent(s: StoreView, s1: StoreView, s2: StoreView, envelope: MutationEnvelope, id: Seq<char>, observed_version: u64, supplied_key: Option<Seq<char>>, checks: RejectionChecks, canonical_payload: String, r1: Result<CandidateRecord, StoreError>, r2: Result<CandidateRecord, StoreError>)
    requires
        s.wf(),
        rejects_candidate(s, s1, envelope, id, observed_version, supplied_key, checks, canonical_payload, r1),
        r1 is Ok,
        rejects_candidate(s1, s2, envelope, id, observed_version, supplied_key, checks, canonical_payload, r2),
    ensures
        s2 == s1,
        r2 == r1,
{
    if s1 != s {
        let row = r1->Ok_0;
        let lr = ledger_row(envelope, canonical_payload, row.advisory_candidate_id, (-row.version) as i64);
        assert(ledger_key()(lr) == (envelope.origin_device_id@, envelope.idempotency_key@));
        lemma_push_fresh(s.ledger, ledger_key(), lr);
        lemma_found_has_key(s.candidates, candidate_key(), id);
        lemma_put_row(s.candidates, row);
    }
}

/// Replaying a candidate admission is idempotent: once `admit_advisory_candidate`
/// has admitted a candidate, the same request again answers the same candidate row
/// and object (the recorded admission event links them) and writes nothing.
pub proof fn candidate_admission_replay_is_idempotent(s: StoreView, s1: StoreView, s2: StoreView, envelope: MutationEnvelope, id: Seq<char>, observed_version: u64, record: NewObjectRecord, canonical_payload: String, checks: ObjectChecks, decision: DecisionChecks, r1: Result<(CandidateRecord, ObjectRecord), StoreError>, r2: Result<(CandidateRecord, ObjectRecord), StoreError>)
    requires
        s.wf(),
        admits_candidate(s, s1, envelope, id, observed_version, record, canonical_payload, checks, decision, r1),
        r1 is Ok,
        admits_candidate(s1, s2, envelope, id, observed_version, record, canonical_payload, checks, decision, r2),
    ensures
        s2 == s1,
        r2 == r1,
{
    match admit_candidate_outcome(s, envelope, id, observed_version, record, canonical_payload, checks, decision) {
        CandidateAdmission::Admitted(object, cv, ev) => {
            let (row, o) = r1->Ok_0;
            let admitted = with_admitted(s, envelope, canonical_payload, object);
            let lr = ledger_row(envelope, canonical_payload, object.id, object.version);
            assert(ledger_key()(lr) == (envelope.origin_device_id@, envelope.idempotency_key@));
            lemma_push_fresh(s.ledger, ledger_key(), lr);
            lemma_put_object(s.objects, object);
            assert(object.version >= 1) by {
                match target_expectation(envelope.observed_versions@, record.id@) {
                    Some(VersionRef::Version(v)) => {},
                    _ => {},
                }
            }
            let event = s1.decision_events.last();
            assert(event_key()(event) == decision_id_of(envelope));
            lemma_push_fresh(s.decision_events, event_key(), event);
            lemma_found_has_key(s.candidates, candidate_key(), id);
            lemma_put_row(admitted.candidates, row);
            assert(find(s1.candidates, candidate_key(), id) == Some(row));
            assert(s1.object(object.id@) == Some(object));
        },
        _ => {},
    }
}

/// Candidate-only requests stay out of the canonical ledger view: after a proposal
/// (of version 1 or more) is stored, its request is recorded, but
/// `get_recorded_mutation` finds nothing under its key.
pub proof fn proposals_stay_out_of_the_canonical_ledger_view(old: StoreView, new: StoreView, envelope: MutationEnvelope, candidate: AdvisoryCandidate, canonical_payload: String, validation: Result<(), CoreError>, r: Result<CandidateRecord, StoreError>)
    requires
        old.wf(),
        candidate.version >= 1,
        old.recorded(envelope.origin_device_id@, envelope.idempotency_key@) is None,
        stores_candidate(old, new, envelope, candidate, canonical_payload, validation, r),
        r is Ok,
    ensures
        new.recorded(envelope.origin_device_id@, envelope.idempotency_key@) is Some,
        canonical_recorded(new, envelope.origin_device_id@, envelope.idempotency_key@) is None,
{
    let row = r->Ok_0;
    let lr = ledger_row(envelope, canonical_payload, row.advisory_candidate_id, (-row.version) as i64);
    assert(ledger_key()(lr) == (envelope.origin_device_id@, envelope.idempotency_key@));
    lemma_push_fresh(old.ledger, ledger_key(), lr);
}

/// Lifecycle decisions stay out of the canonical ledger view: after a transition
/// is written, its request is recorded, but `get_recorded_mutation` finds nothing
/// under its key.
pub proof fn transitions_stay_out_of_the_canonical_ledger_view(old: StoreView, new: StoreView, envelope: MutationEnvelope, id: Seq<char>, observed_version: u64, next: CandidateLifecycleState, trigger: Option<Seq<char>>, canonical_payload: String, decision: DecisionChecks, r: Result<CandidateRecord, StoreError>)
    requires
        old.wf(),
        old.recorded(envelope.origin_device_id@, envelope.idempotency_key@) is None,
        transitions_candidate(old, new, envelope, id, observed_version, next, trigger, canonical_payload, decision, r),
        r is Ok,
    ensures
        new.recorded(envelope.origin_device_id@, envelope.idempotency_key@) is Some,
        canonical_recorded(new, envelope.origin_device_id@, envelope.idempotency_key@) is None,
{
    let row = r->Ok_0;
    let lr = ledger_row(envelope, canonical_payload, row.advisory_candidate_id, (-row.version) as i64);
    assert(ledger_key()(lr) == (envelope.origin_device_id@, envelope.idempotency_key@));
    lemma_push_fresh(old.ledger, ledger_key(), lr);
}

/// Rejections stay out of the canonical ledger view: after a rejection is
/// written, its request is recorded, but `get_recorded_mutation` finds nothing
/// under its key.
pub proof fn rejections_stay_out_of_the_canonical_ledger_view(old: StoreView, new: StoreView, envelope: MutationEnvelope, id: Seq<char>, observed_version: u64, supplied_key: Option<Seq<char>>, checks: RejectionChecks, canonical_payload: String, r: Result<CandidateRecord, StoreError>)
    requires
        old.wf(),
        old.recorded(envelope.origin_device_id@, envelope.idempotency_key@) is None,
        rejects_candidate(old, new, envelope, id, observed_version, supplied_key, checks, canonical_payload, r),
        r is Ok,
    ensures
        new.recorded(envelope.origin_device_id@, envelope.idempotency_key@) is Some,
        canonical_recorded(new, envelope.origin_device_id@, envelope.idempotency_key@) is None,
{
    let row = r->Ok_0;
    let lr = ledger_row(envelope, canonical_payload, row.advisory_candidate_id, (-row.version) as i64);
    assert(ledger_key()(lr) == (envelope.origin_device_id@, envelope.idempotency_key@));
    lemma_push_fresh(old.ledger, ledger_key(), lr);
}

/// Idempotency keys are scoped by Device: once `admit_object` has recorded a
/// request, a request with the same key from another Device finds nothing recorded
/// under its own key: it is neither a replay nor a conflict but decided as a fresh
/// request (envelope validation, then its preconditions), and when it is admitted both
/// requests stand recorded, each under its own Device, two rows more than before.
pub proof fn equal_keys_on_other_devices_are_independent(
    s: StoreView,
    first: MutationEnvelope,
    record: NewObjectRecord,
    canonical_payload: String,
    checks: ObjectChecks,
    second: MutationEnvelope,
    second_record: NewObjectRecord,
    second_payload: String,
    second_checks: ObjectChecks,
)
    requires
        s.wf(),
        s.recorded(first.origin_device_id@, first.idempotency_key@) is None,
        s.recorded(second.origin_device_id@, second.idempotency_key@) is None,
        admit_object_spec(s, first, record, canonical_payload, checks).1 is Ok,
        second.idempotency_key@ == first.idempotency_key@,
        second.origin_device_id@ != first.origin_device_id@,
    ensures
        ({
            let s1 = admit_object_spec(s, first, record, canonical_payload, checks).0;
            let (s2, r2) = admit_object_spec(s1, second, second_record, second_payload, second_checks);
            &&& s1.recorded(second.origin_device_id@, second.idempotency_key@) is None
            &&& prepare_verdict(s1, second, second_payload@, MutationTarget::Object) == match second.validation {
                Err(e) => Err(StoreErrorView::Core(e@)),
                Ok(_) => match preconditions_verdict(s1, second.observed_versions@) {
                    Err(e) => Err(e),
                    Ok(_) => Ok::<Prepared, StoreErrorView>(Prepared::Fresh),
                },
            }
            &&& r2 is Ok ==> {
                &&& s2.recorded(first.origin_device_id@, first.idempotency_key@) is Some
                &&& s2.recorded(second.origin_device_id@, second.idempotency_key@) is Some
                &&& s2.ledger.len() == s.ledger.len() + 2
            }
        }),
{
    let (s1, r1) = admit_object_spec(s, first, record, canonical_payload, checks);
    let row = r1->Ok_0;
    let lr = ledger_row(first, canonical_payload, row.id, row.version);
    assert(ledger_key()(lr) == (first.origin_device_id@, first.idempotency_key@));
    lemma_push_fresh(s.ledger, ledger_key(), lr);
    lemma_admission_recorded(s, first, record, canonical_payload, checks);
    assert(prepare_verdict(s, first, canonical_payload@, MutationTarget::Object) is Ok);
    assert(s1.ledger == s.ledger.push(lr));
    assert(s1.recorded(second.origin_device_id@, second.idempotency_key@) is None);
    let (s2, r2) = admit_object_spec(s1, second, second_record, second_payload, second_checks);
    if r2 is Ok {
        let row2 = r2->Ok_0;
        let lr2 = ledger_row(second, second_payload, row2.id, row2.version);
        assert(ledger_key()(lr2) == (second.origin_device_id@, second.idempotency_key@));
        assert(s2.ledger == s1.ledger.push(lr2));
        lemma_push_fresh(s1.ledger, ledger_key(), lr2);
        assert(s2.recorded(first.origin_device_id@, first.idempotency_key@) is Some);
        assert(s2.recorded(second.origin_device_id@, second.idempotency_key@) is Some);
    }
}

/// Decision ids are retry-stable and collision-free: two requests get the same
/// decision event id exactly when they come from the same Device with the same
/// idempotency key.
pub proof fn decision_ids_identify_requests(first: MutationEnvelope, second: MutationEnvelope)
    ensures
        decision_id_of(first) == decision_id_of(second) <==> (first.origin_device_id@ == second.origin_device_id@
            && first.idempotency_key@ == second.idempotency_key@),
{
    let prefix = "canddec:"@;
    let x = json_string_pair(first.origin_device_id@, first.idempotency_key@);
    let y = json_string_pair(second.origin_device_id@, second.idempotency_key@);
    if decision_id_of(first) == decision_id_of(second) {
        assert(x =~= (prefix + x).subrange(prefix.len() as int, (prefix + x).len() as int));
        assert(y =~= (prefix + y).subrange(prefix.len() as int, (prefix + y).len() as int));
        lemma_json_string_pair_injective(first.origin_device_id@, first.idempotency_key@, second.origin_device_id@, second.idempotency_key@);
    }
}

} // verus!
