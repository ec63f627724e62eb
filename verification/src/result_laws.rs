//! Laws on what the store's operations answer and write, stated over their
//! inputs and results: which records the admission rules refuse, what a written
//! row holds, what the ledger view finds after a write, and in what order each
//! read lists its rows.

use vstd::prelude::*;

use crate::admission::{
    authority_source_verdict, canonical_payload_verdict, compartment_metadata_verdict, declared_name, id_for_type_verdict,
    object_record_verdict, payload_lifecycle_verdict, provenance_verdict, task_lifecycle_verdict, type_named, ObjectChecks, ObjectType,
};
use crate::envelope::MutationEnvelope;
use crate::json::{json_member_present, json_object_doc, json_str_member_of};
use crate::laws::{admission_versions, admitted_reads_are_ordered, decision_history_is_ordered, object_history_is_ordered, review_surface_is_ordered};
use crate::models::external_reference_record::NewExternalReferenceRecord;
use crate::models::log_record::NewLogRecord;
use crate::models::object_record::NewObjectRecord;
use crate::queries::{
    active_tasks, admission_plan, admit_object_spec, append_log_entry_spec, canonical_recorded, external_references_of, object_history,
    recalculation_trigger_logs, store_calendar_spec, store_external_reference_spec, store_plan_spec,
    store_projection_preview_spec, store_projection_result_spec, store_worker_submission_spec, CalendarChecks, LogChecks,
    ProjectionResultChecks, RecordChecks, WorkerSubmissionChecks,
};
use crate::candidates::{
    admits_candidate, decided_payload, decision_history, decision_id_of, decision_verdict, link_update, observed_candidate_verdict,
    rejection_key, rejects_candidate, review_surface, stores_candidate, transitions_candidate, AdvisoryCandidate, DecisionChecks,
    RejectionChecks,
};
use crate::errors::{CoreError, StoreError};
use crate::json::{json_doc_with_integer, json_doc_with_link, json_doc_with_text, json_link_of};
use crate::models::candidate_record::{opt_text, state_spelling, CandidateLifecycleState, CandidateRecord};
use crate::models::object_record::ObjectRecord;
use crate::store::{candidate_key, find, has_key, ledger_key, lemma_found_has_key, lemma_push_fresh, StoreView};
use crate::models::calendar_record::NewCalendarRecord;
use crate::models::plan_record::NewPlanRecord;
use crate::models::projection_record::{NewProjectionPreviewRecord, NewProjectionResultRecord};
use crate::models::worker_submission_record::NewWorkerSubmissionRecord;
use crate::text::{fold_code, like_contains, like_match, text_less};

verus! {

/// The object types whose payload must carry provenance.
pub open spec fn needs_provenance(object_type: Seq<char>) -> bool {
    object_type == "Task"@ || object_type == "Objective"@ || object_type == "ExternalReference"@
}

/// The admission rules refuse every Task, Objective or ExternalReference whose
/// payload has no `provenance` member, whatever the core crate said of its parts.
pub proof fn provenance_is_required(record: NewObjectRecord, checks: ObjectChecks)
    requires
        record.object_type@ == "Task"@ || record.object_type@ == "Objective"@
            || record.object_type@ == "ExternalReference"@,
        !json_member_present(record.payload@, "provenance"@),
    ensures
        object_record_verdict(record@, checks) is Err,
{
    reveal_strlit("Task");
    reveal_strlit("Objective");
    reveal_strlit("ExternalReference");
    let r = record@;
    if object_record_verdict(r, checks) is Ok {
        assert(canonical_payload_verdict(r, checks) is Ok);
        assert(json_object_doc(r.payload));
        assert(json_str_member_of(r.payload, "id"@) is Some);
        assert(id_for_type_verdict(checks.payload_id_type, r.object_type) is Ok);
        assert("Objective"@.len() == 9 && "Task"@.len() == 4 && "ExternalReference"@.len() == 17);
        if r.object_type == "Task"@ {
            assert(type_named(r.object_type) == Some(ObjectType::Task));
        } else if r.object_type == "Objective"@ {
            assert("Objective"@ != "Task"@);
            assert(type_named(r.object_type) == Some(ObjectType::Objective));
        } else {
            assert("ExternalReference"@ != "Task"@);
            assert("ExternalReference"@ != "Objective"@);
            reveal_strlit("Plan");
            reveal_strlit("LogEntry");
            assert("Plan"@.len() == 4 && "LogEntry"@.len() == 8);
            assert("ExternalReference"@ != "Plan"@);
            assert("ExternalReference"@ != "LogEntry"@);
            assert(type_named(r.object_type) == Some(ObjectType::ExternalReference));
        }
        let t = type_named(r.object_type).unwrap();
        assert(t == ObjectType::Task || t == ObjectType::Objective || t == ObjectType::ExternalReference);
        assert(provenance_verdict(t, r.payload, checks) is Err);
        assert(false);
    }
}

/// A type's declared name denotes that type.
proof fn lemma_type_name(t: ObjectType)
    ensures
        type_named(declared_name(t)) == Some(t),
{
    reveal_strlit("Task");
    reveal_strlit("Objective");
    reveal_strlit("Plan");
    reveal_strlit("LogEntry");
    reveal_strlit("ExternalReference");
    reveal_strlit("Compartment");
    reveal_strlit("Snapshot");
    reveal_strlit("AutomationWorker");
    reveal_strlit("ProjectionPreview");
    reveal_strlit("Calendar");
    reveal_strlit("Preference");
    reveal_strlit("Container");
    reveal_strlit("UniverseState");
    reveal_strlit("Identity");
    reveal_strlit("Relationship");
    reveal_strlit("ExternalEvent");
    match t {
        ObjectType::Task => {

        },
        ObjectType::Objective => {
            assert("Objective"@.len() != "Task"@.len());
        },
        ObjectType::Plan => {
            assert("Plan"@[0] != "Task"@[0]);
            assert("Plan"@.len() != "Objective"@.len());
        },
        ObjectType::LogEntry => {
            assert("LogEntry"@.len() != "Task"@.len());
            assert("LogEntry"@.len() != "Objective"@.len());
            assert("LogEntry"@.len() != "Plan"@.len());
        },
        ObjectType::ExternalReference => {
            assert("ExternalReference"@.len() != "Task"@.len());
            assert("ExternalReference"@.len() != "Objective"@.len());
            assert("ExternalReference"@.len() != "Plan"@.len());
            assert("ExternalReference"@.len() != "LogEntry"@.len());
        },
        ObjectType::Compartment => {
            assert("Compartment"@.len() != "Task"@.len());
            assert("Compartment"@.len() != "Objective"@.len());
            assert("Compartment"@.len() != "Plan"@.len());
            assert("Compartment"@.len() != "LogEntry"@.len());
            assert("Compartment"@.len() != "ExternalReference"@.len());
        },
        ObjectType::Snapshot => {
            assert("Snapshot"@.len() != "Task"@.len());
            assert("Snapshot"@.len() != "Objective"@.len());
            assert("Snapshot"@.len() != "Plan"@.len());
            assert("Snapshot"@[0] != "LogEntry"@[0]);
            assert("Snapshot"@.len() != "ExternalReference"@.len());
            assert("Snapshot"@.len() != "Compartment"@.len());
        },
        ObjectType::AutomationWorker => {
            assert("AutomationWorker"@.len() != "Task"@.len());
            assert("AutomationWorker"@.len() != "Objective"@.len());
            assert("AutomationWorker"@.len() != "Plan"@.len());
            assert("AutomationWorker"@.len() != "LogEntry"@.len());
            assert("AutomationWorker"@.len() != "ExternalReference"@.len());
            assert("AutomationWorker"@.len() != "Compartment"@.len());
            assert("AutomationWorker"@.len() != "Snapshot"@.len());
        },
        ObjectType::ProjectionPreview => {
            assert("ProjectionPreview"@.len() != "Task"@.len());
            assert("ProjectionPreview"@.len() != "Objective"@.len());
            assert("ProjectionPreview"@.len() != "Plan"@.len());
            assert("ProjectionPreview"@.len() != "LogEntry"@.len());
            assert("ProjectionPreview"@[0] != "ExternalReference"@[0]);
            assert("ProjectionPreview"@.len() != "Compartment"@.len());
            assert("ProjectionPreview"@.len() != "Snapshot"@.len());
            assert("ProjectionPreview"@.len() != "AutomationWorker"@.len());
        },
        ObjectType::Calendar => {
            assert("Calendar"@.len() != "Task"@.len());
            assert("Calendar"@.len() != "Objective"@.len());
            assert("Calendar"@.len() != "Plan"@.len());
            assert("Calendar"@[0] != "LogEntry"@[0]);
            assert("Calendar"@.len() != "ExternalReference"@.len());
            assert("Calendar"@.len() != "Compartment"@.len());
            assert("Calendar"@[0] != "Snapshot"@[0]);
            assert("Calendar"@.len() != "AutomationWorker"@.len());
            assert("Calendar"@.len() != "ProjectionPreview"@.len());
        },
        ObjectType::Preference => {
            assert("Preference"@.len() != "Task"@.len());
            assert("Preference"@.len() != "Objective"@.len());
            assert("Preference"@.len() != "Plan"@.len());
            assert("Preference"@.len() != "LogEntry"@.len());
            assert("Preference"@.len() != "ExternalReference"@.len());
            assert("Preference"@.len() != "Compartment"@.len());
            assert("Preference"@.len() != "Snapshot"@.len());
            assert("Preference"@.len() != "AutomationWorker"@.len());
            assert("Preference"@.len() != "ProjectionPreview"@.len());
            assert("Preference"@.len() != "Calendar"@.len());
        },
        ObjectType::Container => {
            assert("Container"@.len() != "Task"@.len());
            assert("Container"@[0] != "Objective"@[0]);
            assert("Container"@.len() != "Plan"@.len());
            assert("Container"@.len() != "LogEntry"@.len());
            assert("Container"@.len() != "ExternalReference"@.len());
            assert("Container"@.len() != "Compartment"@.len());
            assert("Container"@.len() != "Snapshot"@.len());
            assert("Container"@.len() != "AutomationWorker"@.len());
            assert("Container"@.len() != "ProjectionPreview"@.len());
            assert("Container"@.len() != "Calendar"@.len());
            assert("Container"@.len() != "Preference"@.len());
        },
        ObjectType::UniverseState => {
            assert("UniverseState"@.len() != "Task"@.len());
            assert("UniverseState"@.len() != "Objective"@.len());
            assert("UniverseState"@.len() != "Plan"@.len());
            assert("UniverseState"@.len() != "LogEntry"@.len());
            assert("UniverseState"@.len() != "ExternalReference"@.len());
            assert("UniverseState"@.len() != "Compartment"@.len());
            assert("UniverseState"@.len() != "Snapshot"@.len());
            assert("UniverseState"@.len() != "AutomationWorker"@.len());
            assert("UniverseState"@.len() != "ProjectionPreview"@.len());
            assert("UniverseState"@.len() != "Calendar"@.len());
            assert("UniverseState"@.len() != "Preference"@.len());
            assert("UniverseState"@.len() != "Container"@.len());
        },
        ObjectType::Identity => {
            assert("Identity"@.len() != "Task"@.len());
            assert("Identity"@.len() != "Objective"@.len());
            assert("Identity"@.len() != "Plan"@.len());
            assert("Identity"@[0] != "LogEntry"@[0]);
            assert("Identity"@.len() != "ExternalReference"@.len());
            assert("Identity"@.len() != "Compartment"@.len());
            assert("Identity"@[0] != "Snapshot"@[0]);
            assert("Identity"@.len() != "AutomationWorker"@.len());
            assert("Identity"@.len() != "ProjectionPreview"@.len());
            assert("Identity"@[0] != "Calendar"@[0]);
            assert("Identity"@.len() != "Preference"@.len());
            assert("Identity"@.len() != "Container"@.len());
            assert("Identity"@.len() != "UniverseState"@.len());
        },
        ObjectType::Relationship => {
            assert("Relationship"@.len() != "Task"@.len());
            assert("Relationship"@.len() != "Objective"@.len());
            assert("Relationship"@.len() != "Plan"@.len());
            assert("Relationship"@.len() != "LogEntry"@.len());
            assert("Relationship"@.len() != "ExternalReference"@.len());
            assert("Relationship"@.len() != "Compartment"@.len());
            assert("Relationship"@.len() != "Snapshot"@.len());
            assert("Relationship"@.len() != "AutomationWorker"@.len());
            assert("Relationship"@.len() != "ProjectionPreview"@.len());
            assert("Relationship"@.len() != "Calendar"@.len());
            assert("Relationship"@.len() != "Preference"@.len());
            assert("Relationship"@.len() != "Container"@.len());
            assert("Relationship"@.len() != "UniverseState"@.len());
            assert("Relationship"@.len() != "Identity"@.len());
        },
        ObjectType::ExternalEvent => {
            assert("ExternalEvent"@.len() != "Task"@.len());
            assert("ExternalEvent"@.len() != "Objective"@.len());
            assert("ExternalEvent"@.len() != "Plan"@.len());
            assert("ExternalEvent"@.len() != "LogEntry"@.len());
            assert("ExternalEvent"@.len() != "ExternalReference"@.len());
            assert("ExternalEvent"@.len() != "Compartment"@.len());
            assert("ExternalEvent"@.len() != "Snapshot"@.len());
            assert("ExternalEvent"@.len() != "AutomationWorker"@.len());
            assert("ExternalEvent"@.len() != "ProjectionPreview"@.len());
            assert("ExternalEvent"@.len() != "Calendar"@.len());
            assert("ExternalEvent"@.len() != "Preference"@.len());
            assert("ExternalEvent"@.len() != "Container"@.len());
            assert("ExternalEvent"@[0] != "UniverseState"@[0]);
            assert("ExternalEvent"@.len() != "Identity"@.len());
            assert("ExternalEvent"@.len() != "Relationship"@.len());
        },
    }
}

/// Each object type's declared name denotes that type.
pub proof fn lemma_type_names()
    ensures
        forall|t: ObjectType| #[trigger] type_named(declared_name(t)) == Some(t),
{
    assert forall|t: ObjectType| #[trigger] type_named(declared_name(t)) == Some(t) by {
        lemma_type_name(t);
    }
}

/// What every record the admission rules accept satisfies: its id matches its
/// declared type and the core parsed its label and timestamps; its version is
/// positive; its payload is a JSON object whose `id` is the record id; a Task has
/// a canonical status (none of `canceled`, `ready`, `in_progress`, `proposed`,
/// `blocked`) repeated as the payload's `status`, and a `moot_reason_code` exactly
/// when its status is `moot`; Tasks, Objectives and ExternalReferences carry
/// provenance, which reads as a core Provenance wherever present; LogEntries and
/// Preferences carry an `authority_source`, and Compartments a `label` that parses.
pub proof fn accepted_records_meet_the_admission_rules(record: NewObjectRecord, checks: ObjectChecks)
    requires
        object_record_verdict(record@, checks) is Ok,
    ensures
        checks.id_type is Ok && type_named(record.object_type@) == Some(checks.id_type->Ok_0),
        checks.compartment_label is Ok && checks.created_at is Ok && checks.updated_at is Ok,
        record.version >= 1,
        json_object_doc(record.payload@),
        json_str_member_of(record.payload@, "id"@) == Some(record.id@),
        record.object_type@ == "Task"@ ==> {
            &&& record.status@ != "canceled"@ && record.status@ != "ready"@ && record.status@ != "in_progress"@
                && record.status@ != "proposed"@ && record.status@ != "blocked"@
            &&& json_str_member_of(record.payload@, "status"@) == Some(record.status@)
            &&& checks.task_status_is_moot is Ok
            &&& (checks.task_status_is_moot->Ok_0 <==> json_member_present(record.payload@, "moot_reason_code"@))
        },
        (record.object_type@ == "Task"@ || record.object_type@ == "Objective"@ || record.object_type@ == "ExternalReference"@)
            ==> json_member_present(record.payload@, "provenance"@),
        json_member_present(record.payload@, "provenance"@) ==> checks.provenance is Ok,
        (record.object_type@ == "LogEntry"@ || record.object_type@ == "Preference"@)
            ==> json_str_member_of(record.payload@, "authority_source"@) is Some && checks.authority_source is Ok,
        record.object_type@ == "Compartment"@
            ==> json_str_member_of(record.payload@, "label"@) is Some && checks.payload_label is Ok,
{
    lemma_type_names();
    let r = record@;
    assert(canonical_payload_verdict(r, checks) is Ok);
    assert(id_for_type_verdict(checks.id_type, r.object_type) is Ok);
    let t = type_named(r.object_type).unwrap();
    assert(type_named(declared_name(ObjectType::Task)) == Some(ObjectType::Task));
    assert(type_named(declared_name(ObjectType::Objective)) == Some(ObjectType::Objective));
    assert(type_named(declared_name(ObjectType::ExternalReference)) == Some(ObjectType::ExternalReference));
    assert(type_named(declared_name(ObjectType::LogEntry)) == Some(ObjectType::LogEntry));
    assert(type_named(declared_name(ObjectType::Preference)) == Some(ObjectType::Preference));
    assert(type_named(declared_name(ObjectType::Compartment)) == Some(ObjectType::Compartment));
    assert(provenance_verdict(t, r.payload, checks) is Ok);
    assert(authority_source_verdict(t, r.payload, checks) is Ok);
    assert(compartment_metadata_verdict(t, r.payload, checks) is Ok);
    assert(task_lifecycle_verdict(r, checks) is Ok);
    assert(payload_lifecycle_verdict(r) is Ok);
}

/// A fresh admission of a Task, Objective or ExternalReference succeeds only
/// with a `provenance` member in the payload, and the admitted object holds that
/// payload.
pub proof fn admitted_objects_carry_required_provenance(s: StoreView, envelope: MutationEnvelope, record: NewObjectRecord, canonical_payload: String, checks: ObjectChecks)
    requires
        s.wf(),
        s.recorded(envelope.origin_device_id@, envelope.idempotency_key@) is None,
        admit_object_spec(s, envelope, record, canonical_payload, checks).1 is Ok,
        record.object_type@ == "Task"@ || record.object_type@ == "Objective"@
            || record.object_type@ == "ExternalReference"@,
    ensures
        json_member_present(record.payload@, "provenance"@),
        admit_object_spec(s, envelope, record, canonical_payload, checks).1->Ok_0.payload_json == record.payload,
{
    if !json_member_present(record.payload@, "provenance"@) {
        provenance_is_required(record, checks);
    }
}

/// A fresh log append answers and appends exactly the submitted entry, field by
/// field, and records the request in the ledger.
pub proof fn appended_log_entry_is_the_record(s: StoreView, envelope: MutationEnvelope, record: NewLogRecord, canonical_payload: String, checks: LogChecks)
    requires
        s.wf(),
        s.recorded(envelope.origin_device_id@, envelope.idempotency_key@) is None,
        append_log_entry_spec(s, envelope, record, canonical_payload, checks).1 is Ok,
    ensures
        ({
            let (s1, r) = append_log_entry_spec(s, envelope, record, canonical_payload, checks);
            let row = r->Ok_0;
            &&& row.id == record.id
            &&& row.event_type == record.event_type
            &&& row.object_refs_json == record.object_refs
            &&& row.payload_json == record.payload
            &&& row.provenance_json == record.provenance
            &&& row.created_at == record.created_at
            &&& s1.logs == s.logs.push(row)
        }),
{
}

/// A fresh external reference answers and appends exactly the submitted
/// reference, field by field.
pub proof fn stored_reference_is_the_record(s: StoreView, envelope: MutationEnvelope, record: NewExternalReferenceRecord, canonical_payload: String, checks: RecordChecks)
    requires
        s.wf(),
        s.recorded(envelope.origin_device_id@, envelope.idempotency_key@) is None,
        store_external_reference_spec(s, envelope, record, canonical_payload, checks).1 is Ok,
    ensures
        ({
            let (s1, r) = store_external_reference_spec(s, envelope, record, canonical_payload, checks);
            let row = r->Ok_0;
            &&& row.id == record.id
            &&& row.source_type == record.source_type
            &&& row.source_id == record.source_id
            &&& row.url == record.url
            &&& row.payload_hash == record.payload_hash
            &&& row.payload_json == record.payload
            &&& row.created_at == record.created_at
            &&& s1.external_references == s.external_references.push(row)
        }),
{
}

proof fn lemma_fresh_key_found(s: StoreView, envelope: MutationEnvelope, row: crate::models::recorded_mutation::RecordedMutation)
    requires
        s.wf(),
        s.recorded(envelope.origin_device_id@, envelope.idempotency_key@) is None,
        row.origin_device_id == envelope.origin_device_id,
        row.idempotency_key == envelope.idempotency_key,
    ensures
        find(s.ledger.push(row), ledger_key(), (envelope.origin_device_id@, envelope.idempotency_key@)) == Some(row),
{
    let k = (envelope.origin_device_id@, envelope.idempotency_key@);
    if has_key(s.ledger, ledger_key(), k) {
        let i = choose|i: int| 0 <= i < s.ledger.len() && ledger_key()(s.ledger[i]) == k;
        assert(exists|i: int| 0 <= i < s.ledger.len() && ledger_key()(s.ledger[i]) == k);
    }
    lemma_push_fresh(s.ledger, ledger_key(), row);
}

/// After a fresh log append, the ledger view (what `get_recorded_mutation` reads)
/// finds the request under its Device-scoped key: the entry's id with result
/// version 0 and the canonical payload.
pub proof fn appended_log_is_in_the_ledger_view(s: StoreView, envelope: MutationEnvelope, record: NewLogRecord, canonical_payload: String, checks: LogChecks)
    requires
        s.wf(),
        s.recorded(envelope.origin_device_id@, envelope.idempotency_key@) is None,
        append_log_entry_spec(s, envelope, record, canonical_payload, checks).1 is Ok,
    ensures
        ({
            let s1 = append_log_entry_spec(s, envelope, record, canonical_payload, checks).0;
            &&& canonical_recorded(s1, envelope.origin_device_id@, envelope.idempotency_key@) is Some
            &&& canonical_recorded(s1, envelope.origin_device_id@, envelope.idempotency_key@)->Some_0.result_version == 0
            &&& canonical_recorded(s1, envelope.origin_device_id@, envelope.idempotency_key@)->Some_0.result_object_id == record.id
            &&& canonical_recorded(s1, envelope.origin_device_id@, envelope.idempotency_key@)->Some_0.canonical_payload == canonical_payload
        }),
{
    let s1 = append_log_entry_spec(s, envelope, record, canonical_payload, checks).0;
    lemma_fresh_key_found(s, envelope, s1.ledger.last());
    assert(s1.ledger == s.ledger.push(s1.ledger.last()));
}

/// After a fresh external reference, the ledger view finds the request under its
/// Device-scoped key: the reference's id with result version 0.
pub proof fn stored_reference_is_in_the_ledger_view(s: StoreView, envelope: MutationEnvelope, record: NewExternalReferenceRecord, canonical_payload: String, checks: RecordChecks)
    requires
        s.wf(),
        s.recorded(envelope.origin_device_id@, envelope.idempotency_key@) is None,
        store_external_reference_spec(s, envelope, record, canonical_payload, checks).1 is Ok,
    ensures
        ({
            let s1 = store_external_reference_spec(s, envelope, record, canonical_payload, checks).0;
            &&& canonical_recorded(s1, envelope.origin_device_id@, envelope.idempotency_key@) is Some
            &&& canonical_recorded(s1, envelope.origin_device_id@, envelope.idempotency_key@)->Some_0.result_version == 0
            &&& canonical_recorded(s1, envelope.origin_device_id@, envelope.idempotency_key@)->Some_0.result_object_id == record.id
        }),
{
    let s1 = store_external_reference_spec(s, envelope, record, canonical_payload, checks).0;
    lemma_fresh_key_found(s, envelope, s1.ledger.last());
    assert(s1.ledger == s.ledger.push(s1.ledger.last()));
}

/// After a fresh admission, the ledger view finds the request under its
/// Device-scoped key: the object's id and its new version.
pub proof fn admission_is_in_the_ledger_view(s: StoreView, envelope: MutationEnvelope, record: NewObjectRecord, canonical_payload: String, checks: ObjectChecks)
    requires
        s.wf(),
        s.recorded(envelope.origin_device_id@, envelope.idempotency_key@) is None,
        admit_object_spec(s, envelope, record, canonical_payload, checks).1 is Ok,
    ensures
        ({
            let (s1, r) = admit_object_spec(s, envelope, record, canonical_payload, checks);
            &&& canonical_recorded(s1, envelope.origin_device_id@, envelope.idempotency_key@) is Some
            &&& canonical_recorded(s1, envelope.origin_device_id@, envelope.idempotency_key@)->Some_0.result_version == r->Ok_0.version
            &&& canonical_recorded(s1, envelope.origin_device_id@, envelope.idempotency_key@)->Some_0.result_object_id@ == record.id@
        }),
{
    admission_versions(s, envelope, record, canonical_payload, checks);
    let s1 = admit_object_spec(s, envelope, record, canonical_payload, checks).0;
    lemma_fresh_key_found(s, envelope, s1.ledger.last());
    assert(s1.ledger == s.ledger.push(s1.ledger.last()));
}

/// Every read lists its rows in its documented order: active Tasks with no row
/// updated strictly later than one before it, external references and
/// recalculation requests with no row created strictly later than one before it,
/// and an object's history with no entry created strictly earlier than one before
/// it.
pub proof fn reads_list_rows_in_order(s: StoreView, id: Seq<char>, source_type: Option<Seq<char>>)
    ensures
        forall|i: int, j: int| 0 <= i < j < active_tasks(s).len()
            ==> !text_less(active_tasks(s)[i].updated_at@, active_tasks(s)[j].updated_at@),
        forall|i: int| 0 <= i < active_tasks(s).len()
            ==> active_tasks(s)[i].object_type@ == "Task"@ && active_tasks(s)[i].status@ == "active"@,
        forall|i: int, j: int| 0 <= i < j < external_references_of(s, source_type).len()
            ==> !text_less(external_references_of(s, source_type)[i].created_at@, external_references_of(s, source_type)[j].created_at@),
        forall|i: int, j: int| 0 <= i < j < recalculation_trigger_logs(s).len()
            ==> !text_less(recalculation_trigger_logs(s)[i].created_at@, recalculation_trigger_logs(s)[j].created_at@),
        forall|i: int| 0 <= i < recalculation_trigger_logs(s).len()
            ==> recalculation_trigger_logs(s)[i].event_type@ == "recalculation_requested"@,
        forall|i: int, j: int| 0 <= i < j < object_history(s, id).len()
            ==> !text_less(object_history(s, id)[j].created_at@, object_history(s, id)[i].created_at@),
{
    admitted_reads_are_ordered(s, source_type);
    object_history_is_ordered(s, id);
    let a = active_tasks(s);
    assert forall|i: int, j: int| 0 <= i < j < a.len() implies !text_less(a[i].updated_at@, a[j].updated_at@) by {
        assert(a[j] == a[j] && a[i] == a[i]);
    }
    assert forall|i: int| 0 <= i < a.len() implies a[i].object_type@ == "Task"@ && a[i].status@ == "active"@ by {
        assert(a.contains(a[i]));
    }
    let x = external_references_of(s, source_type);
    assert forall|i: int, j: int| 0 <= i < j < x.len() implies !text_less(x[i].created_at@, x[j].created_at@) by {
        assert(x[j] == x[j] && x[i] == x[i]);
    }
    let t = recalculation_trigger_logs(s);
    assert forall|i: int, j: int| 0 <= i < j < t.len() implies !text_less(t[i].created_at@, t[j].created_at@) by {
        assert(t[j] == t[j] && t[i] == t[i]);
    }
    assert forall|i: int| 0 <= i < t.len() implies t[i].event_type@ == "recalculation_requested"@ by {
        assert(t.contains(t[i]));
    }
    let h = object_history(s, id);
    assert forall|i: int, j: int| 0 <= i < j < h.len() implies !text_less(h[j].created_at@, h[i].created_at@) by {
        assert(h[j] == h[j] && h[i] == h[i]);
    }
}

/// The review queue lists candidates with an absent review order first, then by
/// review order, then by creation time, then by id; a candidate's decision
/// history lists its events by the candidate version each observed, then by id.
pub proof fn candidate_reads_list_rows_in_order(s: StoreView, id: Seq<char>)
    ensures
        forall|i: int, j: int| #![trigger review_surface(s)[i], review_surface(s)[j]] 0 <= i < j < review_surface(s).len() ==> {
            let a = review_surface(s)[i];
            let b = review_surface(s)[j];
            &&& a.review_order is Some ==> b.review_order is Some
            &&& (a.review_order is Some && b.review_order is Some) ==> a.review_order->Some_0 <= b.review_order->Some_0
            &&& a.review_order == b.review_order ==> !text_less(b.created_at@, a.created_at@)
            &&& (a.review_order == b.review_order && a.created_at@ == b.created_at@)
                ==> !text_less(b.advisory_candidate_id@, a.advisory_candidate_id@)
        },
        forall|i: int| 0 <= i < review_surface(s).len()
            ==> review_surface(s)[i].lifecycle_state@ == "proposed"@ || review_surface(s)[i].lifecycle_state@ == "resurfaced"@,
        forall|i: int, j: int| #![trigger decision_history(s, id)[i], decision_history(s, id)[j]] 0 <= i < j < decision_history(s, id).len() ==> {
            let a = decision_history(s, id)[i];
            let b = decision_history(s, id)[j];
            &&& a.observed_candidate_version <= b.observed_candidate_version
            &&& a.observed_candidate_version == b.observed_candidate_version ==> !text_less(b.id@, a.id@)
        },
        forall|i: int| 0 <= i < decision_history(s, id).len() ==> decision_history(s, id)[i].advisory_candidate_id@ == id,
{
    review_surface_is_ordered(s);
    decision_history_is_ordered(s, id);
    let q = review_surface(s);
    assert forall|i: int, j: int| #![trigger q[i], q[j]] 0 <= i < j < q.len() implies {
        let a = q[i];
        let b = q[j];
        &&& a.review_order is Some ==> b.review_order is Some
        &&& (a.review_order is Some && b.review_order is Some) ==> a.review_order->Some_0 <= b.review_order->Some_0
        &&& a.review_order == b.review_order ==> !text_less(b.created_at@, a.created_at@)
        &&& (a.review_order == b.review_order && a.created_at@ == b.created_at@)
            ==> !text_less(b.advisory_candidate_id@, a.advisory_candidate_id@)
    } by {
        assert(q[j] == q[j] && q[i] == q[i]);
    }
    assert forall|i: int| 0 <= i < q.len() implies q[i].lifecycle_state@ == "proposed"@ || q[i].lifecycle_state@ == "resurfaced"@ by {
        assert(q.contains(q[i]));
    }
    let d = decision_history(s, id);
    assert forall|i: int, j: int| #![trigger d[i], d[j]] 0 <= i < j < d.len() implies {
        let a = d[i];
        let b = d[j];
        &&& a.observed_candidate_version <= b.observed_candidate_version
        &&& a.observed_candidate_version == b.observed_candidate_version ==> !text_less(b.id@, a.id@)
    } by {
        assert(d[j] == d[j] && d[i] == d[i]);
    }
    assert forall|i: int| 0 <= i < d.len() implies d[i].advisory_candidate_id@ == id by {
        assert(d.contains(d[i]));
    }
}

/// The links a decision's payload ends with, by the state it moves to: deferral
/// links the decision event as `deferral_ref`; resurfacing records the trigger as
/// `resurface_trigger` and then links the event as `resurfacing_ref`; admission
/// links the admitted object as `admission_ref`; rejection and archiving link the
/// event as `rejection_ref` and `archive_ref`.
pub open spec fn ends_with_decision_link(payload: Seq<char>, next: CandidateLifecycleState, event_id: Seq<char>, trigger: Option<Seq<char>>, resulting: Option<Seq<char>>) -> bool {
    match next {
        CandidateLifecycleState::Deferred =>
            exists|q: Seq<char>| payload == #[trigger] json_doc_with_link(q, "deferral_ref"@, Some(event_id)),
        CandidateLifecycleState::Resurfaced =>
            exists|q: Seq<char>| payload == json_doc_with_link(#[trigger] json_doc_with_link(q, "resurface_trigger"@, trigger), "resurfacing_ref"@, Some(event_id)),
        CandidateLifecycleState::Admitted =>
            exists|q: Seq<char>| payload == #[trigger] json_doc_with_link(q, "admission_ref"@, resulting),
        CandidateLifecycleState::Rejected =>
            exists|q: Seq<char>| payload == #[trigger] json_doc_with_link(q, "rejection_ref"@, Some(event_id)),
        CandidateLifecycleState::Archived =>
            exists|q: Seq<char>| payload == #[trigger] json_doc_with_link(q, "archive_ref"@, Some(event_id)),
        CandidateLifecycleState::Proposed => true,
    }
}

proof fn lemma_decision_links(s: StoreView, envelope: MutationEnvelope, current: CandidateRecord, next: CandidateLifecycleState, trigger: Option<Seq<char>>, resulting: Option<Seq<char>>, assigned: Option<Seq<char>>, decided: Result<String, CoreError>)
    requires
        decision_verdict(s, envelope, current, next, trigger, resulting, assigned, decided) is Ok,
        decided is Ok,
        decision_verdict(s, envelope, current, next, trigger, resulting, assigned, decided)->Ok_0.0.payload_json != decided->Ok_0@,
    ensures
        ends_with_decision_link(
            decision_verdict(s, envelope, current, next, trigger, resulting, assigned, decided)->Ok_0.0.payload_json,
            next,
            decision_id_of(envelope),
            trigger,
            resulting,
        ),
{
    let eid = decision_id_of(envelope);
    let version = (current.version + 1) as i64;
    let p1 = json_doc_with_text(current.payload_json@, "lifecycle_state"@, state_spelling(next));
    let p2 = json_doc_with_integer(p1, "version"@, version);
    let p3 = match assigned {
        Some(k) => json_doc_with_text(p2, "suppression_key"@, k),
        None => p2,
    };
    let computed = decided_payload(current.payload_json@, next, version, assigned, trigger, resulting, eid);
    assert(computed == link_update(p3, next, trigger, resulting, eid));
    let p = decision_verdict(s, envelope, current, next, trigger, resulting, assigned, decided)->Ok_0.0.payload_json;
    assert(p == computed);
    match next {
        CandidateLifecycleState::Resurfaced => {
            let q = json_doc_with_link(p3, "prior_deferral_ref"@, json_link_of(p3, "deferral_ref"@));
            assert(p == json_doc_with_link(json_doc_with_link(q, "resurface_trigger"@, trigger), "resurfacing_ref"@, Some(eid)));
        },
        _ => {},
    }
}

/// A fresh lifecycle transition that stores the payload it computes (not the
/// core crate's text) ends that payload with the link of the decision: the
/// decision's id under `deferral_ref` or `archive_ref`, and for resurfacing the
/// trigger under `resurface_trigger` and the id under `resurfacing_ref`.
pub proof fn transitions_link_their_decision(old: StoreView, new: StoreView, envelope: MutationEnvelope, id: Seq<char>, observed_version: u64, next: CandidateLifecycleState, trigger: Option<Seq<char>>, canonical_payload: String, checks: DecisionChecks, r: Result<CandidateRecord, StoreError>)
    requires
        transitions_candidate(old, new, envelope, id, observed_version, next, trigger, canonical_payload, checks, r),
        old.recorded(envelope.origin_device_id@, envelope.idempotency_key@) is None,
        r is Ok,
        checks.decided_candidate is Ok ==> r->Ok_0.payload_json@ != checks.decided_candidate->Ok_0@,
    ensures
        ends_with_decision_link(r->Ok_0.payload_json@, next, decision_id_of(envelope), trigger, None),
        r->Ok_0.lifecycle_state@ == state_spelling(next),
{
    let current = observed_candidate_verdict(old, id, observed_version)->Ok_0;
    lemma_decision_links(old, envelope, current, next, trigger, None, None, checks.decided_candidate);
}

/// A fresh rejection that stores the payload it computes links the decision's id
/// under `rejection_ref`.
pub proof fn rejections_link_their_decision(old: StoreView, new: StoreView, envelope: MutationEnvelope, id: Seq<char>, observed_version: u64, supplied_key: Option<Seq<char>>, checks: RejectionChecks, canonical_payload: String, r: Result<CandidateRecord, StoreError>)
    requires
        rejects_candidate(old, new, envelope, id, observed_version, supplied_key, checks, canonical_payload, r),
        old.recorded(envelope.origin_device_id@, envelope.idempotency_key@) is None,
        r is Ok,
        checks.decided_candidate is Ok ==> r->Ok_0.payload_json@ != checks.decided_candidate->Ok_0@,
    ensures
        ends_with_decision_link(r->Ok_0.payload_json@, CandidateLifecycleState::Rejected, decision_id_of(envelope), None, None),
        r->Ok_0.lifecycle_state@ == "rejected"@,
{
    let current = observed_candidate_verdict(old, id, observed_version)->Ok_0;
    let key = rejection_key(opt_text(current.suppression_key), supplied_key, checks.derived_suppression_key@)->Ok_0;
    let assigned = if current.suppression_key is None { Some(key) } else { None };
    lemma_decision_links(old, envelope, current, CandidateLifecycleState::Rejected, None, None, assigned, checks.decided_candidate);
}

/// A fresh candidate admission that stores the payload it computes links the
/// admitted object's id under `admission_ref`.
pub proof fn admissions_link_their_object(old: StoreView, new: StoreView, envelope: MutationEnvelope, id: Seq<char>, observed_version: u64, record: NewObjectRecord, canonical_payload: String, checks: ObjectChecks, decision: DecisionChecks, r: Result<(CandidateRecord, ObjectRecord), StoreError>)
    requires
        admits_candidate(old, new, envelope, id, observed_version, record, canonical_payload, checks, decision, r),
        old.recorded(envelope.origin_device_id@, envelope.idempotency_key@) is None,
        r is Ok,
        decision.decided_candidate is Ok ==> r->Ok_0.0.payload_json@ != decision.decided_candidate->Ok_0@,
    ensures
        ends_with_decision_link(r->Ok_0.0.payload_json@, CandidateLifecycleState::Admitted, decision_id_of(envelope), None, Some(r->Ok_0.1.id@)),
        r->Ok_0.0.lifecycle_state@ == "admitted"@,
{
    let current = observed_candidate_verdict(old, id, observed_version)->Ok_0;
    let object = admission_plan(old, envelope, record, checks)->Ok_0;
    lemma_decision_links(old, envelope, current, CandidateLifecycleState::Admitted, None, Some(object.id@), None, decision.decided_candidate);
}

/// A fresh transition's decision event is identified by the request
/// (`decision_id_of`), carries the trigger, the envelope and its recorded time and
/// no resulting object; the candidate row keeps its kind, creation time and review
/// order and takes the envelope's recorded time as its update time.
pub proof fn transition_events_record_the_request(old: StoreView, new: StoreView, envelope: MutationEnvelope, id: Seq<char>, observed_version: u64, next: CandidateLifecycleState, trigger: Option<Seq<char>>, canonical_payload: String, checks: DecisionChecks, r: Result<CandidateRecord, StoreError>)
    requires
        old.wf(),
        old.recorded(envelope.origin_device_id@, envelope.idempotency_key@) is None,
        transitions_candidate(old, new, envelope, id, observed_version, next, trigger, canonical_payload, checks, r),
        r is Ok,
    ensures
        ({
            let row = r->Ok_0;
            let event = new.decision_events.last();
            let current = find(old.candidates, candidate_key(), id).unwrap();
            &&& new.decision_events.len() == old.decision_events.len() + 1
            &&& event.id@ == decision_id_of(envelope)
            &&& opt_text(event.resurface_trigger) == trigger
            &&& event.resulting_object_id is None
            &&& event.envelope_json@ == envelope.envelope_json@
            &&& event.recorded_at@ == envelope.recorded_time@
            &&& row.updated_at@ == envelope.recorded_time@
            &&& row.created_at@ == current.created_at@
            &&& row.candidate_kind@ == current.candidate_kind@
            &&& row.review_order == current.review_order
        }),
{
}

/// A fresh rejection files its suppression record under the candidate's key: a
/// key the candidate already has stands (a different supplied key is refused);
/// otherwise the supplied key, or else the derived one, is assigned to the
/// candidate. The record holds what the core crate built, and the candidate row
/// answers that key.
pub proof fn rejections_file_under_the_candidate_key(old: StoreView, new: StoreView, envelope: MutationEnvelope, id: Seq<char>, observed_version: u64, supplied_key: Option<Seq<char>>, checks: RejectionChecks, canonical_payload: String, r: Result<CandidateRecord, StoreError>)
    requires
        old.wf(),
        old.recorded(envelope.origin_device_id@, envelope.idempotency_key@) is None,
        rejects_candidate(old, new, envelope, id, observed_version, supplied_key, checks, canonical_payload, r),
        r is Ok,
    ensures
        ({
            let current = find(old.candidates, candidate_key(), id).unwrap();
            let record = new.suppressions.last();
            let key = record.suppression_key@;
            &&& new.suppressions == old.suppressions.push(record)
            &&& opt_text(r->Ok_0.suppression_key) == Some(key)
            &&& record.advisory_candidate_id@ == id
            &&& match opt_text(current.suppression_key) {
                Some(k) => key == k && (supplied_key is Some ==> supplied_key == Some(k)),
                None => match supplied_key {
                    Some(k) => key == k,
                    None => key == checks.derived_suppression_key@,
                },
            }
            &&& checks.suppression_record is Ok
            &&& record.payload_json == checks.suppression_record->Ok_0.payload_json
            &&& record.decided_at == checks.suppression_record->Ok_0.decided_at
        }),
{
    lemma_found_has_key(old.candidates, candidate_key(), id);
}

/// A fresh proposal is stored as submitted: its id, kind, `proposed` state,
/// version, suppression key, review order and payload, created at its proposal
/// time and updated at the envelope's recorded time; the ledger records the
/// negative version as its result, which keeps it out of the canonical view.
pub proof fn stored_proposal_is_the_candidate(old: StoreView, new: StoreView, envelope: MutationEnvelope, candidate: AdvisoryCandidate, canonical_payload: String, validation: Result<(), CoreError>, r: Result<CandidateRecord, StoreError>)
    requires
        old.wf(),
        old.recorded(envelope.origin_device_id@, envelope.idempotency_key@) is None,
        stores_candidate(old, new, envelope, candidate, canonical_payload, validation, r),
        r is Ok,
    ensures
        ({
            let row = r->Ok_0;
            &&& row.advisory_candidate_id@ == candidate.advisory_candidate_id@
            &&& row.candidate_kind@ == candidate.candidate_kind@
            &&& row.lifecycle_state@ == "proposed"@
            &&& row.version == candidate.version
            &&& opt_text(row.suppression_key) == opt_text(candidate.suppression_key)
            &&& row.review_order == candidate.review_order
            &&& row.payload_json@ == candidate.payload_json@
            &&& row.created_at@ == candidate.proposed_at@
            &&& row.updated_at@ == envelope.recorded_time@
            &&& new.candidates == old.candidates.push(row)
            &&& new.ledger.last().result_version == -candidate.version
            &&& candidate.version >= 1 ==> canonical_recorded(new, envelope.origin_device_id@, envelope.idempotency_key@) is None
        }),
{
    let row = r->Ok_0;
    reveal_strlit("proposed");
    lemma_fresh_key_found(old, envelope, new.ledger.last());
    assert(new.ledger == old.ledger.push(new.ledger.last()));
}

/// Each derived writer stores exactly the submitted record, field by field, and
/// appends it to its own table.
pub proof fn derived_rows_are_the_records(
    s: StoreView,
    plan: NewPlanRecord,
    plan_checks: RecordChecks,
    calendar: NewCalendarRecord,
    calendar_checks: CalendarChecks,
    submission: NewWorkerSubmissionRecord,
    submission_checks: WorkerSubmissionChecks,
    preview: NewProjectionPreviewRecord,
    preview_checks: RecordChecks,
    result: NewProjectionResultRecord,
    result_checks: ProjectionResultChecks,
)
    ensures
        store_plan_spec(s, plan, plan_checks).1 matches Ok(row) ==> {
            &&& row.id == plan.id && row.request_id == plan.request_id && row.status == plan.status
            &&& row.payload_json == plan.payload && row.created_at == plan.created_at
            &&& store_plan_spec(s, plan, plan_checks).0.plans == s.plans.push(row)
        },
        store_calendar_spec(s, calendar, calendar_checks).1 matches Ok(row) ==> {
            &&& row.id == calendar.id && row.plan_id == calendar.plan_id
            &&& row.window_start == calendar.window_start && row.window_end == calendar.window_end
            &&& row.payload_json == calendar.payload && row.created_at == calendar.created_at
            &&& store_calendar_spec(s, calendar, calendar_checks).0.calendars == s.calendars.push(row)
        },
        store_worker_submission_spec(s, submission, submission_checks).1 matches Ok(row) ==> {
            &&& row.id == submission.id && row.candidate_id == submission.candidate_id
            &&& row.object_type == submission.object_type && row.status == submission.status
            &&& row.payload_json == submission.payload && row.authority_source == submission.authority_source
            &&& row.submitted_at == submission.submitted_at && row.created_at == submission.created_at
            &&& store_worker_submission_spec(s, submission, submission_checks).0.worker_submissions == s.worker_submissions.push(row)
        },
        store_projection_preview_spec(s, preview, preview_checks).1 matches Ok(row) ==> {
            &&& row.id == preview.id && row.request_id == preview.request_id && row.status == preview.status
            &&& row.payload_json == preview.payload && row.created_at == preview.created_at
            &&& store_projection_preview_spec(s, preview, preview_checks).0.projection_previews == s.projection_previews.push(row)
        },
        store_projection_result_spec(s, result, result_checks).1 matches Ok(row) ==> {
            &&& row.id == result.id && row.preview_id == result.preview_id && row.status == result.status
            &&& row.payload_json == result.payload && row.created_at == result.created_at
            &&& store_projection_result_spec(s, result, result_checks).0.projection_results == s.projection_results.push(row)
        },
{
}

/// Whether `c` and `d` are the same character, or the same ASCII letter in upper
/// and lower case.
pub open spec fn same_ignoring_ascii_case(c: char, d: char) -> bool {
    ||| c == d
    ||| 65 <= (c as u32) && (c as u32) <= 90 && (d as u32) == (c as u32) + 32
    ||| 65 <= (d as u32) && (d as u32) <= 90 && (c as u32) == (d as u32) + 32
}

/// Whether `needle` matches `hay` at position `at`, character by character: a `_`
/// of `needle` matches any one character, every other character matches itself,
/// ASCII letters in either case.
pub open spec fn matches_at(hay: Seq<char>, needle: Seq<char>, at: int) -> bool {
    &&& 0 <= at
    &&& at + needle.len() <= hay.len()
    &&& forall|k: int| 0 <= k < needle.len() ==> needle[k] == '_' || #[trigger] same_ignoring_ascii_case(hay[at + k], needle[k])
}

proof fn lemma_fold_code(c: char, d: char)
    ensures
        (fold_code(c) == fold_code(d)) == same_ignoring_ascii_case(c, d),
{
    if (c as u32) == (d as u32) {
        assert(c == d);
    }
}

proof fn lemma_like_any(t: Seq<char>)
    ensures
        like_match(t, seq!['%']),
    decreases t.len(),
{
    let p = seq!['%'];
    assert(p.len() == 1 && p[0] == '%');
    assert(p.drop_first() =~= Seq::<char>::empty());
    if t.len() > 0 {
        lemma_like_any(t.drop_first());
        assert(like_match(t.drop_first(), p));
    } else {
        assert(like_match(t, Seq::<char>::empty()));
    }
}

/// A pattern without `%` followed by one `%` matches a text exactly when it
/// matches the text's beginning character by character.
proof fn lemma_like_prefix(t: Seq<char>, q: Seq<char>)
    requires
        forall|k: int| 0 <= k < q.len() ==> q[k] != '%',
    ensures
        like_match(t, q + seq!['%']) <==> (q.len() <= t.len()
            && forall|k: int| 0 <= k < q.len() ==> q[k] == '_' || fold_code(#[trigger] t[k]) == fold_code(q[k])),
    decreases q.len(),
{
    let p = q + seq!['%'];
    if q.len() == 0 {
        assert(p =~= seq!['%']);
        lemma_like_any(t);
    } else {
        assert(p[0] == q[0]);
        assert(p.drop_first() =~= q.drop_first() + seq!['%']);
        if t.len() > 0 {
            lemma_like_prefix(t.drop_first(), q.drop_first());
            let rhs = q.len() <= t.len()
                && forall|k: int| 0 <= k < q.len() ==> q[k] == '_' || fold_code(#[trigger] t[k]) == fold_code(q[k]);
            if rhs {
                assert forall|k: int| 0 <= k < q.drop_first().len() implies q.drop_first()[k] == '_'
                    || fold_code(#[trigger] t.drop_first()[k]) == fold_code(q.drop_first()[k]) by {
                    assert(t[k + 1] == t.drop_first()[k]);
                }
            }
            if like_match(t, p) {
                assert forall|k: int| 0 <= k < q.len() implies q[k] == '_' || fold_code(#[trigger] t[k]) == fold_code(q[k]) by {
                    if k > 0 {
                        assert(t[k] == t.drop_first()[k - 1]);
                        assert(q[k] == q.drop_first()[k - 1]);
                    }
                }
            }
        }
    }
}

/// A pattern that begins with `%` matches a text exactly when the rest of the
/// pattern matches some suffix of the text.
proof fn lemma_like_skip(t: Seq<char>, r: Seq<char>)
    ensures
        like_match(t, seq!['%'] + r) <==> exists|i: int| 0 <= i <= t.len() && like_match(#[trigger] t.skip(i), r),
    decreases t.len(),
{
    let p = seq!['%'] + r;
    assert(p.drop_first() =~= r);
    assert(t.skip(0) =~= t);
    if t.len() > 0 {
        lemma_like_skip(t.drop_first(), r);
        if like_match(t.drop_first(), p) {
            let i = choose|i: int| 0 <= i <= t.drop_first().len() && like_match(#[trigger] t.drop_first().skip(i), r);
            assert(t.drop_first().skip(i) =~= t.skip(i + 1));
        }
        if exists|i: int| 0 <= i <= t.len() && like_match(#[trigger] t.skip(i), r) {
            let i = choose|i: int| 0 <= i <= t.len() && like_match(#[trigger] t.skip(i), r);
            if i > 0 {
                assert(t.drop_first().skip(i - 1) =~= t.skip(i));
            }
        }
    } else {
        if exists|i: int| 0 <= i <= t.len() && like_match(#[trigger] t.skip(i), r) {
            let i = choose|i: int| 0 <= i <= t.len() && like_match(#[trigger] t.skip(i), r);
            assert(i == 0);
        }
    }
}

/// The object-history match (SQL `LIKE '%needle%'`): for a needle without `%`,
/// the object references match exactly when the needle occurs in them somewhere,
/// its `_` standing for any one character and its letters matching in either
/// ASCII case.
pub proof fn like_contains_finds_the_needle(hay: Seq<char>, needle: Seq<char>)
    requires
        forall|k: int| 0 <= k < needle.len() ==> needle[k] != '%',
    ensures
        like_contains(hay, needle) <==> exists|at: int| #[trigger] matches_at(hay, needle, at),
{
    let r = needle + seq!['%'];
    assert(seq!['%'] + needle + seq!['%'] =~= seq!['%'] + r);
    lemma_like_skip(hay, r);
    assert forall|i: int| 0 <= i <= hay.len() implies
        (like_match(#[trigger] hay.skip(i), r) <==> matches_at(hay, needle, i)) by {
        let t = hay.skip(i);
        lemma_like_prefix(t, needle);
        if like_match(t, r) {
            assert forall|k: int| 0 <= k < needle.len() implies needle[k] == '_'
                || #[trigger] same_ignoring_ascii_case(hay[i + k], needle[k]) by {
                assert(t[k] == hay[i + k]);
                assert(needle[k] == '_' || fold_code(t[k]) == fold_code(needle[k]));
                lemma_fold_code(hay[i + k], needle[k]);
            }
        }
        if matches_at(hay, needle, i) {
            assert forall|k: int| 0 <= k < needle.len() implies needle[k] == '_'
                || fold_code(#[trigger] t[k]) == fold_code(needle[k]) by {
                assert(t[k] == hay[i + k]);
                assert(needle[k] == '_' || same_ignoring_ascii_case(hay[i + k], needle[k]));
                lemma_fold_code(hay[i + k], needle[k]);
            }
        }
    }
    if exists|at: int| #[trigger] matches_at(hay, needle, at) {
        let at = choose|at: int| #[trigger] matches_at(hay, needle, at);
        assert(0 <= at <= hay.len());
        assert(like_match(hay.skip(at), r));
    }
}

} // verus!
