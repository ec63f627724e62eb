//! Canonical writers and admitted-state reads.
//!
//! | Writer | State category | Envelope and reason |
//! | --- | --- | --- |
//! | `admit_object` | admitted canonical | Required: creates/updates canonical objects. |
//! | `persist_universe_state` | admitted canonical | Required: bumps a canonical object's version. |
//! | `append_log_entry` | admitted canonical | Required: records an append-only fact. |
//! | `store_external_reference` | admitted canonical | Required: `xref_` is a registry object type. |
//! | `store_plan`, `store_calendar` | derived state | Exempt: derived artifacts, not canonical admission. |
//! | `store_projection_preview`, `store_projection_result` | projection state | Exempt: projection artifacts. |
//! | `store_worker_submission` | noncanonical submission | Exempt: submissions require admission before becoming canonical. |
//! | `admit_candidate_object` | candidate state (the one exception) | Exempt: inserts a submitted candidate object as an active version-1 object without an envelope or a ledger row. |

use vstd::prelude::*;

use crate::admission::{
    and_check, core_verdict, id_check, json_verdict, object_record_verdict, object_type_from_str, type_named,
    validate_object_id_for_type, validate_object_record, ObjectChecks, ObjectType,
};
use crate::envelope::{MutationEnvelope, MutationKey, VersionRef};
use crate::errors::{outcome, CoreError, DatabaseError, DatabaseErrorView, StoreError, StoreErrorView, Table};
use crate::models::calendar_record::{CalendarRecord, NewCalendarRecord};
use crate::models::external_reference_record::{ExternalReferenceRecord, NewExternalReferenceRecord};
use crate::models::log_record::{LogRecord, NewLogRecord};
use crate::models::object_record::{NewObjectRecord, NewObjectView, ObjectRecord};
use crate::models::plan_record::{NewPlanRecord, PlanRecord};
use crate::models::projection_record::{
    NewProjectionPreviewRecord, NewProjectionResultRecord, ProjectionPreviewRecord, ProjectionResultRecord,
};
use crate::models::worker_submission_record::{NewWorkerSubmissionRecord, WorkerSubmissionRecord};
use crate::models::recorded_mutation::RecordedMutation;
use crate::store::{
    actual_label, calendar_key, expected_label, find, has_key, object_key, ledger_row, lemma_preconditions_hold, log_key, preconditions_verdict,
    plan_key, prepare_verdict, preview_key, put_object, result_key, submission_key, version_matches, xref_key,
    KeyedRow, MutationTarget, Prepared, StoreView, UbuStore,
};
use crate::json::{json_doc_with_member, json_member_json, json_member_json_of, json_set_member};
use crate::order::{keep, order_of, sort_rows, stable_sort, strict_order, RowFilter, RowOrder};
use crate::text::{
    like_contains, lemma_text_less_asymmetric, lemma_text_less_transitive, render_version_label, same_text, text_like_contains,
    text_less, text_precedes,
};

verus! {

/// The version a request observed for object `id`: its first entry for `id`.
pub open spec fn target_expectation_from(observed: Seq<(String, VersionRef)>, id: Seq<char>, i: int) -> Option<VersionRef>
    decreases observed.len() - i,
{
    if i < 0 || i >= observed.len() {
        None
    } else if observed[i].0@ == id {
        Some(observed[i].1)
    } else {
        target_expectation_from(observed, id, i + 1)
    }
}

pub open spec fn target_expectation(observed: Seq<(String, VersionRef)>, id: Seq<char>) -> Option<VersionRef> {
    target_expectation_from(observed, id, 0)
}

/// The largest version SQLite can hold.
pub open spec fn max_store_version() -> int {
    0x7fff_ffff_ffff_ffff
}

/// The row an admission writes: a new object starts at version 1; an update
/// takes the next version after the observed one and keeps the object's id, type
/// and creation time. The envelope, not the supplied version, decides the version.
pub open spec fn admitted_row(s: StoreView, record: NewObjectRecord, expected: VersionRef) -> Result<ObjectRecord, StoreErrorView> {
    match expected {
        VersionRef::Absent => Ok(ObjectRecord {
            id: record.id,
            object_type: record.object_type,
            version: 1,
            status: record.status,
            compartment_label: record.compartment_label,
            payload_json: record.payload,
            created_at: record.created_at,
            updated_at: record.updated_at,
        }),
        VersionRef::Version(v) => if v >= max_store_version() {
            Err(StoreErrorView::ObjectVersionExhausted { object_id: record.id@, version: v })
        } else {
            let current = s.object(record.id@).unwrap();
            Ok(ObjectRecord {
                version: (v + 1) as i64,
                status: record.status,
                compartment_label: record.compartment_label,
                payload_json: record.payload,
                updated_at: record.updated_at,
                ..current
            })
        },
    }
}

/// The object a fresh admission writes, or why it is refused: the id must parse,
/// the envelope must hold a precondition on the id, the object must pass the
/// admission rules, and then `admitted_row` decides the row.
pub open spec fn admission_plan(s: StoreView, envelope: MutationEnvelope, record: NewObjectRecord, checks: ObjectChecks) -> Result<ObjectRecord, StoreErrorView> {
    match checks.id_type {
        Err(e) => Err(StoreErrorView::Core(e@)),
        Ok(_) => match target_expectation(envelope.observed_versions@, record.id@) {
            None => Err(StoreErrorView::MissingTargetPrecondition { object_id: record.id@ }),
            Some(expected) => match object_record_verdict(record@, checks) {
                Err(e) => Err(e),
                Ok(_) => admitted_row(s, record, expected),
            },
        },
    }
}

/// The store after a fresh admission wrote `row` and its ledger row.
pub open spec fn with_admitted(s: StoreView, envelope: MutationEnvelope, canonical_payload: String, row: ObjectRecord) -> StoreView {
    StoreView {
        objects: put_object(s.objects, row),
        ledger: s.ledger.push(ledger_row(envelope, canonical_payload, row.id, row.version)),
        ..s
    }
}

/// What admitting one canonical object does to the store and answers.
///
/// After the shared checks (see `prepare_verdict`), a replay answers the recorded
/// object's current state and writes nothing. A fresh request is planned by
/// `admission_plan`; the planned object is written together with one ledger row,
/// and the written object is the answer. Every refusal leaves the store unchanged.
pub open spec fn admit_object_spec(s: StoreView, envelope: MutationEnvelope, record: NewObjectRecord, canonical_payload: String, checks: ObjectChecks) -> (StoreView, Result<ObjectRecord, StoreErrorView>) {
    match prepare_verdict(s, envelope, canonical_payload@, MutationTarget::Object) {
        Err(e) => (s, Err(e)),
        Ok(Prepared::Replay(row)) => match s.object(row.result_object_id@) {
            Some(o) => (s, Ok(o)),
            None => (s, Err(StoreErrorView::RecordedMutationObjectMissing { object_id: row.result_object_id@ })),
        },
        Ok(Prepared::Fresh) => match admission_plan(s, envelope, record, checks) {
            Err(e) => (s, Err(e)),
            Ok(row) => (with_admitted(s, envelope, canonical_payload, row), Ok(row)),
        },
    }
}

fn find_target_expectation(observed: &Vec<(String, VersionRef)>, id: &str) -> (r: Option<VersionRef>)
    ensures
        r == target_expectation(observed@, id@),
{
    let n = observed.len();
    let mut i: usize = 0;
    while i < n
        invariant
            n == observed@.len(),
            i <= n,
            target_expectation(observed@, id@) == target_expectation_from(observed@, id@, i as int),
        decreases n - i,
    {
        if same_text(&observed[i].0, id) {
            return Some(observed[i].1);
        }
        i = i + 1;
    }
    None
}

/// With every read precondition holding, the first entry for an id matches it.
pub proof fn lemma_target_matches(s: StoreView, observed: Seq<(String, VersionRef)>, id: Seq<char>, i: int)
    requires
        0 <= i,
        forall|j: int| 0 <= j < observed.len() ==> version_matches(observed[j].1, s.actual_version(observed[j].0@)),
        target_expectation_from(observed, id, i) is Some,
    ensures
        version_matches(target_expectation_from(observed, id, i).unwrap(), s.actual_version(id)),
    decreases observed.len() - i,
{
    if observed[i].0@ != id {
        lemma_target_matches(s, observed, id, i + 1);
    }
}

impl UbuStore {
    /// Plans a fresh admission (see `admission_plan`), writing nothing.
    pub(crate) fn plan_admission(&self, envelope: &MutationEnvelope, record: NewObjectRecord, checks: &ObjectChecks) -> (r: Result<ObjectRecord, StoreError>)
        requires
            self.wf(),
            preconditions_verdict(self@, envelope.observed_versions@) is Ok,
        ensures
            outcome(r) == admission_plan(self@, *envelope, record, *checks),
            r matches Ok(row) ==> row.version >= 1 && row.id@ == record.id@,
    {
        proof {
            lemma_preconditions_hold(self@, envelope.observed_versions@);
        }
        match &checks.id_type {
            Err(e) => return Err(StoreError::Core(e.clone_core())),
            Ok(_) => {},
        }
        let expected = match find_target_expectation(&envelope.observed_versions, &record.id) {
            None => return Err(StoreError::MissingTargetPrecondition { object_id: record.id }),
            Some(v) => v,
        };
        proof {
            lemma_target_matches(self@, envelope.observed_versions@, record.id@, 0);
        }
        match validate_object_record(&record, checks) {
            Err(e) => return Err(e),
            Ok(_) => {},
        }
        match expected {
            VersionRef::Absent => Ok(ObjectRecord {
                id: record.id,
                object_type: record.object_type,
                version: 1,
                status: record.status,
                compartment_label: record.compartment_label,
                payload_json: record.payload,
                created_at: record.created_at,
                updated_at: record.updated_at,
            }),
            VersionRef::Version(v) => {
                if v >= 0x7fff_ffff_ffff_ffff {
                    return Err(StoreError::ObjectVersionExhausted { object_id: record.id, version: v });
                }
                let current = self.current_object(&record.id).unwrap();
                Ok(ObjectRecord {
                    id: current.id,
                    object_type: current.object_type,
                    version: (v + 1) as i64,
                    status: record.status,
                    compartment_label: record.compartment_label,
                    payload_json: record.payload,
                    created_at: current.created_at,
                    updated_at: record.updated_at,
                })
            },
        }
    }

    /// Writes an admitted row and its ledger row.
    pub(crate) fn apply_admission(&mut self, envelope: &MutationEnvelope, canonical_payload: String, row: ObjectRecord)
        requires
            old(self).wf(),
            row.version >= 1,
            old(self)@.recorded(envelope.origin_device_id@, envelope.idempotency_key@) is None,
        ensures
            final(self).wf(),
            final(self)@ == with_admitted(old(self)@, *envelope, canonical_payload, row),
    {
        let result_id = row.id.clone();
        let result_version = row.version;
        self.put_object_row(row);
        self.record_mutation(envelope, canonical_payload, result_id, result_version);
    }
}

/// Admit one canonical object mutation atomically with its envelope (see
/// `admit_object_spec`). `canonical_payload` is the canonical JSON form of the
/// payload, which replays compare; `checks` is what the core crate and the JSON
/// reader said of the object's parts.
pub fn admit_object(store: &mut UbuStore, envelope: &MutationEnvelope, record: NewObjectRecord, canonical_payload: String, checks: &ObjectChecks) -> (r: Result<ObjectRecord, StoreError>)
    requires
        old(store).wf(),
    ensures
        final(store).wf(),
        (final(store)@, outcome(r)) == admit_object_spec(old(store)@, *envelope, record, canonical_payload, *checks),
{
    match store.prepare_mutation(envelope, &canonical_payload, MutationTarget::Object) {
        Err(e) => return Err(e),
        Ok(Prepared::Replay(row)) => {
            return match store.current_object(&row.result_object_id) {
                Some(o) => Ok(o),
                None => Err(StoreError::RecordedMutationObjectMissing { object_id: row.result_object_id }),
            };
        },
        Ok(Prepared::Fresh) => {},
    }
    let row = match store.plan_admission(envelope, record, checks) {
        Err(e) => return Err(e),
        Ok(row) => row,
    };
    let answer = row.duplicate();
    store.apply_admission(envelope, canonical_payload, row);
    Ok(answer)
}

/// The current state of canonical object `id`. `parsed` is what the core id
/// parser said of `id`; an unparsable id is refused.
pub fn get_current_state(store: &UbuStore, id: &str, parsed: &Result<(), CoreError>) -> (r: Result<Option<ObjectRecord>, StoreError>)
    requires
        store.wf(),
    ensures
        match parsed {
            Err(e) => r matches Err(x) && x@ == StoreErrorView::Core(e@),
            Ok(_) => r == Ok::<Option<ObjectRecord>, StoreError>(store@.object(id@)),
        },
{
    match parsed {
        Err(e) => Err(StoreError::Core(e.clone_core())),
        Ok(_) => Ok(store.current_object(id)),
    }
}

/// The canonical view of a ledger row: recorded under the key, and not a
/// candidate-only result (whose result version is negative).
pub open spec fn canonical_recorded(s: StoreView, device: Seq<char>, key: Seq<char>) -> Option<RecordedMutation> {
    match s.recorded(device, key) {
        Some(row) => if row.result_version >= 0 { Some(row) } else { None },
        None => None,
    }
}

/// Look up an admission audit row by its complete Device-scoped duplicate key.
/// Candidate-only ledger rows stay out of this canonical view.
pub fn get_recorded_mutation(store: &UbuStore, key: &MutationKey) -> (r: Option<RecordedMutation>)
    requires
        store.wf(),
    ensures
        r == canonical_recorded(store@, key.origin_device_id@, key.idempotency_key@),
{
    match store.recorded_row(&key.origin_device_id, &key.idempotency_key) {
        Some(row) => if row.result_version >= 0 { Some(row) } else { None },
        None => None,
    }
}

// ---------------------------------------------------------------------------
// Append-only logs
// ---------------------------------------------------------------------------

/// What the core crate and the JSON reader said of a submitted log entry.
#[derive(Debug)]
pub struct LogChecks {
    /// The id parser on the entry id.
    pub id_type: Result<ObjectType, CoreError>,
    /// The provenance read as a core Provenance.
    pub provenance: Result<(), String>,
    /// The payload read as a core RecalculationTrigger.
    pub trigger: Result<(), String>,
    /// The timestamp parser on `created_at`.
    pub created_at: Result<(), CoreError>,
}

/// A log entry needs a LogEntry id and a provenance; a `recalculation_requested`
/// entry's payload must read as a recalculation trigger; the creation time must parse.
pub open spec fn log_record_verdict(record: NewLogRecord, checks: LogChecks) -> Result<(), StoreErrorView> {
    and_check(id_check(checks.id_type, "LogEntry"@),
    and_check(json_verdict(checks.provenance),
    and_check(if record.event_type@ == "recalculation_requested"@ { json_verdict(checks.trigger) } else { Ok(()) },
    core_verdict(checks.created_at))))
}

/// The row an appended log entry becomes.
pub open spec fn log_row_of(record: NewLogRecord) -> LogRecord {
    LogRecord {
        id: record.id,
        event_type: record.event_type,
        object_refs_json: record.object_refs,
        payload_json: record.payload,
        provenance_json: record.provenance,
        created_at: record.created_at,
    }
}

/// What appending a log entry does: after the shared checks, a replay answers the
/// recorded entry; a fresh entry must pass the log rules and have a new id, and is
/// appended with one ledger row (result version zero). Refusals change nothing.
pub open spec fn append_log_entry_spec(s: StoreView, envelope: MutationEnvelope, record: NewLogRecord, canonical_payload: String, checks: LogChecks) -> (StoreView, Result<LogRecord, StoreErrorView>) {
    match prepare_verdict(s, envelope, canonical_payload@, MutationTarget::Log) {
        Err(e) => (s, Err(e)),
        Ok(Prepared::Replay(row)) => (s, Ok(find(s.logs, log_key(), row.result_object_id@).unwrap())),
        Ok(Prepared::Fresh) => match log_record_verdict(record, checks) {
            Err(e) => (s, Err(e)),
            Ok(_) => if has_key(s.logs, log_key(), record.id@) {
                (s, Err(StoreErrorView::Sqlx(DatabaseErrorView::UniqueViolation { table: Table::Logs, key: record.id@ })))
            } else {
                let row = log_row_of(record);
                (
                    StoreView {
                        logs: s.logs.push(row),
                        ledger: s.ledger.push(ledger_row(envelope, canonical_payload, row.id, 0)),
                        ..s
                    },
                    Ok(row),
                )
            },
        },
    }
}

/// Append one log entry with its envelope (see `append_log_entry_spec`). Logs are
/// append-only: the store has no path that changes or removes an entry.
pub fn append_log_entry(store: &mut UbuStore, envelope: &MutationEnvelope, record: NewLogRecord, canonical_payload: String, checks: &LogChecks) -> (r: Result<LogRecord, StoreError>)
    requires
        old(store).wf(),
    ensures
        final(store).wf(),
        (final(store)@, outcome(r)) == append_log_entry_spec(old(store)@, *envelope, record, canonical_payload, *checks),
{
    match store.prepare_mutation(envelope, &canonical_payload, MutationTarget::Log) {
        Err(e) => return Err(e),
        Ok(Prepared::Replay(row)) => return Ok(store.log_row(&row.result_object_id).unwrap()),
        Ok(Prepared::Fresh) => {},
    }
    match validate_object_id_for_type(&checks.id_type, "LogEntry") {
        Err(e) => return Err(e),
        Ok(_) => {},
    }
    match &checks.provenance {
        Err(m) => return Err(StoreError::Json(m.clone())),
        Ok(_) => {},
    }
    if same_text(&record.event_type, "recalculation_requested") {
        match &checks.trigger {
            Err(m) => return Err(StoreError::Json(m.clone())),
            Ok(_) => {},
        }
    }
    match &checks.created_at {
        Err(e) => return Err(StoreError::Core(e.clone_core())),
        Ok(_) => {},
    }
    if store.log_row(&record.id).is_some() {
        return Err(StoreError::Sqlx(DatabaseError::UniqueViolation { table: Table::Logs, key: record.id }));
    }
    let row = LogRecord {
        id: record.id,
        event_type: record.event_type,
        object_refs_json: record.object_refs,
        payload_json: record.payload,
        provenance_json: record.provenance,
        created_at: record.created_at,
    };
    let answer = row.duplicate();
    let result_id = row.id.clone();
    store.insert_log(row);
    store.record_mutation(envelope, canonical_payload, result_id, 0);
    Ok(answer)
}

// ---------------------------------------------------------------------------
// External references
// ---------------------------------------------------------------------------

/// What the core crate said of a submitted record's id and creation time.
#[derive(Debug)]
pub struct RecordChecks {
    /// The id parser on the record id.
    pub id_type: Result<ObjectType, CoreError>,
    /// The timestamp parser on `created_at`.
    pub created_at: Result<(), CoreError>,
}

/// A record's id must be of the given type and its creation time must parse.
pub open spec fn record_verdict(declared: Seq<char>, checks: RecordChecks) -> Result<(), StoreErrorView> {
    and_check(id_check(checks.id_type, declared), core_verdict(checks.created_at))
}

fn check_record(declared: &str, checks: &RecordChecks) -> (r: Result<(), StoreError>)
    ensures
        outcome(r) == record_verdict(declared@, *checks),
{
    match validate_object_id_for_type(&checks.id_type, declared) {
        Err(e) => return Err(e),
        Ok(_) => {},
    }
    match &checks.created_at {
        Err(e) => Err(StoreError::Core(e.clone_core())),
        Ok(_) => Ok(()),
    }
}

/// The row a stored external reference becomes.
pub open spec fn xref_row_of(record: NewExternalReferenceRecord) -> ExternalReferenceRecord {
    ExternalReferenceRecord {
        id: record.id,
        source_type: record.source_type,
        source_id: record.source_id,
        url: record.url,
        payload_hash: record.payload_hash,
        payload_json: record.payload,
        created_at: record.created_at,
    }
}

/// What storing an external reference does: after the shared checks, a replay
/// answers the recorded reference; a fresh one needs an ExternalReference id, a
/// parsable creation time and a new id, and is appended with one ledger row
/// (result version zero). Refusals change nothing.
pub open spec fn store_external_reference_spec(s: StoreView, envelope: MutationEnvelope, record: NewExternalReferenceRecord, canonical_payload: String, checks: RecordChecks) -> (StoreView, Result<ExternalReferenceRecord, StoreErrorView>) {
    match prepare_verdict(s, envelope, canonical_payload@, MutationTarget::ExternalReference) {
        Err(e) => (s, Err(e)),
        Ok(Prepared::Replay(row)) => (s, Ok(find(s.external_references, xref_key(), row.result_object_id@).unwrap())),
        Ok(Prepared::Fresh) => match record_verdict("ExternalReference"@, checks) {
            Err(e) => (s, Err(e)),
            Ok(_) => if has_key(s.external_references, xref_key(), record.id@) {
                (s, Err(StoreErrorView::Sqlx(DatabaseErrorView::UniqueViolation { table: Table::ExternalReferences, key: record.id@ })))
            } else {
                let row = xref_row_of(record);
                (
                    StoreView {
                        external_references: s.external_references.push(row),
                        ledger: s.ledger.push(ledger_row(envelope, canonical_payload, row.id, 0)),
                        ..s
                    },
                    Ok(row),
                )
            },
        },
    }
}

/// Store one external reference with its envelope (see `store_external_reference_spec`).
pub fn store_external_reference(store: &mut UbuStore, envelope: &MutationEnvelope, record: NewExternalReferenceRecord, canonical_payload: String, checks: &RecordChecks) -> (r: Result<ExternalReferenceRecord, StoreError>)
    requires
        old(store).wf(),
    ensures
        final(store).wf(),
        (final(store)@, outcome(r)) == store_external_reference_spec(old(store)@, *envelope, record, canonical_payload, *checks),
{
    match store.prepare_mutation(envelope, &canonical_payload, MutationTarget::ExternalReference) {
        Err(e) => return Err(e),
        Ok(Prepared::Replay(row)) => return Ok(store.xref_row(&row.result_object_id).unwrap()),
        Ok(Prepared::Fresh) => {},
    }
    match check_record("ExternalReference", checks) {
        Err(e) => return Err(e),
        Ok(_) => {},
    }
    if store.xref_row(&record.id).is_some() {
        return Err(StoreError::Sqlx(DatabaseError::UniqueViolation { table: Table::ExternalReferences, key: record.id }));
    }
    let row = ExternalReferenceRecord {
        id: record.id,
        source_type: record.source_type,
        source_id: record.source_id,
        url: record.url,
        payload_hash: record.payload_hash,
        payload_json: record.payload,
        created_at: record.created_at,
    };
    let answer = row.duplicate();
    let result_id = row.id.clone();
    store.insert_xref(row);
    store.record_mutation(envelope, canonical_payload, result_id, 0);
    Ok(answer)
}

// ---------------------------------------------------------------------------
// UniverseState
// ---------------------------------------------------------------------------

/// The record a UniverseState update is checked as: the current object's status,
/// label and creation time, the next version, the new payload, and the envelope's
/// recorded time as its update time.
pub open spec fn universe_record(current: ObjectRecord, payload: Seq<char>, version: i64, recorded_time: Seq<char>) -> NewObjectView {
    NewObjectView {
        id: current.id@,
        object_type: "UniverseState"@,
        version,
        status: current.status@,
        compartment_label: current.compartment_label@,
        payload,
        created_at: current.created_at@,
        updated_at: recorded_time,
    }
}

/// The payload a UniverseState update stores: the state's JSON, with the current
/// payload's `schema_version` member carried over where it has one, and the
/// supplied provenance as its `provenance` member.
pub open spec fn universe_payload(current_payload: Seq<char>, state_json: Seq<char>, provenance_json: Seq<char>) -> Seq<char> {
    let carried = match json_member_json_of(current_payload, "schema_version"@) {
        Some(version) => json_doc_with_member(state_json, "schema_version"@, version),
        None => state_json,
    };
    json_doc_with_member(carried, "provenance"@, provenance_json)
}

/// What persisting an updated UniverseState does: after the shared checks, a
/// replay answers the recorded object's current state. A fresh request needs a
/// precondition on the state's id that names an existing version; the state
/// becomes the next version of that object (keeping its status, label and
/// creation time, updated at the envelope's recorded time) with the payload
/// `universe_payload` builds from the current payload, checked by the admission
/// rules, and is recorded with one ledger row. `stored` is the text the written
/// row holds (whose characters `persist_universe_state` fixes to that payload).
/// Refusals change nothing.
pub open spec fn persist_universe_state_spec(s: StoreView, envelope: MutationEnvelope, state_id: String, state_json: String, provenance_json: String, stored: String, canonical_payload: String, checks: ObjectChecks) -> (StoreView, Result<ObjectRecord, StoreErrorView>) {
    match prepare_verdict(s, envelope, canonical_payload@, MutationTarget::Object) {
        Err(e) => (s, Err(e)),
        Ok(Prepared::Replay(row)) => match s.object(row.result_object_id@) {
            Some(o) => (s, Ok(o)),
            None => (s, Err(StoreErrorView::RecordedMutationObjectMissing { object_id: row.result_object_id@ })),
        },
        Ok(Prepared::Fresh) => match target_expectation(envelope.observed_versions@, state_id@) {
            None => (s, Err(StoreErrorView::MissingTargetPrecondition { object_id: state_id@ })),
            Some(VersionRef::Absent) => (s, Err(StoreErrorView::PreconditionFailed {
                object_id: state_id@,
                expected: expected_label(VersionRef::Absent),
                actual: actual_label(s.actual_version(state_id@)),
            })),
            Some(VersionRef::Version(v)) => if v >= max_store_version() {
                (s, Err(StoreErrorView::ObjectVersionExhausted { object_id: state_id@, version: v }))
            } else {
                let current = s.object(state_id@).unwrap();
                let built = universe_payload(current.payload_json@, state_json@, provenance_json@);
                match object_record_verdict(universe_record(current, built, (v + 1) as i64, envelope.recorded_time@), checks) {
                    Err(e) => (s, Err(e)),
                    Ok(_) => {
                        let row = ObjectRecord {
                            version: (v + 1) as i64,
                            payload_json: stored,
                            updated_at: envelope.recorded_time,
                            ..current
                        };
                        (
                            StoreView {
                                objects: put_object(s.objects, row),
                                ledger: s.ledger.push(ledger_row(envelope, canonical_payload, row.id, row.version)),
                                ..s
                            },
                            Ok(row),
                        )
                    },
                }
            },
        },
    }
}

/// The text of `universe_payload`.
fn universe_payload_text(current_payload: &str, state_json: &str, provenance_json: &str) -> (r: String)
    ensures
        r@ == universe_payload(current_payload@, state_json@, provenance_json@),
{
    let carried = match json_member_json(current_payload, "schema_version") {
        Some(version) => json_set_member(state_json, "schema_version", &version),
        None => state_json.to_owned(),
    };
    json_set_member(&carried, "provenance", provenance_json)
}

/// Persist an updated UniverseState as the new current version of its object
/// (see `persist_universe_state_spec`). `state_json` is the state serialized;
/// `provenance_json` the provenance to stamp on it (carrying the authority
/// source); `canonical_payload` is the canonical form of the state and authority
/// source, which replays compare. When it writes, the stored payload is
/// `universe_payload` of the current payload.
pub fn persist_universe_state(store: &mut UbuStore, envelope: &MutationEnvelope, state_id: String, state_json: String, provenance_json: String, canonical_payload: String, checks: &ObjectChecks) -> (r: Result<ObjectRecord, StoreError>)
    requires
        old(store).wf(),
    ensures
        final(store).wf(),
        (final(store)@, outcome(r)) == persist_universe_state_spec(old(store)@, *envelope, state_id, state_json, provenance_json,
            match r { Ok(row) => row.payload_json, Err(_) => state_json }, canonical_payload, *checks),
        final(store)@ != old(store)@ ==> (r matches Ok(row) && row.payload_json@
            == universe_payload(old(store)@.object(state_id@).unwrap().payload_json@, state_json@, provenance_json@)),
{
    match store.prepare_mutation(envelope, &canonical_payload, MutationTarget::Object) {
        Err(e) => return Err(e),
        Ok(Prepared::Replay(row)) => {
            return match store.current_object(&row.result_object_id) {
                Some(o) => Ok(o),
                None => Err(StoreError::RecordedMutationObjectMissing { object_id: row.result_object_id }),
            };
        },
        Ok(Prepared::Fresh) => {},
    }
    proof {
        lemma_preconditions_hold(store@, envelope.observed_versions@);
    }
    let expected = match find_target_expectation(&envelope.observed_versions, &state_id) {
        None => return Err(StoreError::MissingTargetPrecondition { object_id: state_id }),
        Some(v) => v,
    };
    proof {
        lemma_target_matches(store@, envelope.observed_versions@, state_id@, 0);
    }
    let v = match expected {
        VersionRef::Absent => {
            let actual = match store.current_object(&state_id) {
                Some(o) => {
                    assert(o.version >= 1) by {
                        let i = choose|i: int| 0 <= i < store@.objects.len() && crate::store::object_key()(store@.objects[i]) == state_id@;
                        crate::store::lemma_find_at(store@.objects, crate::store::object_key(), i);
                    }
                    render_version_label(Some(o.version as u64))
                },
                None => render_version_label(None),
            };
            return Err(StoreError::PreconditionFailed {
                object_id: state_id,
                expected: render_version_label(None),
                actual,
            });
        },
        VersionRef::Version(v) => v,
    };
    if v >= 0x7fff_ffff_ffff_ffff {
        return Err(StoreError::ObjectVersionExhausted { object_id: state_id, version: v });
    }
    let current = store.current_object(&state_id).unwrap();
    let version = (v + 1) as i64;
    let payload = universe_payload_text(&current.payload_json, &state_json, &provenance_json);
    let record = NewObjectRecord {
        id: current.id.clone(),
        object_type: "UniverseState".to_owned(),
        version,
        status: current.status.clone(),
        compartment_label: current.compartment_label.clone(),
        payload: payload.clone(),
        created_at: current.created_at.clone(),
        updated_at: envelope.recorded_time.clone(),
    };
    assert(record@ == universe_record(current, payload@, version, envelope.recorded_time@));
    match validate_object_record(&record, checks) {
        Err(e) => return Err(e),
        Ok(_) => {},
    }
    let row = ObjectRecord {
        id: current.id,
        object_type: current.object_type,
        version,
        status: current.status,
        compartment_label: current.compartment_label,
        payload_json: payload,
        created_at: current.created_at,
        updated_at: envelope.recorded_time.clone(),
    };
    let answer = row.duplicate();
    let result_id = row.id.clone();
    store.put_object_row(row);
    store.record_mutation(envelope, canonical_payload, result_id, version);
    Ok(answer)
}

// ---------------------------------------------------------------------------
// The envelope-free candidate object writer
// ---------------------------------------------------------------------------

/// A candidate object submitted for direct insertion: its id, declared type and
/// payload (JSON text).
#[derive(Debug, Clone, PartialEq, Eq)]
pub struct CandidateObject {
    pub candidate_id: String,
    pub object_type: String,
    pub payload: String,
}

/// The record a candidate object is checked as: active, version 1, in the given
/// Compartment, created and updated now.
pub open spec fn candidate_object_record(candidate: CandidateObject, compartment_label: Seq<char>, now: Seq<char>) -> NewObjectView {
    NewObjectView {
        id: candidate.candidate_id@,
        object_type: candidate.object_type@,
        version: 1,
        status: "active"@,
        compartment_label,
        payload: candidate.payload@,
        created_at: now,
        updated_at: now,
    }
}

/// Whether a candidate object may be inserted: it must pass the admission rules
/// as `candidate_object_record`, and its id must be new.
pub open spec fn candidate_object_verdict(s: StoreView, candidate: CandidateObject, compartment_label: Seq<char>, now: Seq<char>, checks: ObjectChecks) -> Result<(), StoreErrorView> {
    match object_record_verdict(candidate_object_record(candidate, compartment_label, now), checks) {
        Err(e) => Err(e),
        Ok(_) => if has_key(s.objects, object_key(), candidate.candidate_id@) {
            Err(StoreErrorView::Sqlx(DatabaseErrorView::UniqueViolation { table: Table::Objects, key: candidate.candidate_id@ }))
        } else {
            Ok(())
        },
    }
}

/// Insert a candidate object as an active version-1 canonical object, without an
/// envelope and without a ledger row: the one envelope-free writer of canonical
/// objects, kept for the candidate objects that are still submitted this way.
/// `now` is the time the insertion is stamped with; `checks` is what the core
/// crate and the JSON reader said of the object's parts. On success the new row is
/// appended to the objects and nothing else changes; a refusal changes nothing.
pub fn admit_candidate_object(store: &mut UbuStore, candidate: CandidateObject, compartment_label: &str, now: String, checks: &ObjectChecks) -> (r: Result<ObjectRecord, StoreError>)
    requires
        old(store).wf(),
    ensures
        final(store).wf(),
        match candidate_object_verdict(old(store)@, candidate, compartment_label@, now@, *checks) {
            Err(e) => r matches Err(x) && x@ == e && final(store)@ == old(store)@,
            Ok(_) => r matches Ok(row)
                && row.id == candidate.candidate_id
                && row.object_type == candidate.object_type
                && row.version == 1
                && row.status@ == "active"@
                && row.compartment_label@ == compartment_label@
                && row.payload_json == candidate.payload
                && row.created_at == now
                && row.updated_at == now
                && final(store)@ == (StoreView { objects: old(store)@.objects.push(row), ..old(store)@ }),
        },
{
    let record = NewObjectRecord {
        id: candidate.candidate_id.clone(),
        object_type: candidate.object_type.clone(),
        version: 1,
        status: "active".to_owned(),
        compartment_label: compartment_label.to_owned(),
        payload: candidate.payload.clone(),
        created_at: now.clone(),
        updated_at: now.clone(),
    };
    proof {
        reveal_strlit("active");
    }
    assert(record@ == candidate_object_record(candidate, compartment_label@, now@));
    match validate_object_record(&record, checks) {
        Err(e) => return Err(e),
        Ok(_) => {},
    }
    if store.current_object(&candidate.candidate_id).is_some() {
        return Err(StoreError::Sqlx(DatabaseError::UniqueViolation { table: Table::Objects, key: candidate.candidate_id }));
    }
    let row = ObjectRecord {
        id: candidate.candidate_id,
        object_type: candidate.object_type,
        version: 1,
        status: record.status,
        compartment_label: record.compartment_label,
        payload_json: candidate.payload,
        created_at: now,
        updated_at: record.updated_at,
    };
    let answer = row.duplicate();
    store.put_object_row(row);
    Ok(answer)
}

// ---------------------------------------------------------------------------
// Envelope-exempt artifacts
// ---------------------------------------------------------------------------

/// The row a stored plan becomes.
pub open spec fn plan_row_of(record: NewPlanRecord) -> PlanRecord {
    PlanRecord {
        id: record.id,
        request_id: record.request_id,
        status: record.status,
        payload_json: record.payload,
        created_at: record.created_at,
    }
}

/// What storing a plan does: a Plan id, a parsable creation time and a new id;
/// then the plan is appended. Refusals change nothing.
pub open spec fn store_plan_spec(s: StoreView, record: NewPlanRecord, checks: RecordChecks) -> (StoreView, Result<PlanRecord, StoreErrorView>) {
    match record_verdict("Plan"@, checks) {
        Err(e) => (s, Err(e)),
        Ok(_) => if has_key(s.plans, plan_key(), record.id@) {
            (s, Err(StoreErrorView::Sqlx(DatabaseErrorView::UniqueViolation { table: Table::Plans, key: record.id@ })))
        } else {
            (StoreView { plans: s.plans.push(plan_row_of(record)), ..s }, Ok(plan_row_of(record)))
        },
    }
}

/// Store a derived plan (see `store_plan_spec`). No envelope: plans are derived
/// artifacts, not canonical admission.
pub fn store_plan(store: &mut UbuStore, record: NewPlanRecord, checks: &RecordChecks) -> (r: Result<PlanRecord, StoreError>)
    requires
        old(store).wf(),
    ensures
        final(store).wf(),
        (final(store)@, outcome(r)) == store_plan_spec(old(store)@, record, *checks),
{
    match check_record("Plan", checks) {
        Err(e) => return Err(e),
        Ok(_) => {},
    }
    if store.plan_row(&record.id).is_some() {
        return Err(StoreError::Sqlx(DatabaseError::UniqueViolation { table: Table::Plans, key: record.id }));
    }
    let row = PlanRecord {
        id: record.id,
        request_id: record.request_id,
        status: record.status,
        payload_json: record.payload,
        created_at: record.created_at,
    };
    let answer = row.duplicate();
    store.insert_plan(row);
    Ok(answer)
}

/// What the core crate said of a submitted calendar's ids and times.
#[derive(Debug)]
pub struct CalendarChecks {
    /// The id parser on the calendar id.
    pub id_type: Result<ObjectType, CoreError>,
    /// The id parser on the plan id.
    pub plan_id_type: Result<ObjectType, CoreError>,
    /// The timestamp parser on `window_start`.
    pub window_start: Result<(), CoreError>,
    /// The timestamp parser on `window_end`.
    pub window_end: Result<(), CoreError>,
    /// The timestamp parser on `created_at`.
    pub created_at: Result<(), CoreError>,
}

/// A calendar needs a Calendar id, a Plan id for its plan, and parsable window
/// and creation times, checked in this order.
pub open spec fn calendar_verdict(checks: CalendarChecks) -> Result<(), StoreErrorView> {
    and_check(id_check(checks.id_type, "Calendar"@),
    and_check(id_check(checks.plan_id_type, "Plan"@),
    and_check(core_verdict(checks.window_start),
    and_check(core_verdict(checks.window_end),
    core_verdict(checks.created_at)))))
}

/// The row a stored calendar becomes.
pub open spec fn calendar_row_of(record: NewCalendarRecord) -> CalendarRecord {
    CalendarRecord {
        id: record.id,
        plan_id: record.plan_id,
        window_start: record.window_start,
        window_end: record.window_end,
        payload_json: record.payload,
        created_at: record.created_at,
    }
}

/// What storing a calendar does: the calendar checks and a new id; then the
/// calendar is appended. Refusals change nothing.
pub open spec fn store_calendar_spec(s: StoreView, record: NewCalendarRecord, checks: CalendarChecks) -> (StoreView, Result<CalendarRecord, StoreErrorView>) {
    match calendar_verdict(checks) {
        Err(e) => (s, Err(e)),
        Ok(_) => if has_key(s.calendars, calendar_key(), record.id@) {
            (s, Err(StoreErrorView::Sqlx(DatabaseErrorView::UniqueViolation { table: Table::Calendars, key: record.id@ })))
        } else {
            (StoreView { calendars: s.calendars.push(calendar_row_of(record)), ..s }, Ok(calendar_row_of(record)))
        },
    }
}

/// Store a derived calendar (see `store_calendar_spec`).
pub fn store_calendar(store: &mut UbuStore, record: NewCalendarRecord, checks: &CalendarChecks) -> (r: Result<CalendarRecord, StoreError>)
    requires
        old(store).wf(),
    ensures
        final(store).wf(),
        (final(store)@, outcome(r)) == store_calendar_spec(old(store)@, record, *checks),
{
    match validate_object_id_for_type(&checks.id_type, "Calendar") {
        Err(e) => return Err(e),
        Ok(_) => {},
    }
    match validate_object_id_for_type(&checks.plan_id_type, "Plan") {
        Err(e) => return Err(e),
        Ok(_) => {},
    }
    match &checks.window_start {
        Err(e) => return Err(StoreError::Core(e.clone_core())),
        Ok(_) => {},
    }
    match &checks.window_end {
        Err(e) => return Err(StoreError::Core(e.clone_core())),
        Ok(_) => {},
    }
    match &checks.created_at {
        Err(e) => return Err(StoreError::Core(e.clone_core())),
        Ok(_) => {},
    }
    if store.calendar_row(&record.id).is_some() {
        return Err(StoreError::Sqlx(DatabaseError::UniqueViolation { table: Table::Calendars, key: record.id }));
    }
    let row = CalendarRecord {
        id: record.id,
        plan_id: record.plan_id,
        window_start: record.window_start,
        window_end: record.window_end,
        payload_json: record.payload,
        created_at: record.created_at,
    };
    let answer = row.duplicate();
    store.insert_calendar(row);
    Ok(answer)
}

/// What the core crate said of a worker submission's parts.
#[derive(Debug)]
pub struct WorkerSubmissionChecks {
    /// The id parser on the submission id.
    pub id_type: Result<ObjectType, CoreError>,
    /// The authority source read as a core AuthoritySource.
    pub authority_source: Result<(), String>,
    /// The timestamp parser on `submitted_at`.
    pub submitted_at: Result<(), CoreError>,
    /// The timestamp parser on `created_at`.
    pub created_at: Result<(), CoreError>,
}

/// A worker submission needs an AutomationWorker id, a known object type, an
/// authority source and parsable times, checked in this order.
pub open spec fn worker_submission_verdict(record: NewWorkerSubmissionRecord, checks: WorkerSubmissionChecks) -> Result<(), StoreErrorView> {
    and_check(id_check(checks.id_type, "AutomationWorker"@),
    and_check(if type_named(record.object_type@) is None {
            Err(StoreErrorView::UnknownObjectType(record.object_type@))
        } else {
            Ok(())
        },
    and_check(json_verdict(checks.authority_source),
    and_check(core_verdict(checks.submitted_at),
    core_verdict(checks.created_at)))))
}

/// The row a stored worker submission becomes.
pub open spec fn submission_row_of(record: NewWorkerSubmissionRecord) -> WorkerSubmissionRecord {
    WorkerSubmissionRecord {
        id: record.id,
        candidate_id: record.candidate_id,
        object_type: record.object_type,
        status: record.status,
        payload_json: record.payload,
        authority_source: record.authority_source,
        submitted_at: record.submitted_at,
        created_at: record.created_at,
    }
}

/// What storing a worker submission does: the submission checks and a new id;
/// then the submission is appended. It never becomes canonical by itself.
pub open spec fn store_worker_submission_spec(s: StoreView, record: NewWorkerSubmissionRecord, checks: WorkerSubmissionChecks) -> (StoreView, Result<WorkerSubmissionRecord, StoreErrorView>) {
    match worker_submission_verdict(record, checks) {
        Err(e) => (s, Err(e)),
        Ok(_) => if has_key(s.worker_submissions, submission_key(), record.id@) {
            (s, Err(StoreErrorView::Sqlx(DatabaseErrorView::UniqueViolation { table: Table::WorkerSubmissions, key: record.id@ })))
        } else {
            (StoreView { worker_submissions: s.worker_submissions.push(submission_row_of(record)), ..s }, Ok(submission_row_of(record)))
        },
    }
}

/// Store a noncanonical worker submission (see `store_worker_submission_spec`).
pub fn store_worker_submission(store: &mut UbuStore, record: NewWorkerSubmissionRecord, checks: &WorkerSubmissionChecks) -> (r: Result<WorkerSubmissionRecord, StoreError>)
    requires
        old(store).wf(),
    ensures
        final(store).wf(),
        (final(store)@, outcome(r)) == store_worker_submission_spec(old(store)@, record, *checks),
{
    match validate_object_id_for_type(&checks.id_type, "AutomationWorker") {
        Err(e) => return Err(e),
        Ok(_) => {},
    }
    match object_type_from_str(&record.object_type) {
        Err(e) => return Err(e),
        Ok(_) => {},
    }
    match &checks.authority_source {
        Err(m) => return Err(StoreError::Json(m.clone())),
        Ok(_) => {},
    }
    match &checks.submitted_at {
        Err(e) => return Err(StoreError::Core(e.clone_core())),
        Ok(_) => {},
    }
    match &checks.created_at {
        Err(e) => return Err(StoreError::Core(e.clone_core())),
        Ok(_) => {},
    }
    if store.submission_row(&record.id).is_some() {
        return Err(StoreError::Sqlx(DatabaseError::UniqueViolation { table: Table::WorkerSubmissions, key: record.id }));
    }
    let row = WorkerSubmissionRecord {
        id: record.id,
        candidate_id: record.candidate_id,
        object_type: record.object_type,
        status: record.status,
        payload_json: record.payload,
        authority_source: record.authority_source,
        submitted_at: record.submitted_at,
        created_at: record.created_at,
    };
    let answer = row.duplicate();
    store.insert_submission(row);
    Ok(answer)
}

/// The row a stored projection preview becomes.
pub open spec fn preview_row_of(record: NewProjectionPreviewRecord) -> ProjectionPreviewRecord {
    ProjectionPreviewRecord {
        id: record.id,
        request_id: record.request_id,
        status: record.status,
        payload_json: record.payload,
        created_at: record.created_at,
    }
}

/// What storing a projection preview does: a ProjectionPreview id, a parsable
/// creation time and a new id; then the preview is appended.
pub open spec fn store_projection_preview_spec(s: StoreView, record: NewProjectionPreviewRecord, checks: RecordChecks) -> (StoreView, Result<ProjectionPreviewRecord, StoreErrorView>) {
    match record_verdict("ProjectionPreview"@, checks) {
        Err(e) => (s, Err(e)),
        Ok(_) => if has_key(s.projection_previews, preview_key(), record.id@) {
            (s, Err(StoreErrorView::Sqlx(DatabaseErrorView::UniqueViolation { table: Table::ProjectionPreviews, key: record.id@ })))
        } else {
            (StoreView { projection_previews: s.projection_previews.push(preview_row_of(record)), ..s }, Ok(preview_row_of(record)))
        },
    }
}

/// Store a projection preview (see `store_projection_preview_spec`).
pub fn store_projection_preview(store: &mut UbuStore, record: NewProjectionPreviewRecord, checks: &RecordChecks) -> (r: Result<ProjectionPreviewRecord, StoreError>)
    requires
        old(store).wf(),
    ensures
        final(store).wf(),
        (final(store)@, outcome(r)) == store_projection_preview_spec(old(store)@, record, *checks),
{
    match check_record("ProjectionPreview", checks) {
        Err(e) => return Err(e),
        Ok(_) => {},
    }
    if store.preview_row(&record.id).is_some() {
        return Err(StoreError::Sqlx(DatabaseError::UniqueViolation { table: Table::ProjectionPreviews, key: record.id }));
    }
    let row = ProjectionPreviewRecord {
        id: record.id,
        request_id: record.request_id,
        status: record.status,
        payload_json: record.payload,
        created_at: record.created_at,
    };
    let answer = row.duplicate();
    store.insert_preview(row);
    Ok(answer)
}

/// What the core crate said of a projection result's ids and creation time.
#[derive(Debug)]
pub struct ProjectionResultChecks {
    /// The id parser on the result id (any registered type).
    pub id: Result<(), CoreError>,
    /// The id parser on the preview id.
    pub preview_id_type: Result<ObjectType, CoreError>,
    /// The timestamp parser on `created_at`.
    pub created_at: Result<(), CoreError>,
}

/// A projection result needs a parsable id, a ProjectionPreview id for its
/// preview and a parsable creation time, checked in this order.
pub open spec fn projection_result_verdict(checks: ProjectionResultChecks) -> Result<(), StoreErrorView> {
    and_check(core_verdict(checks.id),
    and_check(id_check(checks.preview_id_type, "ProjectionPreview"@),
    core_verdict(checks.created_at)))
}

/// The row a stored projection result becomes.
pub open spec fn result_row_of(record: NewProjectionResultRecord) -> ProjectionResultRecord {
    ProjectionResultRecord {
        id: record.id,
        preview_id: record.preview_id,
        status: record.status,
        payload_json: record.payload,
        created_at: record.created_at,
    }
}

/// What storing a projection result does: the result checks and a new id; then
/// the result is appended.
pub open spec fn store_projection_result_spec(s: StoreView, record: NewProjectionResultRecord, checks: ProjectionResultChecks) -> (StoreView, Result<ProjectionResultRecord, StoreErrorView>) {
    match projection_result_verdict(checks) {
        Err(e) => (s, Err(e)),
        Ok(_) => if has_key(s.projection_results, result_key(), record.id@) {
            (s, Err(StoreErrorView::Sqlx(DatabaseErrorView::UniqueViolation { table: Table::ProjectionResults, key: record.id@ })))
        } else {
            (StoreView { projection_results: s.projection_results.push(result_row_of(record)), ..s }, Ok(result_row_of(record)))
        },
    }
}

/// Store a projection result (see `store_projection_result_spec`).
pub fn store_projection_result(store: &mut UbuStore, record: NewProjectionResultRecord, checks: &ProjectionResultChecks) -> (r: Result<ProjectionResultRecord, StoreError>)
    requires
        old(store).wf(),
    ensures
        final(store).wf(),
        (final(store)@, outcome(r)) == store_projection_result_spec(old(store)@, record, *checks),
{
    match &checks.id {
        Err(e) => return Err(StoreError::Core(e.clone_core())),
        Ok(_) => {},
    }
    match validate_object_id_for_type(&checks.preview_id_type, "ProjectionPreview") {
        Err(e) => return Err(e),
        Ok(_) => {},
    }
    match &checks.created_at {
        Err(e) => return Err(StoreError::Core(e.clone_core())),
        Ok(_) => {},
    }
    if store.result_row(&record.id).is_some() {
        return Err(StoreError::Sqlx(DatabaseError::UniqueViolation { table: Table::ProjectionResults, key: record.id }));
    }
    let row = ProjectionResultRecord {
        id: record.id,
        preview_id: record.preview_id,
        status: record.status,
        payload_json: record.payload,
        created_at: record.created_at,
    };
    let answer = row.duplicate();
    store.insert_result(row);
    Ok(answer)
}

// ---------------------------------------------------------------------------
// Admitted-state reads
// ---------------------------------------------------------------------------

/// Log entries oldest first (by `created_at` text).
pub struct LogsOldestFirst;

impl RowOrder<LogRecord> for LogsOldestFirst {
    open spec fn before(a: LogRecord, b: LogRecord) -> bool {
        text_less(a.created_at@, b.created_at@)
    }

    fn precedes(a: &LogRecord, b: &LogRecord) -> (r: bool) {
        text_precedes(&a.created_at, &b.created_at)
    }
}

/// Log entries newest first (by `created_at` text).
pub struct LogsNewestFirst;

impl RowOrder<LogRecord> for LogsNewestFirst {
    open spec fn before(a: LogRecord, b: LogRecord) -> bool {
        text_less(b.created_at@, a.created_at@)
    }

    fn precedes(a: &LogRecord, b: &LogRecord) -> (r: bool) {
        text_precedes(&b.created_at, &a.created_at)
    }
}

/// Objects most recently updated first (by `updated_at` text).
pub struct ObjectsRecentFirst;

impl RowOrder<ObjectRecord> for ObjectsRecentFirst {
    open spec fn before(a: ObjectRecord, b: ObjectRecord) -> bool {
        text_less(b.updated_at@, a.updated_at@)
    }

    fn precedes(a: &ObjectRecord, b: &ObjectRecord) -> (r: bool) {
        text_precedes(&b.updated_at, &a.updated_at)
    }
}

/// External references newest first (by `created_at` text).
pub struct ReferencesNewestFirst;

impl RowOrder<ExternalReferenceRecord> for ReferencesNewestFirst {
    open spec fn before(a: ExternalReferenceRecord, b: ExternalReferenceRecord) -> bool {
        text_less(b.created_at@, a.created_at@)
    }

    fn precedes(a: &ExternalReferenceRecord, b: &ExternalReferenceRecord) -> (r: bool) {
        text_precedes(&b.created_at, &a.created_at)
    }
}

/// Each admitted-state read order is a strict order.
pub proof fn lemma_read_orders_strict()
    ensures
        strict_order(order_of::<LogRecord, LogsOldestFirst>()),
        strict_order(order_of::<LogRecord, LogsNewestFirst>()),
        strict_order(order_of::<ObjectRecord, ObjectsRecentFirst>()),
        strict_order(order_of::<ExternalReferenceRecord, ReferencesNewestFirst>()),
{
    assert forall|a: Seq<char>, b: Seq<char>| text_less(a, b) implies !text_less(b, a) by {
        lemma_text_less_asymmetric(a, b);
    }
    assert forall|a: Seq<char>, b: Seq<char>, c: Seq<char>| text_less(a, b) && text_less(b, c) implies text_less(a, c) by {
        lemma_text_less_transitive(a, b, c);
    }
}

/// Log entries whose object references match `%id%` under LIKE.
pub struct RefersTo {
    pub id: String,
}

impl RowFilter<LogRecord> for RefersTo {
    open spec fn keeps(&self, r: LogRecord) -> bool {
        like_contains(r.object_refs_json@, self.id@)
    }

    fn matches(&self, r: &LogRecord) -> (b: bool) {
        text_like_contains(&r.object_refs_json, &self.id)
    }
}

/// Log entries of one event type.
pub struct EventTypeIs {
    pub event_type: String,
}

impl RowFilter<LogRecord> for EventTypeIs {
    open spec fn keeps(&self, r: LogRecord) -> bool {
        r.event_type@ == self.event_type@
    }

    fn matches(&self, r: &LogRecord) -> (b: bool) {
        same_text(&r.event_type, &self.event_type)
    }
}

/// Objects that are active Tasks.
pub struct ActiveTasks;

impl RowFilter<ObjectRecord> for ActiveTasks {
    open spec fn keeps(&self, r: ObjectRecord) -> bool {
        r.object_type@ == "Task"@ && r.status@ == "active"@
    }

    fn matches(&self, r: &ObjectRecord) -> (b: bool) {
        same_text(&r.object_type, "Task") && same_text(&r.status, "active")
    }
}

/// External references of one source type, or all of them.
pub struct SourceTypeIs {
    pub source_type: Option<String>,
}

impl RowFilter<ExternalReferenceRecord> for SourceTypeIs {
    open spec fn keeps(&self, r: ExternalReferenceRecord) -> bool {
        match self.source_type {
            Some(t) => r.source_type@ == t@,
            None => true,
        }
    }

    fn matches(&self, r: &ExternalReferenceRecord) -> (b: bool) {
        match &self.source_type {
            Some(t) => same_text(&r.source_type, t),
            None => true,
        }
    }
}

/// The log entries whose object references match the LIKE pattern `%id%`
/// (`_` in the id stands for any one character, ASCII letters match in either
/// case), oldest first.
pub open spec fn object_history(s: StoreView, id: Seq<char>) -> Seq<LogRecord> {
    stable_sort(keep(s.logs, |r: LogRecord| like_contains(r.object_refs_json@, id)), order_of::<LogRecord, LogsOldestFirst>())
}

/// The history of object `object_id` from the logs: every entry whose object
/// references match the LIKE pattern `%id%`, oldest first. `parsed` is what the core id parser
/// said of the id; an unparsable id is refused.
pub fn get_object_history(store: &UbuStore, object_id: &str, parsed: &Result<(), CoreError>) -> (r: Result<Vec<LogRecord>, StoreError>)
    ensures
        match parsed {
            Err(e) => r matches Err(x) && x@ == StoreErrorView::Core(e@),
            Ok(_) => r matches Ok(v) && v@ == object_history(store@, object_id@),
        },
{
    match parsed {
        Err(e) => return Err(StoreError::Core(e.clone_core())),
        Ok(_) => {},
    }
    let filter = RefersTo { id: object_id.to_owned() };
    let selected = store.select_logs(&filter);
    assert((|r: LogRecord| filter.keeps(r)) =~= (|r: LogRecord| like_contains(r.object_refs_json@, object_id@)));
    Ok(sort_rows::<LogRecord, LogsOldestFirst>(selected))
}

/// The active Tasks, most recently updated first.
pub open spec fn active_tasks(s: StoreView) -> Seq<ObjectRecord> {
    stable_sort(keep(s.objects, |r: ObjectRecord| r.object_type@ == "Task"@ && r.status@ == "active"@), order_of::<ObjectRecord, ObjectsRecentFirst>())
}

/// The active Tasks, most recently updated first.
pub fn query_active_tasks(store: &UbuStore) -> (r: Vec<ObjectRecord>)
    ensures
        r@ == active_tasks(store@),
{
    let filter = ActiveTasks;
    let selected = store.select_objects(&filter);
    assert((|r: ObjectRecord| filter.keeps(r)) =~= (|r: ObjectRecord| r.object_type@ == "Task"@ && r.status@ == "active"@));
    sort_rows::<ObjectRecord, ObjectsRecentFirst>(selected)
}

/// The external references of a source type (all of them when none is given),
/// newest first.
pub open spec fn external_references_of(s: StoreView, source_type: Option<Seq<char>>) -> Seq<ExternalReferenceRecord> {
    stable_sort(
        keep(s.external_references, |r: ExternalReferenceRecord| match source_type {
            Some(t) => r.source_type@ == t,
            None => true,
        }),
        order_of::<ExternalReferenceRecord, ReferencesNewestFirst>(),
    )
}

/// The external references of a source type (all of them when none is given),
/// newest first.
pub fn query_external_references(store: &UbuStore, source_type: Option<&str>) -> (r: Vec<ExternalReferenceRecord>)
    ensures
        r@ == external_references_of(store@, match source_type { Some(t) => Some(t@), None => None }),
{
    let filter = SourceTypeIs {
        source_type: match source_type {
            Some(t) => Some(t.to_owned()),
            None => None,
        },
    };
    let selected = store.select_external_references(&filter);
    let ghost wanted = match source_type { Some(t) => Some(t@), None => None };
    assert((|r: ExternalReferenceRecord| filter.keeps(r)) =~= (|r: ExternalReferenceRecord| match wanted {
        Some(t) => r.source_type@ == t,
        None => true,
    }));
    sort_rows::<ExternalReferenceRecord, ReferencesNewestFirst>(selected)
}

/// The `recalculation_requested` log entries, newest first.
pub open spec fn recalculation_trigger_logs(s: StoreView) -> Seq<LogRecord> {
    stable_sort(keep(s.logs, |r: LogRecord| r.event_type@ == "recalculation_requested"@), order_of::<LogRecord, LogsNewestFirst>())
}

/// The `recalculation_requested` log entries, newest first.
pub fn query_recalculation_triggers(store: &UbuStore) -> (r: Vec<LogRecord>)
    ensures
        r@ == recalculation_trigger_logs(store@),
{
    let filter = EventTypeIs { event_type: "recalculation_requested".to_owned() };
    let selected = store.select_logs(&filter);
    assert((|r: LogRecord| filter.keeps(r)) =~= (|r: LogRecord| r.event_type@ == "recalculation_requested"@));
    sort_rows::<LogRecord, LogsNewestFirst>(selected)
}

} // verus!
