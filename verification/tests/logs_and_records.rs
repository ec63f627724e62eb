use ubu_store::admission::{ObjectChecks, ObjectType};
use ubu_store::envelope::{MutationEnvelope, VersionRef};
use ubu_store::errors::{CoreError, DatabaseError, Table};
use ubu_store::models::calendar_record::NewCalendarRecord;
use ubu_store::models::external_reference_record::NewExternalReferenceRecord;
use ubu_store::models::log_record::NewLogRecord;
use ubu_store::models::object_record::NewObjectRecord;
use ubu_store::models::plan_record::NewPlanRecord;
use ubu_store::models::projection_record::{NewProjectionPreviewRecord, NewProjectionResultRecord};
use ubu_store::models::worker_submission_record::NewWorkerSubmissionRecord;
use ubu_store::queries::{
    admit_object, append_log_entry, get_current_state, get_object_history, persist_universe_state,
    query_active_tasks, query_external_references, query_recalculation_triggers, store_calendar,
    store_external_reference, store_plan, store_projection_preview, store_projection_result, store_worker_submission,
    CalendarChecks, LogChecks, ProjectionResultChecks, RecordChecks, WorkerSubmissionChecks,
};
use ubu_store::replay::replay_state;
use ubu_store::models::task_record::TaskMappingFields;
use ubu_store::store::UbuStore;
use ubu_store::StoreError;

const TASK_ID: &str = "task_0190a0b0c0d07e0f8a0b0c0d0e0f1a2c";
const UNIV_ID: &str = "univ_0190a0b0c0d07e0f8a0b0c0d0e0f1a30";

fn envelope(key: &str, observed: Vec<(&str, VersionRef)>) -> MutationEnvelope {
    MutationEnvelope {
        origin_device_id: "device-a".to_owned(),
        idempotency_key: key.to_owned(),
        observed_versions: observed.into_iter().map(|(id, v)| (id.to_owned(), v)).collect(),
        actor_identity_id: "ident_user".to_owned(),
        authority_source: "user".to_owned(),
        created_time: "2026-06-10T14:30:00Z".to_owned(),
        effective_time: "2026-06-10T14:30:00Z".to_owned(),
        recorded_time: "2026-06-10T15:00:00Z".to_owned(),
        envelope_json: "{}".to_owned(),
        validation: Ok(()),
    }
}

fn log_checks() -> LogChecks {
    LogChecks { id_type: Ok(ObjectType::LogEntry), provenance: Ok(()), trigger: Ok(()), created_at: Ok(()) }
}

fn log(id: &str, event_type: &str, refs: &str, created_at: &str) -> NewLogRecord {
    NewLogRecord {
        id: id.to_owned(),
        event_type: event_type.to_owned(),
        object_refs: refs.to_owned(),
        payload: format!("{{\"entry\":\"{id}\"}}"),
        provenance: "{\"source\":\"user\"}".to_owned(),
        created_at: created_at.to_owned(),
    }
}

fn append(store: &mut UbuStore, key: &str, record: NewLogRecord) -> Result<ubu_store::models::log_record::LogRecord, StoreError> {
    let canonical = record.payload.clone();
    append_log_entry(store, &envelope(key, vec![]), record, canonical, &log_checks())
}

fn reference(id: &str, source_type: &str, created_at: &str) -> NewExternalReferenceRecord {
    NewExternalReferenceRecord {
        id: id.to_owned(),
        source_type: source_type.to_owned(),
        source_id: format!("{source_type}:{id}"),
        url: Some("https://example.invalid/item".to_owned()),
        payload_hash: None,
        payload: format!("{{\"ref\":\"{id}\"}}"),
        created_at: created_at.to_owned(),
    }
}

fn record_checks(t: ObjectType) -> RecordChecks {
    RecordChecks { id_type: Ok(t), created_at: Ok(()) }
}

fn object_checks(t: ObjectType) -> ObjectChecks {
    ObjectChecks {
        id_type: Ok(t),
        compartment_label: Ok(()),
        created_at: Ok(()),
        updated_at: Ok(()),
        task_status_is_moot: Ok(false),
        payload_id_type: Ok(t),
        provenance: Ok(()),
        authority_source: Ok(()),
        payload_label: Ok(()),
        duration_estimate: Err("absent".to_owned()),
        correlation_groups: Err("absent".to_owned()),
        task_mapping: Ok(TaskMappingFields { static_window: None, tags: None, category_tag: None }),
    }
}

fn admit_universe(store: &mut UbuStore) {
    let record = NewObjectRecord {
        id: UNIV_ID.to_owned(),
        object_type: "UniverseState".to_owned(),
        version: 1,
        status: "active".to_owned(),
        compartment_label: "default".to_owned(),
        payload: format!("{{\"id\":\"{UNIV_ID}\",\"schema_version\":\"core/universe-state/0.1\",\"tasks\":[]}}"),
        created_at: "2026-06-10T14:30:00Z".to_owned(),
        updated_at: "2026-06-10T14:30:00Z".to_owned(),
    };
    let canonical = record.payload.clone();
    admit_object(store, &envelope("u1", vec![(UNIV_ID, VersionRef::Absent)]), record, canonical, &object_checks(ObjectType::UniverseState))
        .expect("universe admitted");
}

#[test]
fn appends_log_entries_and_replays_them() {
    let mut store = UbuStore::in_memory();
    let row = append(&mut store, "k1", log("log_a", "note", "[]", "2026-06-10T14:31:00Z")).expect("appended");
    assert_eq!(row.id, "log_a");
    assert_eq!(row.object_refs_json, "[]");
    let after = store.clone();
    let again = append(&mut store, "k1", log("log_a", "note", "[]", "2026-06-10T14:31:00Z")).expect("replayed");
    assert_eq!(again, row);
    assert_eq!(store, after);
}

#[test]
fn duplicate_log_id_is_refused() {
    let mut store = UbuStore::in_memory();
    append(&mut store, "k1", log("log_a", "note", "[]", "2026-06-10T14:31:00Z")).expect("appended");
    let before = store.clone();
    let err = append(&mut store, "k2", log("log_a", "other", "[]", "2026-06-10T14:32:00Z")).expect_err("duplicate");
    assert_eq!(err, StoreError::Sqlx(DatabaseError::UniqueViolation { table: Table::Logs, key: "log_a".to_owned() }));
    assert_eq!(store, before);
}

#[test]
fn log_entry_checks() {
    let mut store = UbuStore::in_memory();
    let mut checks = log_checks();
    checks.id_type = Ok(ObjectType::Task);
    let rec = log("log_a", "note", "[]", "2026-06-10T14:31:00Z");
    let canonical = rec.payload.clone();
    assert_eq!(
        append_log_entry(&mut store, &envelope("k1", vec![]), rec, canonical, &checks),
        Err(StoreError::Core(CoreError::WrongIdObjectType { expected: ObjectType::LogEntry, actual: ObjectType::Task }))
    );
    let mut checks = log_checks();
    checks.provenance = Err("missing field `source`".to_owned());
    let rec = log("log_a", "note", "[]", "2026-06-10T14:31:00Z");
    let canonical = rec.payload.clone();
    assert_eq!(
        append_log_entry(&mut store, &envelope("k1", vec![]), rec, canonical, &checks),
        Err(StoreError::Json("missing field `source`".to_owned()))
    );
    // The trigger reading only matters for recalculation requests.
    let mut checks = log_checks();
    checks.trigger = Err("missing field `reason`".to_owned());
    let rec = log("log_b", "recalculation_requested", "[]", "2026-06-10T14:31:00Z");
    let canonical = rec.payload.clone();
    assert_eq!(
        append_log_entry(&mut store, &envelope("k2", vec![]), rec, canonical, &checks),
        Err(StoreError::Json("missing field `reason`".to_owned()))
    );
    let rec = log("log_c", "note", "[]", "2026-06-10T14:31:00Z");
    let canonical = rec.payload.clone();
    assert!(append_log_entry(&mut store, &envelope("k3", vec![]), rec, canonical, &checks).is_ok());
    assert_eq!(store.clone(), store);
}

#[test]
fn object_history_is_oldest_first_and_replay_state_matches() {
    let mut store = UbuStore::in_memory();
    let refs = format!("[\"{TASK_ID}\"]");
    append(&mut store, "k1", log("log_late", "updated", &refs, "2026-06-12T09:00:00Z")).unwrap();
    append(&mut store, "k2", log("log_other", "note", "[\"task_other\"]", "2026-06-11T09:00:00Z")).unwrap();
    append(&mut store, "k3", log("log_early", "created", &refs, "2026-06-10T09:00:00Z")).unwrap();
    append(&mut store, "k4", log("log_tie", "touched", &refs, "2026-06-12T09:00:00Z")).unwrap();
    let history = get_object_history(&store, TASK_ID, &Ok(())).expect("history");
    let ids: Vec<&str> = history.iter().map(|r| r.id.as_str()).collect();
    assert_eq!(ids, vec!["log_early", "log_late", "log_tie"]);
    assert_eq!(replay_state(&store, TASK_ID, &Ok(())), Ok(history));
    assert_eq!(
        get_object_history(&store, "bad", &Err(CoreError::Refused { message: "invalid UbuId".to_owned() })),
        Err(StoreError::Core(CoreError::Refused { message: "invalid UbuId".to_owned() }))
    );
}

#[test]
fn object_history_matches_the_id_as_a_like_pattern() {
    let mut store = UbuStore::in_memory();
    let upper = TASK_ID.to_uppercase();
    let wildcard_hit = TASK_ID.replacen('_', "X", 1);
    append(&mut store, "k1", log("log_exact", "created", &format!("[\"{TASK_ID}\"]"), "2026-06-10T09:00:00Z")).unwrap();
    append(&mut store, "k2", log("log_upper", "updated", &format!("[\"{upper}\"]"), "2026-06-11T09:00:00Z")).unwrap();
    append(&mut store, "k3", log("log_wild", "touched", &format!("[\"{wildcard_hit}\"]"), "2026-06-12T09:00:00Z")).unwrap();
    append(&mut store, "k4", log("log_miss", "note", "[\"task_0190\"]", "2026-06-13T09:00:00Z")).unwrap();
    let history = get_object_history(&store, TASK_ID, &Ok(())).expect("history");
    let ids: Vec<&str> = history.iter().map(|r| r.id.as_str()).collect();
    // `_` in the id matches any one character, and ASCII letters match in either case.
    assert_eq!(ids, vec!["log_exact", "log_upper", "log_wild"]);
}

#[test]
fn recalculation_triggers_are_newest_first() {
    let mut store = UbuStore::in_memory();
    append(&mut store, "k1", log("log_1", "recalculation_requested", "[]", "2026-06-10T09:00:00Z")).unwrap();
    append(&mut store, "k2", log("log_2", "note", "[]", "2026-06-13T09:00:00Z")).unwrap();
    append(&mut store, "k3", log("log_3", "recalculation_requested", "[]", "2026-06-12T09:00:00Z")).unwrap();
    let ids: Vec<String> = query_recalculation_triggers(&store).into_iter().map(|r| r.id).collect();
    assert_eq!(ids, vec!["log_3".to_owned(), "log_1".to_owned()]);
}

#[test]
fn external_references_store_replay_and_filter() {
    let mut store = UbuStore::in_memory();
    let rec = reference("xref_a", "github", "2026-06-10T09:00:00Z");
    let canonical = rec.payload.clone();
    let a = store_external_reference(&mut store, &envelope("k1", vec![]), rec, canonical, &record_checks(ObjectType::ExternalReference))
        .expect("stored");
    let after = store.clone();
    let rec = reference("xref_a", "github", "2026-06-10T09:00:00Z");
    let canonical = rec.payload.clone();
    assert_eq!(
        store_external_reference(&mut store, &envelope("k1", vec![]), rec, canonical, &record_checks(ObjectType::ExternalReference)),
        Ok(a)
    );
    assert_eq!(store, after);
    for (key, id, source, at) in [("k2", "xref_b", "calendar", "2026-06-12T09:00:00Z"), ("k3", "xref_c", "github", "2026-06-11T09:00:00Z")] {
        let rec = reference(id, source, at);
        let canonical = rec.payload.clone();
        store_external_reference(&mut store, &envelope(key, vec![]), rec, canonical, &record_checks(ObjectType::ExternalReference))
            .expect("stored");
    }
    let github: Vec<String> = query_external_references(&store, Some("github")).into_iter().map(|r| r.id).collect();
    assert_eq!(github, vec!["xref_c".to_owned(), "xref_a".to_owned()]);
    let all: Vec<String> = query_external_references(&store, None).into_iter().map(|r| r.id).collect();
    assert_eq!(all, vec!["xref_b".to_owned(), "xref_c".to_owned(), "xref_a".to_owned()]);
}

#[test]
fn external_reference_checks() {
    let mut store = UbuStore::in_memory();
    let rec = reference("xref_a", "github", "2026-06-10T09:00:00Z");
    let canonical = rec.payload.clone();
    assert_eq!(
        store_external_reference(&mut store, &envelope("k1", vec![]), rec, canonical, &record_checks(ObjectType::Plan)),
        Err(StoreError::Core(CoreError::WrongIdObjectType { expected: ObjectType::ExternalReference, actual: ObjectType::Plan }))
    );
    let rec = reference("xref_a", "github", "2026-06-10T09:00:00Z");
    let canonical = rec.payload.clone();
    store_external_reference(&mut store, &envelope("k2", vec![]), rec, canonical, &record_checks(ObjectType::ExternalReference)).unwrap();
    let rec = reference("xref_a", "github", "2026-06-11T09:00:00Z");
    let canonical = rec.payload.clone();
    assert_eq!(
        store_external_reference(&mut store, &envelope("k3", vec![]), rec, canonical, &record_checks(ObjectType::ExternalReference)),
        Err(StoreError::Sqlx(DatabaseError::UniqueViolation { table: Table::ExternalReferences, key: "xref_a".to_owned() }))
    );
}

#[test]
fn universe_state_becomes_the_next_version() {
    let mut store = UbuStore::in_memory();
    admit_universe(&mut store);
    let state = format!("{{\"id\":\"{UNIV_ID}\",\"tasks\":[\"t\"]}}");
    let provenance = "{\"created_at\":\"2026-06-10T14:30:00Z\",\"authority_source\":\"system\"}";
    let row = persist_universe_state(
        &mut store,
        &envelope("u2", vec![(UNIV_ID, VersionRef::Version(1))]),
        UNIV_ID.to_owned(),
        state,
        provenance.to_owned(),
        "{\"state\":1,\"authority\":\"system\"}".to_owned(),
        &object_checks(ObjectType::UniverseState),
    )
    .expect("persisted");
    assert_eq!(row.version, 2);
    assert_eq!(row.updated_at, "2026-06-10T15:00:00Z");
    assert_eq!(row.created_at, "2026-06-10T14:30:00Z");
    // The stored payload is the state, with the current schema_version carried
    // over and the provenance stamped on it.
    let stored: serde_json::Value = serde_json::from_str(&row.payload_json).unwrap();
    let expected: serde_json::Value = serde_json::from_str(&format!(
        "{{\"id\":\"{UNIV_ID}\",\"tasks\":[\"t\"],\"schema_version\":\"core/universe-state/0.1\",\"provenance\":{provenance}}}"
    ))
    .unwrap();
    assert_eq!(stored, expected);
    assert_eq!(get_current_state(&store, UNIV_ID, &Ok(())), Ok(Some(row)));
}

#[test]
fn universe_state_without_schema_version_gets_none() {
    let mut store = UbuStore::in_memory();
    let record = NewObjectRecord {
        id: UNIV_ID.to_owned(),
        object_type: "UniverseState".to_owned(),
        version: 1,
        status: "active".to_owned(),
        compartment_label: "default".to_owned(),
        payload: format!("{{\"id\":\"{UNIV_ID}\",\"tasks\":[]}}"),
        created_at: "2026-06-10T14:30:00Z".to_owned(),
        updated_at: "2026-06-10T14:30:00Z".to_owned(),
    };
    let canonical = record.payload.clone();
    admit_object(&mut store, &envelope("u1", vec![(UNIV_ID, VersionRef::Absent)]), record, canonical, &object_checks(ObjectType::UniverseState))
        .expect("universe admitted");
    let row = persist_universe_state(
        &mut store,
        &envelope("u2", vec![(UNIV_ID, VersionRef::Version(1))]),
        UNIV_ID.to_owned(),
        format!("{{\"id\":\"{UNIV_ID}\",\"tasks\":[]}}"),
        "{\"authority_source\":\"user\"}".to_owned(),
        "{\"state\":2}".to_owned(),
        &object_checks(ObjectType::UniverseState),
    )
    .expect("persisted");
    let stored: serde_json::Value = serde_json::from_str(&row.payload_json).unwrap();
    assert!(stored.get("schema_version").is_none());
    assert_eq!(stored["provenance"]["authority_source"], serde_json::Value::from("user"));
}

#[test]
fn universe_state_needs_an_existing_version() {
    let mut store = UbuStore::in_memory();
    let before = store.clone();
    let err = persist_universe_state(
        &mut store,
        &envelope("u2", vec![(UNIV_ID, VersionRef::Absent)]),
        UNIV_ID.to_owned(),
        "{}".to_owned(),
        "{}".to_owned(),
        "{}".to_owned(),
        &object_checks(ObjectType::UniverseState),
    )
    .expect_err("needs a version");
    assert_eq!(
        err,
        StoreError::PreconditionFailed { object_id: UNIV_ID.to_owned(), expected: "absent".to_owned(), actual: "absent".to_owned() }
    );
    let err = persist_universe_state(
        &mut store,
        &envelope("u3", vec![]),
        UNIV_ID.to_owned(),
        "{}".to_owned(),
        "{}".to_owned(),
        "{}".to_owned(),
        &object_checks(ObjectType::UniverseState),
    )
    .expect_err("needs a target");
    assert_eq!(err, StoreError::MissingTargetPrecondition { object_id: UNIV_ID.to_owned() });
    assert_eq!(store, before);
}

#[test]
fn plans_and_calendars() {
    let mut store = UbuStore::in_memory();
    let plan = NewPlanRecord {
        id: "plan_a".to_owned(),
        request_id: "req_1".to_owned(),
        status: "complete".to_owned(),
        payload: "{}".to_owned(),
        created_at: "2026-06-10T09:00:00Z".to_owned(),
    };
    let stored = store_plan(&mut store, plan.clone(), &record_checks(ObjectType::Plan)).expect("plan");
    assert_eq!(stored.payload_json, "{}");
    assert_eq!(
        store_plan(&mut store, plan.clone(), &record_checks(ObjectType::Plan)),
        Err(StoreError::Sqlx(DatabaseError::UniqueViolation { table: Table::Plans, key: "plan_a".to_owned() }))
    );
    assert_eq!(
        store_plan(&mut store, plan, &record_checks(ObjectType::Task)),
        Err(StoreError::Core(CoreError::WrongIdObjectType { expected: ObjectType::Plan, actual: ObjectType::Task }))
    );
    let calendar = NewCalendarRecord {
        id: "cal_a".to_owned(),
        plan_id: "plan_a".to_owned(),
        window_start: "2026-06-10T00:00:00Z".to_owned(),
        window_end: "2026-06-17T00:00:00Z".to_owned(),
        payload: "{}".to_owned(),
        created_at: "2026-06-10T09:00:00Z".to_owned(),
    };
    let ok = CalendarChecks {
        id_type: Ok(ObjectType::Calendar),
        plan_id_type: Ok(ObjectType::Plan),
        window_start: Ok(()),
        window_end: Ok(()),
        created_at: Ok(()),
    };
    let bad_plan = CalendarChecks {
        id_type: Ok(ObjectType::Calendar),
        plan_id_type: Ok(ObjectType::Task),
        window_start: Ok(()),
        window_end: Ok(()),
        created_at: Ok(()),
    };
    assert_eq!(
        store_calendar(&mut store, calendar.clone(), &bad_plan),
        Err(StoreError::Core(CoreError::WrongIdObjectType { expected: ObjectType::Plan, actual: ObjectType::Task }))
    );
    assert_eq!(store_calendar(&mut store, calendar.clone(), &ok).expect("calendar").plan_id, "plan_a");
    assert!(store_calendar(&mut store, calendar, &ok).is_err());
}

#[test]
fn worker_submissions_stay_out_of_canonical_state() {
    let mut store = UbuStore::in_memory();
    let submission = NewWorkerSubmissionRecord {
        id: "worker_a".to_owned(),
        candidate_id: TASK_ID.to_owned(),
        object_type: "Task".to_owned(),
        status: "active".to_owned(),
        payload: "{}".to_owned(),
        authority_source: "automation_worker".to_owned(),
        submitted_at: "2026-06-10T09:00:00Z".to_owned(),
        created_at: "2026-06-10T09:00:00Z".to_owned(),
    };
    let checks = WorkerSubmissionChecks {
        id_type: Ok(ObjectType::AutomationWorker),
        authority_source: Ok(()),
        submitted_at: Ok(()),
        created_at: Ok(()),
    };
    let stored = store_worker_submission(&mut store, submission.clone(), &checks).expect("stored");
    assert_eq!(stored.candidate_id, TASK_ID);
    assert_eq!(get_current_state(&store, TASK_ID, &Ok(())), Ok(None));
    assert!(query_active_tasks(&store).is_empty());
    let mut unknown = submission;
    unknown.id = "worker_b".to_owned();
    unknown.object_type = "Widget".to_owned();
    assert_eq!(store_worker_submission(&mut store, unknown, &checks), Err(StoreError::UnknownObjectType("Widget".to_owned())));
}

#[test]
fn projection_previews_and_results() {
    let mut store = UbuStore::in_memory();
    let preview = NewProjectionPreviewRecord {
        id: "proj_a".to_owned(),
        request_id: "req_1".to_owned(),
        status: "ready".to_owned(),
        payload: "{}".to_owned(),
        created_at: "2026-06-10T09:00:00Z".to_owned(),
    };
    assert!(store_projection_preview(&mut store, preview.clone(), &record_checks(ObjectType::ProjectionPreview)).is_ok());
    assert!(store_projection_preview(&mut store, preview, &record_checks(ObjectType::ProjectionPreview)).is_err());
    let result = NewProjectionResultRecord {
        id: "proj_b".to_owned(),
        preview_id: "proj_a".to_owned(),
        status: "applied".to_owned(),
        payload: "{}".to_owned(),
        created_at: "2026-06-10T09:05:00Z".to_owned(),
    };
    let checks = ProjectionResultChecks { id: Ok(()), preview_id_type: Ok(ObjectType::ProjectionPreview), created_at: Ok(()) };
    assert_eq!(store_projection_result(&mut store, result.clone(), &checks).expect("result").preview_id, "proj_a");
    assert_eq!(
        store_projection_result(&mut store, result, &checks),
        Err(StoreError::Sqlx(DatabaseError::UniqueViolation { table: Table::ProjectionResults, key: "proj_b".to_owned() }))
    );
}

#[test]
fn active_tasks_are_most_recent_first() {
    let mut store = UbuStore::in_memory();
    for (key, id, status, at) in [
        ("k1", "task_0190a0b0c0d07e0f8a0b0c0d0e0f0001", "active", "2026-06-10T09:00:00Z"),
        ("k2", "task_0190a0b0c0d07e0f8a0b0c0d0e0f0002", "done", "2026-06-11T09:00:00Z"),
        ("k3", "task_0190a0b0c0d07e0f8a0b0c0d0e0f0003", "active", "2026-06-12T09:00:00Z"),
    ] {
        let record = NewObjectRecord {
            id: id.to_owned(),
            object_type: "Task".to_owned(),
            version: 1,
            status: status.to_owned(),
            compartment_label: "default".to_owned(),
            payload: format!("{{\"id\":\"{id}\",\"status\":\"{status}\",\"provenance\":{{}}}}"),
            created_at: at.to_owned(),
            updated_at: at.to_owned(),
        };
        let canonical = record.payload.clone();
        admit_object(&mut store, &envelope(key, vec![(id, VersionRef::Absent)]), record, canonical, &object_checks(ObjectType::Task))
            .expect("task");
    }
    let ids: Vec<String> = query_active_tasks(&store).into_iter().map(|r| r.id).collect();
    assert_eq!(
        ids,
        vec!["task_0190a0b0c0d07e0f8a0b0c0d0e0f0003".to_owned(), "task_0190a0b0c0d07e0f8a0b0c0d0e0f0001".to_owned()]
    );
}

#[test]
fn universe_state_replay_is_idempotent() {
    let mut store = UbuStore::in_memory();
    admit_universe(&mut store);
    let payload = format!("{{\"id\":\"{UNIV_ID}\",\"tasks\":[\"t\"]}}");
    let persist = |store: &mut UbuStore| {
        persist_universe_state(
            store,
            &envelope("u2", vec![(UNIV_ID, VersionRef::Version(1))]),
            UNIV_ID.to_owned(),
            payload.clone(),
            "{\"authority_source\":\"system\"}".to_owned(),
            "{\"state\":1}".to_owned(),
            &object_checks(ObjectType::UniverseState),
        )
    };
    let first = persist(&mut store).expect("persisted");
    let after = store.clone();
    assert_eq!(persist(&mut store), Ok(first));
    assert_eq!(store, after);
}
