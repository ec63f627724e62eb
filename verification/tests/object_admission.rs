use ubu_store::admission::{validate_object_id_for_type, validate_object_record, ObjectChecks, ObjectType};
use ubu_store::envelope::{MutationEnvelope, MutationKey, VersionRef};
use ubu_store::errors::{CoreError, CorrelationGroupViolation, DurationEstimateViolation, PayloadViolation, Table};
use ubu_store::models::log_record::NewLogRecord;
use ubu_store::models::object_record::NewObjectRecord;
use ubu_store::models::task_record::{CorrelationGroupCheck, TaskDurationEstimate, TaskMappingFields};
use ubu_store::queries::{
    admit_candidate_object, admit_object, append_log_entry, get_current_state, get_recorded_mutation, query_active_tasks,
    CandidateObject, LogChecks,
};
use ubu_store::store::UbuStore;
use ubu_store::StoreError;

const PREF_ID: &str = "pref_0190a0b0c0d07e0f8a0b0c0d0e0f1a2b";
const TASK_ID: &str = "task_0190a0b0c0d07e0f8a0b0c0d0e0f1a2c";
const COMP_ID: &str = "comp_0190a0b0c0d07e0f8a0b0c0d0e0f1a2d";
const LOG_ID: &str = "log_0190a0b0c0d07e0f8a0b0c0d0e0f1a2e";

fn envelope(key: &str, observed: Vec<(&str, VersionRef)>) -> MutationEnvelope {
    MutationEnvelope {
        origin_device_id: "device-a".to_owned(),
        idempotency_key: key.to_owned(),
        observed_versions: observed.into_iter().map(|(id, v)| (id.to_owned(), v)).collect(),
        actor_identity_id: "ident_user".to_owned(),
        authority_source: "user".to_owned(),
        created_time: "2026-06-10T14:30:00Z".to_owned(),
        effective_time: "2026-06-10T14:30:00Z".to_owned(),
        recorded_time: "2026-06-10T14:30:05Z".to_owned(),
        envelope_json: format!("{{\"idempotency_key\":\"{key}\"}}"),
        validation: Ok(()),
    }
}

fn checks(t: ObjectType) -> ObjectChecks {
    ObjectChecks {
        id_type: Ok(t),
        compartment_label: Ok(()),
        created_at: Ok(()),
        updated_at: Ok(()),
        task_status_is_moot: Ok(false),
        payload_id_type: Ok(t),
        provenance: Ok(()),
        authority_source: Ok(()),
        payload_label: Ok(()),
        duration_estimate: Err("no duration_estimate member".to_owned()),
        correlation_groups: Err("no correlation_groups member".to_owned()),
        task_mapping: Ok(TaskMappingFields { static_window: None, tags: None, category_tag: None }),
    }
}

fn preference(value: &str, created_at: &str) -> NewObjectRecord {
    NewObjectRecord {
        id: PREF_ID.to_owned(),
        object_type: "Preference".to_owned(),
        version: 1,
        status: "active".to_owned(),
        compartment_label: "default".to_owned(),
        payload: format!(
            "{{\"id\":\"{PREF_ID}\",\"name\":\"calendar_density\",\"value\":\"{value}\",\"authority_source\":\"user\"}}"
        ),
        created_at: created_at.to_owned(),
        updated_at: created_at.to_owned(),
    }
}

fn task(status: &str, payload: &str) -> NewObjectRecord {
    NewObjectRecord {
        id: TASK_ID.to_owned(),
        object_type: "Task".to_owned(),
        version: 1,
        status: status.to_owned(),
        compartment_label: "default".to_owned(),
        payload: payload.to_owned(),
        created_at: "2026-06-10T14:30:00Z".to_owned(),
        updated_at: "2026-06-10T14:30:00Z".to_owned(),
    }
}

fn task_payload(status: &str, extra: &str) -> String {
    format!("{{\"id\":\"{TASK_ID}\",\"status\":\"{status}\",\"provenance\":{{\"source\":\"user\"}}{extra}}}")
}

fn admit_new_preference(store: &mut UbuStore) -> ubu_store::models::object_record::ObjectRecord {
    let record = preference("compact", "2026-06-10T14:30:00Z");
    let canonical = record.payload.clone();
    admit_object(store, &envelope("k1", vec![(PREF_ID, VersionRef::Absent)]), record, canonical, &checks(ObjectType::Preference))
        .expect("preference admitted")
}

fn refusal(record: NewObjectRecord, checks: &ObjectChecks) -> StoreError {
    let mut store = UbuStore::in_memory();
    let before = store.clone();
    let canonical = record.payload.clone();
    let id = record.id.clone();
    let err = admit_object(&mut store, &envelope("k1", vec![(id.as_str(), VersionRef::Absent)]), record, canonical, checks)
        .expect_err("refused");
    assert_eq!(store, before);
    err
}

#[test]
fn admits_new_object_at_version_one() {
    let mut store = UbuStore::in_memory();
    let row = admit_new_preference(&mut store);
    assert_eq!(row.version, 1);
    assert_eq!(row.object_type, "Preference");
    assert_eq!(row.id, PREF_ID);
    assert_eq!(row.status, "active");
    assert_eq!(get_current_state(&store, PREF_ID, &Ok(())), Ok(Some(row.clone())));
    let recorded = get_recorded_mutation(
        &store,
        &MutationKey { origin_device_id: "device-a".to_owned(), idempotency_key: "k1".to_owned() },
    )
    .expect("ledger row");
    assert_eq!(recorded.result_object_id, PREF_ID);
    assert_eq!(recorded.result_version, 1);
    assert_eq!(recorded.canonical_payload, row.payload_json);
    assert_eq!(recorded.recorded_at, "2026-06-10T14:30:05Z");
}

#[test]
fn update_takes_next_version_and_keeps_creation_time() {
    let mut store = UbuStore::in_memory();
    admit_new_preference(&mut store);
    let record = preference("spacious", "2026-07-01T09:00:00Z");
    let canonical = record.payload.clone();
    let row = admit_object(
        &mut store,
        &envelope("k2", vec![(PREF_ID, VersionRef::Version(1))]),
        record,
        canonical,
        &checks(ObjectType::Preference),
    )
    .expect("update admitted");
    assert_eq!(row.version, 2);
    assert_eq!(row.created_at, "2026-06-10T14:30:00Z");
    assert_eq!(row.updated_at, "2026-07-01T09:00:00Z");
    assert!(row.payload_json.contains("spacious"));
    assert_eq!(get_current_state(&store, PREF_ID, &Ok(())), Ok(Some(row)));
}

#[test]
fn supplied_version_does_not_decide_the_stored_version() {
    let mut store = UbuStore::in_memory();
    let mut record = preference("compact", "2026-06-10T14:30:00Z");
    record.version = 7;
    let canonical = record.payload.clone();
    let row = admit_object(
        &mut store,
        &envelope("k1", vec![(PREF_ID, VersionRef::Absent)]),
        record,
        canonical,
        &checks(ObjectType::Preference),
    )
    .expect("admitted");
    assert_eq!(row.version, 1);
}

#[test]
fn replay_returns_current_state_and_writes_nothing() {
    let mut store = UbuStore::in_memory();
    let first = admit_new_preference(&mut store);
    let after_first = store.clone();
    let record = preference("compact", "2026-06-10T14:30:00Z");
    let canonical = record.payload.clone();
    let replayed = admit_object(
        &mut store,
        &envelope("k1", vec![(PREF_ID, VersionRef::Absent)]),
        record,
        canonical,
        &checks(ObjectType::Preference),
    )
    .expect("replay answers");
    assert_eq!(replayed, first);
    assert_eq!(store, after_first);
}

#[test]
fn replay_answers_the_current_row_after_a_later_update() {
    let mut store = UbuStore::in_memory();
    admit_new_preference(&mut store);
    let update = preference("spacious", "2026-07-01T09:00:00Z");
    let canonical = update.payload.clone();
    let second = admit_object(&mut store, &envelope("k2", vec![(PREF_ID, VersionRef::Version(1))]), update, canonical, &checks(ObjectType::Preference))
        .expect("update");
    let record = preference("compact", "2026-06-10T14:30:00Z");
    let canonical = record.payload.clone();
    let replayed = admit_object(&mut store, &envelope("k1", vec![(PREF_ID, VersionRef::Absent)]), record, canonical, &checks(ObjectType::Preference))
        .expect("replay answers");
    assert_eq!(replayed, second);
    assert_eq!(replayed.version, 2);
}

#[test]
fn reused_key_with_other_payload_conflicts() {
    let mut store = UbuStore::in_memory();
    admit_new_preference(&mut store);
    let before = store.clone();
    let record = preference("spacious", "2026-06-10T14:30:00Z");
    let canonical = record.payload.clone();
    let err = admit_object(&mut store, &envelope("k1", vec![(PREF_ID, VersionRef::Absent)]), record, canonical, &checks(ObjectType::Preference))
        .expect_err("conflict");
    assert_eq!(
        err,
        StoreError::Core(CoreError::IdempotencyKeyConflict {
            origin_device_id: "device-a".to_owned(),
            idempotency_key: "k1".to_owned(),
        })
    );
    assert_eq!(store, before);
}

#[test]
fn reused_key_conflicts_across_writers() {
    let mut store = UbuStore::in_memory();
    admit_new_preference(&mut store);
    let before = store.clone();
    let log = NewLogRecord {
        id: LOG_ID.to_owned(),
        event_type: "note".to_owned(),
        object_refs: format!("[\"{PREF_ID}\"]"),
        payload: "{\"text\":\"hi\"}".to_owned(),
        provenance: "{\"source\":\"user\"}".to_owned(),
        created_at: "2026-06-10T14:31:00Z".to_owned(),
    };
    let log_checks = LogChecks {
        id_type: Ok(ObjectType::LogEntry),
        provenance: Ok(()),
        trigger: Ok(()),
        created_at: Ok(()),
    };
    let err = append_log_entry(&mut store, &envelope("k1", vec![]), log, "{\"text\":\"hi\"}".to_owned(), &log_checks)
        .expect_err("conflict");
    assert!(matches!(err, StoreError::Core(CoreError::IdempotencyKeyConflict { .. })));
    assert_eq!(store, before);
}

#[test]
fn same_payload_for_another_writer_is_a_target_mismatch() {
    let mut store = UbuStore::in_memory();
    let log = NewLogRecord {
        id: LOG_ID.to_owned(),
        event_type: "note".to_owned(),
        object_refs: "[]".to_owned(),
        payload: "{\"text\":\"hi\"}".to_owned(),
        provenance: "{\"source\":\"user\"}".to_owned(),
        created_at: "2026-06-10T14:31:00Z".to_owned(),
    };
    let log_checks = LogChecks {
        id_type: Ok(ObjectType::LogEntry),
        provenance: Ok(()),
        trigger: Ok(()),
        created_at: Ok(()),
    };
    let shared = "{\"same\":true}".to_owned();
    append_log_entry(&mut store, &envelope("k1", vec![]), log, shared.clone(), &log_checks).expect("log appended");
    let before = store.clone();
    let err = admit_object(
        &mut store,
        &envelope("k1", vec![(PREF_ID, VersionRef::Absent)]),
        preference("compact", "2026-06-10T14:30:00Z"),
        shared,
        &checks(ObjectType::Preference),
    )
    .expect_err("mismatch");
    assert_eq!(err, StoreError::ReplayTargetMismatch { object_id: LOG_ID.to_owned(), expected_table: Table::Objects });
    assert_eq!(store, before);
}

#[test]
fn stale_observation_is_refused() {
    let mut store = UbuStore::in_memory();
    admit_new_preference(&mut store);
    let before = store.clone();
    let record = preference("spacious", "2026-07-01T09:00:00Z");
    let canonical = record.payload.clone();
    let err = admit_object(&mut store, &envelope("k2", vec![(PREF_ID, VersionRef::Absent)]), record, canonical, &checks(ObjectType::Preference))
        .expect_err("stale");
    assert_eq!(
        err,
        StoreError::PreconditionFailed {
            object_id: PREF_ID.to_owned(),
            expected: "absent".to_owned(),
            actual: "v1".to_owned(),
        }
    );
    assert_eq!(store, before);

    let record = preference("spacious", "2026-07-01T09:00:00Z");
    let canonical = record.payload.clone();
    let err = admit_object(&mut store, &envelope("k3", vec![(PREF_ID, VersionRef::Version(4))]), record, canonical, &checks(ObjectType::Preference))
        .expect_err("stale");
    assert_eq!(
        err,
        StoreError::PreconditionFailed { object_id: PREF_ID.to_owned(), expected: "v4".to_owned(), actual: "v1".to_owned() }
    );
}

#[test]
fn every_precondition_is_checked_in_order() {
    let mut store = UbuStore::in_memory();
    admit_new_preference(&mut store);
    let record = task("active", &task_payload("active", ""));
    let canonical = record.payload.clone();
    let err = admit_object(
        &mut store,
        &envelope("k2", vec![(TASK_ID, VersionRef::Absent), (PREF_ID, VersionRef::Version(2)), (COMP_ID, VersionRef::Version(1))]),
        record,
        canonical,
        &checks(ObjectType::Task),
    )
    .expect_err("precondition on another object");
    assert_eq!(
        err,
        StoreError::PreconditionFailed { object_id: PREF_ID.to_owned(), expected: "v2".to_owned(), actual: "v1".to_owned() }
    );
}

#[test]
fn missing_target_precondition_is_refused() {
    let mut store = UbuStore::in_memory();
    let record = preference("compact", "2026-06-10T14:30:00Z");
    let canonical = record.payload.clone();
    let err = admit_object(&mut store, &envelope("k1", vec![]), record, canonical, &checks(ObjectType::Preference))
        .expect_err("no target precondition");
    assert_eq!(err, StoreError::MissingTargetPrecondition { object_id: PREF_ID.to_owned() });
    assert_eq!(store, UbuStore::in_memory());
}

#[test]
fn invalid_envelope_is_refused() {
    let mut store = UbuStore::in_memory();
    let mut env = envelope("k1", vec![(PREF_ID, VersionRef::Absent)]);
    env.validation = Err(CoreError::Refused { message: "idempotency key is empty".to_owned() });
    let record = preference("compact", "2026-06-10T14:30:00Z");
    let canonical = record.payload.clone();
    let err = admit_object(&mut store, &env, record, canonical, &checks(ObjectType::Preference)).expect_err("invalid");
    assert_eq!(err, StoreError::Core(CoreError::Refused { message: "idempotency key is empty".to_owned() }));
}

#[test]
fn prefix_must_match_declared_type() {
    let mut c = checks(ObjectType::Preference);
    c.id_type = Ok(ObjectType::Task);
    let err = refusal(preference("compact", "2026-06-10T14:30:00Z"), &c);
    assert_eq!(
        err,
        StoreError::Core(CoreError::WrongIdObjectType { expected: ObjectType::Preference, actual: ObjectType::Task })
    );
}

#[test]
fn unparsable_id_is_refused() {
    let mut c = checks(ObjectType::Preference);
    c.id_type = Err(CoreError::Refused { message: "invalid UbuId".to_owned() });
    let err = refusal(preference("compact", "2026-06-10T14:30:00Z"), &c);
    assert_eq!(err, StoreError::Core(CoreError::Refused { message: "invalid UbuId".to_owned() }));
}

#[test]
fn unknown_declared_type_is_refused() {
    let mut record = preference("compact", "2026-06-10T14:30:00Z");
    record.object_type = "Widget".to_owned();
    let err = refusal(record, &checks(ObjectType::Preference));
    assert_eq!(err, StoreError::UnknownObjectType("Widget".to_owned()));
}

#[test]
fn label_and_timestamps_must_parse() {
    let mut c = checks(ObjectType::Preference);
    c.compartment_label = Err(CoreError::Refused { message: "bad label".to_owned() });
    assert_eq!(
        refusal(preference("compact", "2026-06-10T14:30:00Z"), &c),
        StoreError::Core(CoreError::Refused { message: "bad label".to_owned() })
    );
    let mut c = checks(ObjectType::Preference);
    c.updated_at = Err(CoreError::Refused { message: "naive timestamp".to_owned() });
    assert_eq!(
        refusal(preference("compact", "2026-06-10T14:30:00"), &c),
        StoreError::Core(CoreError::Refused { message: "naive timestamp".to_owned() })
    );
}

#[test]
fn non_positive_version_is_refused() {
    let mut record = preference("compact", "2026-06-10T14:30:00Z");
    record.version = 0;
    assert_eq!(
        refusal(record, &checks(ObjectType::Preference)),
        StoreError::InvalidPayload(PayloadViolation::NonPositiveVersion)
    );
}

#[test]
fn payload_must_be_an_object_with_the_record_id() {
    let mut record = preference("compact", "2026-06-10T14:30:00Z");
    record.payload = "[1, 2]".to_owned();
    assert_eq!(refusal(record, &checks(ObjectType::Preference)), StoreError::InvalidPayload(PayloadViolation::PayloadNotObject));

    let mut record = preference("compact", "2026-06-10T14:30:00Z");
    record.payload = "{\"name\":\"calendar_density\",\"authority_source\":\"user\"}".to_owned();
    assert_eq!(refusal(record, &checks(ObjectType::Preference)), StoreError::InvalidPayload(PayloadViolation::PayloadMissingId));

    let mut record = preference("compact", "2026-06-10T14:30:00Z");
    record.payload = "{\"id\":\"pref_0190a0b0c0d07e0f8a0b0c0d0e0f9999\",\"authority_source\":\"user\"}".to_owned();
    assert_eq!(refusal(record, &checks(ObjectType::Preference)), StoreError::InvalidPayload(PayloadViolation::PayloadIdMismatch));
}

#[test]
fn payload_id_must_be_of_the_declared_type() {
    let mut c = checks(ObjectType::Preference);
    c.payload_id_type = Ok(ObjectType::Container);
    assert_eq!(
        refusal(preference("compact", "2026-06-10T14:30:00Z"), &c),
        StoreError::Core(CoreError::WrongIdObjectType { expected: ObjectType::Preference, actual: ObjectType::Container })
    );
}

#[test]
fn preference_needs_an_authority_source() {
    let mut record = preference("compact", "2026-06-10T14:30:00Z");
    record.payload = format!("{{\"id\":\"{PREF_ID}\",\"name\":\"calendar_density\"}}");
    assert_eq!(
        refusal(record, &checks(ObjectType::Preference)),
        StoreError::InvalidPayload(PayloadViolation::MissingAuthoritySource)
    );
    let mut c = checks(ObjectType::Preference);
    c.authority_source = Err("unknown variant `robot`".to_owned());
    assert_eq!(
        refusal(preference("compact", "2026-06-10T14:30:00Z"), &c),
        StoreError::Json("unknown variant `robot`".to_owned())
    );
}

#[test]
fn task_needs_provenance() {
    let record = task("active", &format!("{{\"id\":\"{TASK_ID}\",\"status\":\"active\"}}"));
    assert_eq!(refusal(record, &checks(ObjectType::Task)), StoreError::InvalidPayload(PayloadViolation::MissingProvenance));
    let mut c = checks(ObjectType::Task);
    c.provenance = Err("missing field `source`".to_owned());
    assert_eq!(
        refusal(task("active", &task_payload("active", "")), &c),
        StoreError::Json("missing field `source`".to_owned())
    );
}

#[test]
fn task_status_rules() {
    assert_eq!(
        refusal(task("ready", &task_payload("ready", "")), &checks(ObjectType::Task)),
        StoreError::InvalidPayload(PayloadViolation::NoncanonicalTaskStatus { status: "ready".to_owned() })
    );
    let mut moot = checks(ObjectType::Task);
    moot.task_status_is_moot = Ok(true);
    assert_eq!(
        refusal(task("moot", &task_payload("moot", "")), &moot),
        StoreError::InvalidPayload(PayloadViolation::MootRequiresReason)
    );
    assert_eq!(
        refusal(task("active", &task_payload("active", ",\"moot_reason_code\":\"superseded\"")), &checks(ObjectType::Task)),
        StoreError::InvalidPayload(PayloadViolation::MootReasonForbidden { status: "active".to_owned() })
    );
    assert_eq!(
        refusal(task("active", &format!("{{\"id\":\"{TASK_ID}\",\"provenance\":{{}}}}")), &checks(ObjectType::Task)),
        StoreError::InvalidPayload(PayloadViolation::TaskPayloadMissingStatus)
    );
    assert_eq!(
        refusal(task("active", &task_payload("done", "")), &checks(ObjectType::Task)),
        StoreError::InvalidPayload(PayloadViolation::TaskPayloadStatusMismatch)
    );
    let mut unreadable = checks(ObjectType::Task);
    unreadable.task_status_is_moot = Err("unknown variant `paused`".to_owned());
    assert_eq!(
        refusal(task("paused", &task_payload("paused", "")), &unreadable),
        StoreError::Json("unknown variant `paused`".to_owned())
    );
}

#[test]
fn moot_task_with_reason_is_admitted() {
    let mut store = UbuStore::in_memory();
    let mut c = checks(ObjectType::Task);
    c.task_status_is_moot = Ok(true);
    let record = task("moot", &task_payload("moot", ",\"moot_reason_code\":\"superseded\""));
    let canonical = record.payload.clone();
    let row = admit_object(&mut store, &envelope("k1", vec![(TASK_ID, VersionRef::Absent)]), record, canonical, &c)
        .expect("moot with reason");
    assert_eq!(row.status, "moot");
}

#[test]
fn task_estimate_and_correlation_rules() {
    let mut c = checks(ObjectType::Task);
    c.duration_estimate = Ok(TaskDurationEstimate::Fixed { seconds: 0 });
    assert_eq!(
        refusal(task("active", &task_payload("active", ",\"duration_estimate\":{\"kind\":\"fixed\",\"seconds\":0}")), &c),
        StoreError::Core(CoreError::InvalidTaskDurationEstimate { violation: DurationEstimateViolation::ZeroSeconds })
    );
    let mut c = checks(ObjectType::Task);
    c.duration_estimate = Err("invalid type: string".to_owned());
    assert_eq!(
        refusal(task("active", &task_payload("active", ",\"duration_estimate\":\"soon\"")), &c),
        StoreError::Json("invalid type: string".to_owned())
    );
    let mut c = checks(ObjectType::Task);
    c.correlation_groups = Ok(vec![
        CorrelationGroupCheck { group: "errands".to_owned(), strength_in_range: true },
        CorrelationGroupCheck { group: "errands".to_owned(), strength_in_range: true },
    ]);
    assert_eq!(
        refusal(task("active", &task_payload("active", ",\"correlation_groups\":[]")), &c),
        StoreError::Core(CoreError::InvalidTaskCorrelationGroup { violation: CorrelationGroupViolation::DuplicateName })
    );
    // Without the members, the readers' answers are not consulted.
    let mut store = UbuStore::in_memory();
    let record = task("active", &task_payload("active", ""));
    let canonical = record.payload.clone();
    let mut c = checks(ObjectType::Task);
    c.duration_estimate = Ok(TaskDurationEstimate::Fixed { seconds: 0 });
    assert!(admit_object(&mut store, &envelope("k1", vec![(TASK_ID, VersionRef::Absent)]), record, canonical, &c).is_ok());
}

#[test]
fn compartment_needs_a_label() {
    let record = NewObjectRecord {
        id: COMP_ID.to_owned(),
        object_type: "Compartment".to_owned(),
        version: 1,
        status: "active".to_owned(),
        compartment_label: "default".to_owned(),
        payload: format!("{{\"id\":\"{COMP_ID}\"}}"),
        created_at: "2026-06-10T14:30:00Z".to_owned(),
        updated_at: "2026-06-10T14:30:00Z".to_owned(),
    };
    assert_eq!(
        refusal(record.clone(), &checks(ObjectType::Compartment)),
        StoreError::InvalidPayload(PayloadViolation::CompartmentMissingLabel)
    );
    let mut labelled = record;
    labelled.payload = format!("{{\"id\":\"{COMP_ID}\",\"label\":\"Work Stuff\"}}");
    let mut c = checks(ObjectType::Compartment);
    c.payload_label = Err(CoreError::Refused { message: "invalid compartment label".to_owned() });
    assert_eq!(
        refusal(labelled, &c),
        StoreError::Core(CoreError::Refused { message: "invalid compartment label".to_owned() })
    );
}

#[test]
fn validate_object_record_accepts_a_valid_preference() {
    assert_eq!(
        validate_object_record(&preference("compact", "2026-06-10T14:30:00Z"), &checks(ObjectType::Preference)),
        Ok(())
    );
}

#[test]
fn validate_object_id_for_type_compares_prefix_and_declared_type() {
    assert_eq!(validate_object_id_for_type(&Ok(ObjectType::Task), "Task"), Ok(ObjectType::Task));
    assert_eq!(
        validate_object_id_for_type(&Ok(ObjectType::Plan), "Task"),
        Err(StoreError::Core(CoreError::WrongIdObjectType { expected: ObjectType::Task, actual: ObjectType::Plan }))
    );
    assert_eq!(
        validate_object_id_for_type(&Ok(ObjectType::Plan), "Widget"),
        Err(StoreError::UnknownObjectType("Widget".to_owned()))
    );
}

#[test]
fn current_state_reads() {
    let mut store = UbuStore::in_memory();
    assert_eq!(get_current_state(&store, PREF_ID, &Ok(())), Ok(None));
    admit_new_preference(&mut store);
    assert!(get_current_state(&store, PREF_ID, &Ok(())).unwrap().is_some());
    assert_eq!(
        get_current_state(&store, "not-an-id", &Err(CoreError::Refused { message: "invalid UbuId".to_owned() })),
        Err(StoreError::Core(CoreError::Refused { message: "invalid UbuId".to_owned() }))
    );
}

#[test]
fn recorded_mutation_lookup_is_device_scoped() {
    let mut store = UbuStore::in_memory();
    admit_new_preference(&mut store);
    assert!(get_recorded_mutation(
        &store,
        &MutationKey { origin_device_id: "device-b".to_owned(), idempotency_key: "k1".to_owned() }
    )
    .is_none());
    let env = envelope("k1", vec![]);
    assert!(get_recorded_mutation(&store, &env.mutation_key()).is_some());
}

fn device_envelope(device: &str, key: &str, observed: Vec<(&str, VersionRef)>) -> MutationEnvelope {
    let mut env = envelope(key, observed);
    env.origin_device_id = device.to_owned();
    env
}

#[test]
fn same_key_on_different_devices_is_independent() {
    let mut store = UbuStore::in_memory();
    let record = preference("compact", "2026-06-10T14:30:00Z");
    let canonical = record.payload.clone();
    let first = device_envelope("test-device", "shared", vec![(PREF_ID, VersionRef::Absent)]);
    admit_object(&mut store, &first, record, canonical, &checks(ObjectType::Preference)).expect("first device");
    let second_record = task("active", &task_payload("active", ""));
    let canonical = second_record.payload.clone();
    let second = device_envelope("another-device", "shared", vec![(TASK_ID, VersionRef::Absent)]);
    admit_object(&mut store, &second, second_record, canonical, &checks(ObjectType::Task))
        .expect("same key on another device is a new request");
    assert!(get_recorded_mutation(&store, &first.mutation_key()).is_some());
    assert!(get_recorded_mutation(&store, &second.mutation_key()).is_some());
    assert_eq!(get_recorded_mutation(&store, &second.mutation_key()).unwrap().result_object_id, TASK_ID);
}

#[test]
fn candidate_still_writes_active_canonical_row_without_envelope() {
    let mut store = UbuStore::in_memory();
    let record = task("active", &task_payload("active", ""));
    let candidate = CandidateObject {
        candidate_id: record.id.clone(),
        object_type: record.object_type.clone(),
        payload: record.payload.clone(),
    };
    let admitted = admit_candidate_object(&mut store, candidate.clone(), "default", "2026-06-10T16:00:00Z".to_owned(), &checks(ObjectType::Task))
        .expect("inserted");
    assert_eq!(admitted.version, 1);
    assert_eq!(admitted.status, "active");
    assert_eq!(admitted.payload_json, record.payload);
    assert_eq!(admitted.created_at, "2026-06-10T16:00:00Z");
    assert_eq!(get_current_state(&store, TASK_ID, &Ok(())), Ok(Some(admitted.clone())));
    assert!(query_active_tasks(&store).contains(&admitted));
    // No envelope, so no ledger row: nothing is recorded under any key.
    assert!(get_recorded_mutation(&store, &envelope("k1", vec![]).mutation_key()).is_none());
    // A second insertion of the same id is refused and changes nothing.
    let before = store.clone();
    assert_eq!(
        admit_candidate_object(&mut store, candidate, "default", "2026-06-10T17:00:00Z".to_owned(), &checks(ObjectType::Task)),
        Err(StoreError::Sqlx(ubu_store::errors::DatabaseError::UniqueViolation { table: Table::Objects, key: TASK_ID.to_owned() }))
    );
    assert_eq!(store, before);
}

#[test]
fn noncanonical_task_statuses_are_refused_with_the_d0227_message() {
    for status in ["canceled", "ready", "in_progress", "proposed", "blocked"] {
        let error = refusal(task(status, &task_payload(status, "")), &checks(ObjectType::Task));
        assert_eq!(
            error.message(),
            format!(
                "invalid JSON payload: UBU-D0227: `{status}` is a derived or noncanonical Task status and must not be persisted"
            )
        );
        assert!(error.message().contains("UBU-D0227"));
    }
}

#[test]
fn store_error_messages() {
    assert_eq!(
        StoreError::PreconditionFailed { object_id: "pref_a".to_owned(), expected: "v1".to_owned(), actual: "absent".to_owned() }
            .message(),
        "precondition failed for `pref_a`: expected v1, actual absent"
    );
    assert_eq!(
        StoreError::ObjectVersionExhausted { object_id: "pref_a".to_owned(), version: 9223372036854775807 }.message(),
        "object `pref_a` cannot advance beyond SQLite version 9223372036854775807"
    );
    assert_eq!(
        StoreError::Core(CoreError::InvalidTaskCorrelationGroup { violation: CorrelationGroupViolation::StrengthOutOfRange })
            .message(),
        "core/task schema: correlation group strength must be between zero and one"
    );
    assert_eq!(
        StoreError::Core(CoreError::InvalidTaskDurationEstimate { violation: DurationEstimateViolation::ZeroSeconds })
            .message(),
        "core/task schema: duration_estimate.fixed.seconds must be greater than zero"
    );
    assert_eq!(
        StoreError::Core(CoreError::IdempotencyKeyConflict { origin_device_id: "d".to_owned(), idempotency_key: "k".to_owned() })
            .message(),
        "idempotency key `k` of device `d` was already used for a different mutation"
    );
    assert_eq!(
        StoreError::ReplayTargetMismatch { object_id: "log_a".to_owned(), expected_table: Table::Logs }.message(),
        "recorded mutation target `log_a` is not a result in `logs`"
    );
    assert_eq!(
        StoreError::InvalidPayload(PayloadViolation::MootRequiresReason).message(),
        "invalid JSON payload: UBU-D0227: task status `moot` requires moot_reason_code"
    );
}
