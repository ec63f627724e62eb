use serde_json::Value;
use ubu_store::admission::{ObjectChecks, ObjectType};
use ubu_store::envelope::{MutationEnvelope, VersionRef};
use ubu_store::errors::CoreError;
use ubu_store::models::object_record::NewObjectRecord;
use ubu_store::models::task_record::{StaticWindow, TaskDurationEstimate, TaskMappingFields};
use ubu_store::queries::{admit_object, get_current_state};
use ubu_store::store::UbuStore;
use ubu_store::StoreError;

const ID: &str = "task_0190a0b0c0d07e0f8a0b0c0d0e0f2a01";

// Instants of the window timestamps used below, in nanoseconds since the epoch.
const AT_10_00: i128 = 1_789_984_800_000_000_000; // 2026-09-21T10:00:00Z
const AT_11_00: i128 = 1_789_988_400_000_000_000; // 2026-09-21T11:00:00Z
const AT_09_59_59: i128 = 1_789_984_799_000_000_000; // 2026-09-21T09:59:59Z

fn envelope(key: &str, expected: VersionRef) -> MutationEnvelope {
    MutationEnvelope {
        origin_device_id: "test-device".to_owned(),
        idempotency_key: key.to_owned(),
        observed_versions: vec![(ID.to_owned(), expected)],
        actor_identity_id: "ident_user".to_owned(),
        authority_source: "user".to_owned(),
        created_time: "2026-09-20T09:00:00Z".to_owned(),
        effective_time: "2026-09-20T09:00:00Z".to_owned(),
        recorded_time: "2026-09-20T09:00:01Z".to_owned(),
        envelope_json: "{}".to_owned(),
        validation: Ok(()),
    }
}

/// The test Task's payload with extra members (a JSON object's inside, or "").
fn payload(fields: &str) -> String {
    let separator = if fields.is_empty() { "" } else { "," };
    format!(
        "{{\"id\":\"{ID}\",\"title\":\"Mapping fields\",\"status\":\"active\",\"provenance\":{{\"created_at\":\"2026-09-20T09:00:00Z\",\"authority_source\":\"user\"}},\"wrapper_metadata\":{{\"retained\":true}}{separator}{fields}}}"
    )
}

fn record(fields: &str) -> NewObjectRecord {
    NewObjectRecord {
        id: ID.to_owned(),
        object_type: "Task".into(),
        version: 1,
        status: "active".into(),
        compartment_label: "default".into(),
        payload: payload(fields),
        created_at: "2026-09-20T09:00:00Z".into(),
        updated_at: "2026-09-20T09:00:00Z".into(),
    }
}

fn no_mapping() -> TaskMappingFields {
    TaskMappingFields { static_window: None, tags: None, category_tag: None }
}

fn checks(mapping: Result<TaskMappingFields, String>, duration: Option<TaskDurationEstimate>) -> ObjectChecks {
    ObjectChecks {
        id_type: Ok(ObjectType::Task),
        compartment_label: Ok(()),
        created_at: Ok(()),
        updated_at: Ok(()),
        task_status_is_moot: Ok(false),
        payload_id_type: Ok(ObjectType::Task),
        provenance: Ok(()),
        authority_source: Ok(()),
        payload_label: Ok(()),
        duration_estimate: duration.ok_or_else(|| "no duration_estimate member".to_owned()),
        correlation_groups: Err("no correlation_groups member".to_owned()),
        task_mapping: mapping,
    }
}

fn window(start: i128, end: i128) -> Option<StaticWindow> {
    Some(StaticWindow { start, end })
}

fn tags(list: &[&str]) -> Option<Vec<String>> {
    Some(list.iter().map(|t| t.to_string()).collect())
}

fn rejected(fields: &str, mapping: Result<TaskMappingFields, String>) -> StoreError {
    let mut store = UbuStore::in_memory();
    let record = record(fields);
    let canonical = record.payload.clone();
    let error = admit_object(&mut store, &envelope("k1", VersionRef::Absent), record, canonical, &checks(mapping, None))
        .unwrap_err();
    assert_eq!(get_current_state(&store, ID, &Ok(())), Ok(None));
    // Nothing was written, the ledger included.
    assert_eq!(store, UbuStore::in_memory());
    error
}

#[test]
fn admits_static_noncapacity_and_categorized_tasks_with_wrapper_fields() {
    let window_fields = r#""static_window":{"start":"2026-09-21T10:00:00Z","end":"2026-09-21T11:00:00Z"},
        "duration_estimate":{"type":"fixed","seconds":1}"#;
    let cases = [
        (window_fields, TaskMappingFields { static_window: window(AT_10_00, AT_11_00), ..no_mapping() }, Some(TaskDurationEstimate::Fixed { seconds: 1 })),
        (r#""occupies_capacity":false"#, no_mapping(), None),
        (
            r#""tags":["focus","notes"],"category_tag":"focus""#,
            TaskMappingFields { tags: tags(&["focus", "notes"]), category_tag: Some("focus".to_owned()), ..no_mapping() },
            None,
        ),
        (
            r#""static_window":{"start":"2026-09-21T10:00:00Z","end":"2026-09-21T11:00:00Z"},
                "occupies_capacity":false,"tags":["focus"],"category_tag":"focus""#,
            TaskMappingFields {
                static_window: window(AT_10_00, AT_11_00),
                tags: tags(&["focus"]),
                category_tag: Some("focus".to_owned()),
            },
            None,
        ),
        (r#""#, no_mapping(), None),
    ];
    for (fields, mapping, duration) in cases {
        let mut store = UbuStore::in_memory();
        let record = record(fields);
        let expected: Value = serde_json::from_str(&record.payload).unwrap();
        let canonical = record.payload.clone();
        let saved = admit_object(&mut store, &envelope("k1", VersionRef::Absent), record, canonical, &checks(Ok(mapping), duration))
            .unwrap();
        let stored: Value = serde_json::from_str(&saved.payload_json).unwrap();
        assert_eq!(stored, expected);
        // Wrapper fields are kept as given.
        assert_eq!(stored["wrapper_metadata"], serde_json::from_str::<Value>(r#"{"retained":true}"#).unwrap());
    }
}

#[test]
fn rejects_non_increasing_static_windows_with_the_core_error() {
    // The last end is 10:00 at offset -04:00, the same instant as the start.
    for (end, end_instant) in [
        ("2026-09-21T09:59:59Z", AT_09_59_59),
        ("2026-09-21T10:00:00Z", AT_10_00),
        ("2026-09-21T06:00:00-04:00", AT_10_00),
    ] {
        let fields = format!(r#""static_window":{{"start":"2026-09-21T10:00:00Z","end":"{end}"}}"#);
        let mapping = TaskMappingFields { static_window: window(AT_10_00, end_instant), ..no_mapping() };
        assert_eq!(rejected(&fields, Ok(mapping)), StoreError::Core(CoreError::InvalidTaskStaticWindow));
    }
}

#[test]
fn rejects_missing_empty_or_case_mismatched_category_membership() {
    for (fields, tag_list, category) in [
        (r#""category_tag":"focus""#, None, "focus"),
        (r#""tags":[],"category_tag":"focus""#, tags(&[]), "focus"),
        (r#""tags":["focus"],"category_tag":"Focus""#, tags(&["focus"]), "Focus"),
        (r#""tags":["focus"],"category_tag":"missing""#, tags(&["focus"]), "missing"),
        (r#""tags":[""],"category_tag":"""#, tags(&[""]), ""),
    ] {
        let mapping = TaskMappingFields { tags: tag_list, category_tag: Some(category.to_owned()), ..no_mapping() };
        assert_eq!(rejected(fields, Ok(mapping)), StoreError::Core(CoreError::InvalidTaskCategoryTag));
    }
}

#[test]
fn rejects_malformed_new_field_shapes_piecemeal() {
    // What the strict reading of each misshapen member reports.
    for (fields, message) in [
        (r#""static_window":{"start":"2026-09-21T10:00:00Z"}"#, "missing field `end`"),
        (
            r#""static_window":{"start":"not-a-timestamp","end":"2026-09-21T11:00:00Z"}"#,
            "invalid timestamp `not-a-timestamp`",
        ),
        (
            r#""static_window":{"start":"2026-09-21T10:00:00Z","end":"2026-09-21T11:00:00Z","extra":0}"#,
            "unknown field `extra`",
        ),
        (r#""occupies_capacity":"false""#, "invalid type: string \"false\", expected a boolean"),
        (r#""occupies_capacity":null"#, "invalid type: null, expected a boolean"),
        (r#""category_tag":42"#, "invalid type: integer `42`, expected a string"),
        (r#""category_tag":"focus","tags":[3]"#, "invalid type: integer `3`, expected a string"),
    ] {
        assert_eq!(rejected(fields, Err(message.to_owned())), StoreError::Json(message.to_owned()));
    }
}

#[test]
fn invalid_category_update_preserves_existing_task_and_ledger() {
    let mut store = UbuStore::in_memory();
    let categorized = TaskMappingFields { tags: tags(&["focus"]), category_tag: Some("focus".to_owned()), ..no_mapping() };
    let first = record(r#""tags":["focus"],"category_tag":"focus""#);
    let canonical = first.payload.clone();
    let saved = admit_object(&mut store, &envelope("k1", VersionRef::Absent), first, canonical, &checks(Ok(categorized), None))
        .unwrap();
    let before = store.clone();
    let update = record(r#""tags":[],"category_tag":"focus""#);
    let canonical = update.payload.clone();
    let emptied = TaskMappingFields { tags: tags(&[]), category_tag: Some("focus".to_owned()), ..no_mapping() };
    assert_eq!(
        admit_object(&mut store, &envelope("k2", VersionRef::Version(1)), update, canonical, &checks(Ok(emptied), None)),
        Err(StoreError::Core(CoreError::InvalidTaskCategoryTag))
    );
    assert_eq!(get_current_state(&store, ID, &Ok(())), Ok(Some(saved)));
    assert_eq!(store, before);
}
