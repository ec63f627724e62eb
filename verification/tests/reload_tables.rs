use ubu_store::models::object_record::ObjectRecord;
use ubu_store::models::recorded_mutation::RecordedMutation;
use ubu_store::store::{StoredTables, UbuStore};

fn object(id: &str, version: i64) -> ObjectRecord {
    ObjectRecord {
        id: id.to_owned(),
        object_type: "Preference".to_owned(),
        version,
        status: "active".to_owned(),
        compartment_label: "default".to_owned(),
        payload_json: "{}".to_owned(),
        created_at: "2026-06-10T14:30:00Z".to_owned(),
        updated_at: "2026-06-10T14:30:00Z".to_owned(),
    }
}

fn ledger(device: &str, key: &str) -> RecordedMutation {
    RecordedMutation {
        origin_device_id: device.to_owned(),
        idempotency_key: key.to_owned(),
        envelope_json: "{}".to_owned(),
        canonical_payload: "{}".to_owned(),
        result_object_id: "pref_a".to_owned(),
        result_version: 1,
        recorded_at: "2026-06-10T14:30:05Z".to_owned(),
    }
}

fn tables(objects: Vec<ObjectRecord>, ledger_rows: Vec<RecordedMutation>) -> StoredTables {
    StoredTables {
        objects,
        mutation_envelopes: ledger_rows,
        logs: vec![],
        external_references: vec![],
        plans: vec![],
        calendars: vec![],
        worker_submissions: vec![],
        projection_previews: vec![],
        projection_results: vec![],
        advisory_candidates: vec![],
        candidate_decision_events: vec![],
        suppression_records: vec![],
    }
}

#[test]
fn empty_tables_reload_as_the_empty_store() {
    assert_eq!(UbuStore::from_tables(tables(vec![], vec![])), Some(UbuStore::in_memory()));
}

#[test]
fn stored_rows_reload_and_are_read_back() {
    let store = UbuStore::from_tables(tables(
        vec![object("pref_a", 2), object("pref_b", 1)],
        vec![ledger("device-a", "k1"), ledger("device-b", "k1"), ledger("device-a", "k2")],
    ))
    .expect("tables keep the invariant");
    let current = ubu_store::queries::get_current_state(&store, "pref_a", &Ok(())).unwrap().unwrap();
    assert_eq!(current.version, 2);
}

#[test]
fn duplicate_object_ids_are_refused_on_reload() {
    assert_eq!(UbuStore::from_tables(tables(vec![object("pref_a", 1), object("pref_a", 2)], vec![])), None);
}

#[test]
fn duplicate_device_scoped_keys_are_refused_on_reload() {
    assert_eq!(
        UbuStore::from_tables(tables(vec![], vec![ledger("device-a", "k1"), ledger("device-a", "k1")])),
        None
    );
}

#[test]
fn object_version_zero_is_refused_on_reload() {
    assert_eq!(UbuStore::from_tables(tables(vec![object("pref_a", 0)], vec![])), None);
}
