use ubu_store::admission::{ObjectChecks, ObjectType};
use ubu_store::candidates::{
    admit_advisory_candidate, find_suppression_record, get_advisory_candidate, list_candidate_decision_events,
    reject_advisory_candidate, rejection_suppression_key, review_queue, store_advisory_candidate,
    transition_advisory_candidate, AdvisoryCandidate, DecisionChecks, RejectionChecks, RejectionInput, SuppressionDraft,
};
use ubu_store::envelope::{MutationEnvelope, MutationKey, VersionRef};
use ubu_store::errors::{CoreError, DatabaseError, Table};
use ubu_store::json::{json_link, json_str_member};
use ubu_store::models::candidate_record::{CandidateLifecycleState, CandidateRecord};
use ubu_store::models::object_record::NewObjectRecord;
use ubu_store::queries::{admit_object, get_current_state, get_recorded_mutation, query_active_tasks};
use ubu_store::models::task_record::TaskMappingFields;
use ubu_store::store::UbuStore;
use ubu_store::StoreError;

const CAND: &str = "advcand_0190a0b0c0d07e0f8a0b0c0d0e0f1a40";
const TASK_ID: &str = "task_0190a0b0c0d07e0f8a0b0c0d0e0f1a41";

fn envelope(key: &str, observed: Vec<(&str, VersionRef)>) -> MutationEnvelope {
    MutationEnvelope {
        origin_device_id: "device-a".to_owned(),
        idempotency_key: key.to_owned(),
        observed_versions: observed.into_iter().map(|(id, v)| (id.to_owned(), v)).collect(),
        actor_identity_id: "ident_user".to_owned(),
        authority_source: "user".to_owned(),
        created_time: "2026-06-10T14:30:00Z".to_owned(),
        effective_time: "2026-06-10T14:31:00Z".to_owned(),
        recorded_time: format!("2026-06-10T15:00:00Z#{key}"),
        envelope_json: format!("{{\"key\":\"{key}\"}}"),
        validation: Ok(()),
    }
}

fn proposal(id: &str, review_order: Option<i64>, proposed_at: &str) -> AdvisoryCandidate {
    AdvisoryCandidate {
        advisory_candidate_id: id.to_owned(),
        candidate_kind: "task_suggestion".to_owned(),
        lifecycle_state: CandidateLifecycleState::Proposed,
        version: 1,
        suppression_key: None,
        review_order,
        proposed_at: proposed_at.to_owned(),
        payload_json: format!(
            "{{\"advisory_candidate_id\":\"{id}\",\"lifecycle_state\":\"proposed\",\"version\":1,\"links\":{{}}}}"
        ),
    }
}

fn store_proposal(store: &mut UbuStore, key: &str, candidate: AdvisoryCandidate) -> Result<CandidateRecord, StoreError> {
    let canonical = format!("{{\"operation\":\"store\",\"candidate\":{}}}", candidate.payload_json);
    store_advisory_candidate(store, &envelope(key, vec![]), candidate, canonical, &Ok(()))
}

fn transition(store: &mut UbuStore, key: &str, observed: u64, next: CandidateLifecycleState, trigger: Option<&str>) -> Result<CandidateRecord, StoreError> {
    transition_advisory_candidate(
        store,
        &envelope(key, vec![]),
        CAND,
        observed,
        next,
        trigger.map(str::to_owned),
        format!("{{\"operation\":\"transition\",\"observed\":{observed},\"next\":\"{}\"}}", next.spelling()),
        &decided(Ok(())),
    )
}

/// The core crate's answers on a decision: `transition`, and a serialization of
/// the decided candidate that holds no JSON value, so the library stores the
/// payload it computes.
fn decided(transition: Result<(), CoreError>) -> DecisionChecks {
    DecisionChecks { transition, decided_candidate: Ok(String::new()) }
}

fn rejection_input(key: Option<&str>) -> RejectionInput {
    RejectionInput {
        rejection_reason_or_user_correction: "not relevant".to_owned(),
        retention_policy: "keep_forever".to_owned(),
        evidence_hashes_or_source_fingerprints: vec!["sha256:abc".to_owned()],
        suppression_key: key.map(str::to_owned),
    }
}

fn rejection_checks() -> RejectionChecks {
    RejectionChecks {
        transition: Ok(()),
        derived_suppression_key: "supp:task_suggestion:derived".to_owned(),
        suppression_record: Ok(SuppressionDraft {
            payload_json: "{\"decision\":\"rejected\"}".to_owned(),
            decided_at: "2026-06-10T14:31:00Z".to_owned(),
        }),
        decided_candidate: Ok(String::new()),
    }
}

fn task_checks() -> ObjectChecks {
    ObjectChecks {
        id_type: Ok(ObjectType::Task),
        compartment_label: Ok(()),
        created_at: Ok(()),
        updated_at: Ok(()),
        task_status_is_moot: Ok(false),
        payload_id_type: Ok(ObjectType::Task),
        provenance: Ok(()),
        authority_source: Ok(()),
        payload_label: Ok(()),
        duration_estimate: Err("absent".to_owned()),
        correlation_groups: Err("absent".to_owned()),
        task_mapping: Ok(TaskMappingFields { static_window: None, tags: None, category_tag: None }),
    }
}

fn task_record() -> NewObjectRecord {
    NewObjectRecord {
        id: TASK_ID.to_owned(),
        object_type: "Task".to_owned(),
        version: 1,
        status: "active".to_owned(),
        compartment_label: "default".to_owned(),
        payload: format!("{{\"id\":\"{TASK_ID}\",\"status\":\"active\",\"provenance\":{{\"source\":\"advisory\"}}}}"),
        created_at: "2026-06-10T14:30:00Z".to_owned(),
        updated_at: "2026-06-10T14:30:00Z".to_owned(),
    }
}

#[test]
fn stores_a_proposal_as_candidate_state_only() {
    let mut store = UbuStore::in_memory();
    let row = store_proposal(&mut store, "k1", proposal(CAND, Some(3), "2026-06-09T08:00:00Z")).expect("stored");
    assert_eq!(row.lifecycle_state, "proposed");
    assert_eq!(row.version, 1);
    assert_eq!(row.created_at, "2026-06-09T08:00:00Z");
    assert_eq!(row.updated_at, "2026-06-10T15:00:00Z#k1");
    assert_eq!(row.candidate_kind, "task_suggestion");
    assert_eq!(get_advisory_candidate(&store, CAND), Some(row.clone()));
    assert_eq!(review_queue(&store), vec![row]);
    assert_eq!(get_current_state(&store, CAND, &Ok(())), Ok(None));
    assert!(query_active_tasks(&store).is_empty());
    // The ledger keeps the request, but the canonical view does not show it.
    assert!(get_recorded_mutation(&store, &MutationKey { origin_device_id: "device-a".to_owned(), idempotency_key: "k1".to_owned() }).is_none());
}

#[test]
fn proposal_replay_is_idempotent() {
    let mut store = UbuStore::in_memory();
    let first = store_proposal(&mut store, "k1", proposal(CAND, None, "2026-06-09T08:00:00Z")).expect("stored");
    let after = store.clone();
    let again = store_proposal(&mut store, "k1", proposal(CAND, None, "2026-06-09T08:00:00Z")).expect("replayed");
    assert_eq!(again, first);
    assert_eq!(store, after);
    let err = store_advisory_candidate(
        &mut store,
        &envelope("k1", vec![]),
        proposal(CAND, Some(1), "2026-06-09T08:00:00Z"),
        "{\"operation\":\"store\",\"review_order\":1}".to_owned(),
        &Ok(()),
    )
    .expect_err("conflict");
    assert!(matches!(err, StoreError::Core(CoreError::IdempotencyKeyConflict { .. })));
    assert_eq!(store, after);
}

#[test]
fn proposal_refusals() {
    let mut store = UbuStore::in_memory();
    let mut deferred = proposal(CAND, None, "2026-06-09T08:00:00Z");
    deferred.lifecycle_state = CandidateLifecycleState::Deferred;
    assert_eq!(
        store_proposal(&mut store, "k1", deferred),
        Err(StoreError::InvalidInitialCandidateState { state: CandidateLifecycleState::Deferred })
    );
    let candidate = proposal(CAND, None, "2026-06-09T08:00:00Z");
    assert_eq!(
        store_advisory_candidate(
            &mut store,
            &envelope("k1", vec![]),
            candidate,
            "{}".to_owned(),
            &Err(CoreError::Refused { message: "version must be at least 1".to_owned() })
        ),
        Err(StoreError::Core(CoreError::Refused { message: "version must be at least 1".to_owned() }))
    );
    let mut huge = proposal(CAND, None, "2026-06-09T08:00:00Z");
    huge.version = u64::MAX;
    assert_eq!(
        store_proposal(&mut store, "k1", huge),
        Err(StoreError::ObjectVersionExhausted { object_id: CAND.to_owned(), version: u64::MAX })
    );
    assert_eq!(store, UbuStore::in_memory());
    store_proposal(&mut store, "k1", proposal(CAND, None, "2026-06-09T08:00:00Z")).expect("stored");
    assert_eq!(
        store_proposal(&mut store, "k2", proposal(CAND, None, "2026-06-09T08:00:00Z")),
        Err(StoreError::Sqlx(DatabaseError::UniqueViolation { table: Table::AdvisoryCandidates, key: CAND.to_owned() }))
    );
}

#[test]
fn deferral_and_resurfacing_are_linked_decisions() {
    let mut store = UbuStore::in_memory();
    store_proposal(&mut store, "k1", proposal(CAND, None, "2026-06-09T08:00:00Z")).expect("stored");
    let deferred = transition(&mut store, "k2", 1, CandidateLifecycleState::Deferred, None).expect("deferred");
    assert_eq!(deferred.version, 2);
    assert_eq!(deferred.lifecycle_state, "deferred");
    assert_eq!(deferred.updated_at, "2026-06-10T15:00:00Z#k2");
    let deferral_event = "canddec:[\"device-a\",\"k2\"]";
    assert_eq!(json_link(&deferred.payload_json, "deferral_ref"), Some(deferral_event.to_owned()));
    assert_eq!(json_str_member(&deferred.payload_json, "lifecycle_state"), Some("deferred".to_owned()));
    assert!(review_queue(&store).is_empty());

    let resurfaced = transition(&mut store, "k3", 2, CandidateLifecycleState::Resurfaced, Some("date_reached")).expect("resurfaced");
    assert_eq!(resurfaced.version, 3);
    assert_eq!(resurfaced.lifecycle_state, "resurfaced");
    assert_eq!(json_link(&resurfaced.payload_json, "prior_deferral_ref"), Some(deferral_event.to_owned()));
    assert_eq!(json_link(&resurfaced.payload_json, "resurface_trigger"), Some("date_reached".to_owned()));
    assert_eq!(json_link(&resurfaced.payload_json, "resurfacing_ref"), Some("canddec:[\"device-a\",\"k3\"]".to_owned()));
    assert_eq!(review_queue(&store), vec![resurfaced]);

    let events = list_candidate_decision_events(&store, CAND);
    assert_eq!(events.len(), 2);
    assert_eq!(events[0].id, deferral_event);
    assert_eq!(events[0].from_state, "proposed");
    assert_eq!(events[0].to_state, "deferred");
    assert_eq!(events[0].observed_candidate_version, 1);
    assert_eq!(events[0].envelope_json, "{\"key\":\"k2\"}");
    assert_eq!(events[1].from_state, "deferred");
    assert_eq!(events[1].to_state, "resurfaced");
    assert_eq!(events[1].resurface_trigger, Some("date_reached".to_owned()));
    assert_eq!(events[1].observed_candidate_version, 2);
    assert_eq!(events[1].resulting_object_id, None);
}

#[test]
fn transition_replay_is_idempotent() {
    let mut store = UbuStore::in_memory();
    store_proposal(&mut store, "k1", proposal(CAND, None, "2026-06-09T08:00:00Z")).expect("stored");
    let deferred = transition(&mut store, "k2", 1, CandidateLifecycleState::Deferred, None).expect("deferred");
    let after = store.clone();
    assert_eq!(transition(&mut store, "k2", 1, CandidateLifecycleState::Deferred, None), Ok(deferred));
    assert_eq!(store, after);
}

#[test]
fn transition_refusals() {
    let mut store = UbuStore::in_memory();
    assert_eq!(
        transition(&mut store, "k2", 1, CandidateLifecycleState::Deferred, None),
        Err(StoreError::CandidateMissing { id: CAND.to_owned() })
    );
    store_proposal(&mut store, "k1", proposal(CAND, None, "2026-06-09T08:00:00Z")).expect("stored");
    let before = store.clone();
    assert_eq!(
        transition(&mut store, "k2", 4, CandidateLifecycleState::Deferred, None),
        Err(StoreError::PreconditionFailed { object_id: CAND.to_owned(), expected: "v4".to_owned(), actual: "v1".to_owned() })
    );
    assert_eq!(
        transition(&mut store, "k3", 1, CandidateLifecycleState::Admitted, None),
        Err(StoreError::DedicatedCandidateWriterRequired { state: CandidateLifecycleState::Admitted })
    );
    assert_eq!(
        transition(&mut store, "k4", 1, CandidateLifecycleState::Rejected, None),
        Err(StoreError::DedicatedCandidateWriterRequired { state: CandidateLifecycleState::Rejected })
    );
    assert_eq!(
        transition_advisory_candidate(
            &mut store,
            &envelope("k5", vec![]),
            CAND,
            1,
            CandidateLifecycleState::Resurfaced,
            None,
            "{}".to_owned(),
            &decided(Err(CoreError::Refused { message: "illegal transition proposed -> resurfaced".to_owned() })),
        ),
        Err(StoreError::Core(CoreError::Refused { message: "illegal transition proposed -> resurfaced".to_owned() }))
    );
    assert_eq!(store, before);
}

#[test]
fn rejection_records_suppression_without_canonical_state() {
    let mut store = UbuStore::in_memory();
    store_proposal(&mut store, "k1", proposal(CAND, None, "2026-06-09T08:00:00Z")).expect("stored");
    let rejected = reject_advisory_candidate(&mut store, &envelope("k2", vec![]), CAND, 1, &rejection_input(None), "{\"op\":\"reject\"}".to_owned(), rejection_checks())
        .expect("rejected");
    assert_eq!(rejected.lifecycle_state, "rejected");
    assert_eq!(rejected.version, 2);
    assert_eq!(rejected.suppression_key, Some("supp:task_suggestion:derived".to_owned()));
    assert_eq!(json_str_member(&rejected.payload_json, "suppression_key"), Some("supp:task_suggestion:derived".to_owned()));
    assert_eq!(json_link(&rejected.payload_json, "rejection_ref"), Some("canddec:[\"device-a\",\"k2\"]".to_owned()));
    let suppression = find_suppression_record(&store, "supp:task_suggestion:derived").expect("suppression stored");
    assert_eq!(suppression.advisory_candidate_id, CAND);
    assert_eq!(suppression.payload_json, "{\"decision\":\"rejected\"}");
    assert_eq!(suppression.decided_at, "2026-06-10T14:31:00Z");
    assert!(query_active_tasks(&store).is_empty());
    assert!(review_queue(&store).is_empty());
    assert_eq!(find_suppression_record(&store, "supp:other"), None);
}

#[test]
fn rejection_keys_and_conflicts() {
    assert_eq!(rejection_suppression_key(&None, &None, "derived"), Ok("derived".to_owned()));
    assert_eq!(rejection_suppression_key(&None, &Some("given".to_owned()), "derived"), Ok("given".to_owned()));
    assert_eq!(rejection_suppression_key(&Some("kept".to_owned()), &None, "derived"), Ok("kept".to_owned()));
    assert_eq!(rejection_suppression_key(&Some("kept".to_owned()), &Some("kept".to_owned()), "derived"), Ok("kept".to_owned()));
    assert_eq!(
        rejection_suppression_key(&Some("kept".to_owned()), &Some("other".to_owned()), "derived"),
        Err(StoreError::SuppressionKeyConflict)
    );

    let mut store = UbuStore::in_memory();
    let mut keyed = proposal(CAND, None, "2026-06-09T08:00:00Z");
    keyed.suppression_key = Some("kept".to_owned());
    store_proposal(&mut store, "k1", keyed).expect("stored");
    let before = store.clone();
    assert_eq!(
        reject_advisory_candidate(&mut store, &envelope("k2", vec![]), CAND, 1, &rejection_input(Some("other")), "{}".to_owned(), rejection_checks()),
        Err(StoreError::SuppressionKeyConflict)
    );
    assert_eq!(store, before);

    // A second candidate cannot overwrite a durable suppression record.
    let second = "advcand_0190a0b0c0d07e0f8a0b0c0d0e0f1a42";
    reject_advisory_candidate(&mut store, &envelope("k3", vec![]), CAND, 1, &rejection_input(None), "{}".to_owned(), rejection_checks())
        .expect("rejected");
    let mut other = proposal(second, None, "2026-06-09T08:00:00Z");
    other.suppression_key = Some("kept".to_owned());
    store_proposal(&mut store, "k4", other).expect("stored");
    assert_eq!(
        reject_advisory_candidate(&mut store, &envelope("k5", vec![]), second, 1, &rejection_input(None), "{}".to_owned(), rejection_checks()),
        Err(StoreError::Sqlx(DatabaseError::UniqueViolation { table: Table::SuppressionRecords, key: "kept".to_owned() }))
    );
}

#[test]
fn candidate_admission_is_ordinary_admission() {
    let mut store = UbuStore::in_memory();
    store_proposal(&mut store, "k1", proposal(CAND, None, "2026-06-09T08:00:00Z")).expect("stored");
    let mut ordinary = store.clone();
    let env = envelope("k2", vec![(TASK_ID, VersionRef::Absent)]);
    let record = task_record();
    let canonical = record.payload.clone();
    let (candidate, object) =
        admit_advisory_candidate(&mut store, &env, CAND, 1, record.clone(), canonical.clone(), &task_checks(), &decided(Ok(())))
            .expect("admitted");
    let expected = admit_object(&mut ordinary, &env, record, canonical, &task_checks()).expect("ordinary admission");
    assert_eq!(object, expected);
    assert_eq!(object.version, 1);
    assert_eq!(candidate.lifecycle_state, "admitted");
    assert_eq!(candidate.version, 2);
    assert_eq!(json_link(&candidate.payload_json, "admission_ref"), Some(TASK_ID.to_owned()));
    assert_eq!(get_current_state(&store, TASK_ID, &Ok(())), Ok(Some(object.clone())));
    let recorded = get_recorded_mutation(&store, &env.mutation_key()).expect("ordinary ledger row");
    assert_eq!(recorded.result_object_id, TASK_ID);
    assert_eq!(recorded.result_version, 1);
    let events = list_candidate_decision_events(&store, CAND);
    assert_eq!(events.len(), 1);
    assert_eq!(events[0].to_state, "admitted");
    assert_eq!(events[0].resulting_object_id, Some(TASK_ID.to_owned()));

    // Replaying the admission answers the current rows and writes nothing.
    let after = store.clone();
    let record = task_record();
    let canonical = record.payload.clone();
    assert_eq!(
        admit_advisory_candidate(&mut store, &env, CAND, 1, record, canonical, &task_checks(), &decided(Ok(()))),
        Ok((candidate, object))
    );
    assert_eq!(store, after);
}

#[test]
fn an_ordinary_admission_is_no_candidate_admission() {
    let mut store = UbuStore::in_memory();
    store_proposal(&mut store, "k1", proposal(CAND, None, "2026-06-09T08:00:00Z")).expect("stored");
    let env = envelope("k2", vec![(TASK_ID, VersionRef::Absent)]);
    let record = task_record();
    let canonical = record.payload.clone();
    admit_object(&mut store, &env, record, canonical, &task_checks()).expect("ordinary admission");
    let before = store.clone();
    let record = task_record();
    let canonical = record.payload.clone();
    assert_eq!(
        admit_advisory_candidate(&mut store, &env, CAND, 1, record, canonical, &task_checks(), &decided(Ok(()))),
        Err(StoreError::ReplayTargetMismatch { object_id: CAND.to_owned(), expected_table: Table::CandidateDecisionEvents })
    );
    assert_eq!(store, before);
}

#[test]
fn failed_candidate_admission_writes_nothing() {
    let mut store = UbuStore::in_memory();
    store_proposal(&mut store, "k1", proposal(CAND, None, "2026-06-09T08:00:00Z")).expect("stored");
    let before = store.clone();
    let mut record = task_record();
    record.status = "ready".to_owned();
    let canonical = record.payload.clone();
    assert!(admit_advisory_candidate(&mut store, &envelope("k2", vec![(TASK_ID, VersionRef::Absent)]), CAND, 1, record, canonical, &task_checks(), &decided(Ok(())))
        .is_err());
    assert_eq!(store, before);
    let record = task_record();
    let canonical = record.payload.clone();
    assert_eq!(
        admit_advisory_candidate(&mut store, &envelope("k3", vec![(TASK_ID, VersionRef::Absent)]), CAND, 2, record, canonical, &task_checks(), &decided(Ok(()))),
        Err(StoreError::PreconditionFailed { object_id: CAND.to_owned(), expected: "v2".to_owned(), actual: "v1".to_owned() })
    );
    assert_eq!(store, before);
}

#[test]
fn review_queue_orders_by_review_order_then_time_then_id() {
    let mut store = UbuStore::in_memory();
    let ids = [
        "advcand_0190a0b0c0d07e0f8a0b0c0d0e0f0001",
        "advcand_0190a0b0c0d07e0f8a0b0c0d0e0f0002",
        "advcand_0190a0b0c0d07e0f8a0b0c0d0e0f0003",
        "advcand_0190a0b0c0d07e0f8a0b0c0d0e0f0004",
        "advcand_0190a0b0c0d07e0f8a0b0c0d0e0f0005",
    ];
    store_proposal(&mut store, "k1", proposal(ids[0], Some(2), "2026-06-09T08:00:00Z")).unwrap();
    store_proposal(&mut store, "k2", proposal(ids[1], None, "2026-06-09T09:00:00Z")).unwrap();
    store_proposal(&mut store, "k3", proposal(ids[2], Some(1), "2026-06-09T10:00:00Z")).unwrap();
    store_proposal(&mut store, "k4", proposal(ids[3], Some(2), "2026-06-09T07:00:00Z")).unwrap();
    store_proposal(&mut store, "k5", proposal(ids[4], Some(2), "2026-06-09T07:00:00Z")).unwrap();
    let order: Vec<String> = review_queue(&store).into_iter().map(|c| c.advisory_candidate_id).collect();
    assert_eq!(order, vec![ids[1], ids[2], ids[3], ids[4], ids[0]]);
}

#[test]
fn rejection_replay_is_idempotent() {
    let mut store = UbuStore::in_memory();
    store_proposal(&mut store, "k1", proposal(CAND, None, "2026-06-09T08:00:00Z")).expect("stored");
    let reject = |store: &mut UbuStore| {
        reject_advisory_candidate(store, &envelope("k2", vec![]), CAND, 1, &rejection_input(None), "{\"op\":\"reject\"}".to_owned(), rejection_checks())
    };
    let first = reject(&mut store).expect("rejected");
    let after = store.clone();
    assert_eq!(reject(&mut store), Ok(first));
    assert_eq!(store, after);
}

#[test]
fn decisions_stay_out_of_the_canonical_ledger_view() {
    let mut store = UbuStore::in_memory();
    store_proposal(&mut store, "k1", proposal(CAND, None, "2026-06-09T08:00:00Z")).expect("stored");
    transition(&mut store, "k2", 1, CandidateLifecycleState::Archived, None).expect("archived");
    let key = MutationKey { origin_device_id: "device-a".to_owned(), idempotency_key: "k2".to_owned() };
    assert!(get_recorded_mutation(&store, &key).is_none());
    // The request is recorded all the same: reusing its key with another payload conflicts.
    let err = transition(&mut store, "k2", 2, CandidateLifecycleState::Resurfaced, None).expect_err("conflict");
    assert!(matches!(err, StoreError::Core(CoreError::IdempotencyKeyConflict { .. })));
}

/// `doc` (a JSON object) with its members listed in reverse order.
fn reversed_members(doc: &str) -> String {
    let value: serde_json::Value = serde_json::from_str(doc).expect("object");
    let members: Vec<String> = value
        .as_object()
        .expect("object")
        .iter()
        .rev()
        .map(|(k, v)| format!("{}:{}", serde_json::to_string(k).unwrap(), v))
        .collect();
    format!("{{{}}}", members.join(","))
}

fn defer_with(store: &mut UbuStore, decided_candidate: Result<String, CoreError>) -> Result<CandidateRecord, StoreError> {
    transition_advisory_candidate(
        store,
        &envelope("k2", vec![]),
        CAND,
        1,
        CandidateLifecycleState::Deferred,
        None,
        "{\"operation\":\"defer\"}".to_owned(),
        &DecisionChecks { transition: Ok(()), decided_candidate },
    )
}

#[test]
fn a_decided_candidate_the_core_refuses_is_not_written() {
    let mut store = UbuStore::in_memory();
    store_proposal(&mut store, "k1", proposal(CAND, None, "2026-06-09T08:00:00Z")).expect("stored");
    let before = store.clone();
    let refusal = CoreError::Refused { message: "deferred candidate needs a deferral_ref".to_owned() };
    assert_eq!(defer_with(&mut store, Err(refusal.clone())), Err(StoreError::Core(refusal)));
    assert_eq!(store, before);
}

#[test]
fn a_decision_stores_the_core_serialization_of_the_same_value() {
    let mut computed_store = UbuStore::in_memory();
    store_proposal(&mut computed_store, "k1", proposal(CAND, None, "2026-06-09T08:00:00Z")).expect("stored");
    let mut core_store = computed_store.clone();
    let computed = defer_with(&mut computed_store, Ok(String::new())).expect("deferred").payload_json;
    // The core crate lists the same members in its own order: that text is kept.
    let in_core_order = reversed_members(&computed);
    assert_ne!(in_core_order, computed);
    let stored = defer_with(&mut core_store, Ok(in_core_order.clone())).expect("deferred").payload_json;
    assert_eq!(stored, in_core_order);
}

#[test]
fn a_decision_keeps_its_own_payload_when_the_core_text_holds_another_value() {
    let mut computed_store = UbuStore::in_memory();
    store_proposal(&mut computed_store, "k1", proposal(CAND, None, "2026-06-09T08:00:00Z")).expect("stored");
    let mut other_store = computed_store.clone();
    let computed = defer_with(&mut computed_store, Ok(String::new())).expect("deferred").payload_json;
    let stored = defer_with(&mut other_store, Ok("{\"lifecycle_state\":\"proposed\"}".to_owned())).expect("deferred").payload_json;
    assert_eq!(stored, computed);
}
