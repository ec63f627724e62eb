use ubu_store::candidates::decision_id;
use ubu_store::envelope::MutationEnvelope;

fn envelope(device: &str, key: &str) -> MutationEnvelope {
    MutationEnvelope {
        origin_device_id: device.to_owned(),
        idempotency_key: key.to_owned(),
        observed_versions: vec![],
        actor_identity_id: "ident_user".to_owned(),
        authority_source: "user".to_owned(),
        created_time: "2026-06-10T14:30:00Z".to_owned(),
        effective_time: "2026-06-10T14:30:00Z".to_owned(),
        recorded_time: "2026-06-10T14:30:05Z".to_owned(),
        envelope_json: "{}".to_owned(),
        validation: Ok(()),
    }
}

#[test]
fn decision_id_is_the_json_encoded_key_pair() {
    assert_eq!(decision_id(&envelope("d", "k")), "canddec:[\"d\",\"k\"]");
}

#[test]
fn decision_id_escapes_quotes_backslashes_and_controls() {
    assert_eq!(decision_id(&envelope("a\"b", "c\\d")), "canddec:[\"a\\\"b\",\"c\\\\d\"]");
    assert_eq!(decision_id(&envelope("t\tn\n", "\u{1}")), "canddec:[\"t\\tn\\n\",\"\\u0001\"]");
}

#[test]
fn decision_ids_do_not_collide_across_split_points() {
    // Both pairs concatenate to the same text; their ids differ.
    let first = decision_id(&envelope("a\",\"b", "c"));
    let second = decision_id(&envelope("a", "b\",\"c"));
    assert_ne!(first, second);
    assert_ne!(decision_id(&envelope("ab", "c")), decision_id(&envelope("a", "bc")));
}

#[test]
fn decision_id_is_stable_across_retries() {
    assert_eq!(decision_id(&envelope("device-a", "key-1")), decision_id(&envelope("device-a", "key-1")));
}
