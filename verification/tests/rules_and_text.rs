use ubu_store::errors::{CoreError, CorrelationGroupViolation, DurationEstimateViolation, Table};
use ubu_store::json::{
    json_has_member, json_is_object, json_link, json_pair_text, json_set_integer, json_set_link, json_set_text,
    json_str_member,
};
use ubu_store::models::candidate_record::CandidateLifecycleState;
use ubu_store::models::task_record::{validate_correlation_groups, CorrelationGroupCheck, TaskDurationEstimate};
use ubu_store::text::{render_version_label, same_text, text_like_contains, text_precedes};
use ubu_store::StoreError;

fn group(name: &str, in_range: bool) -> CorrelationGroupCheck {
    CorrelationGroupCheck { group: name.to_owned(), strength_in_range: in_range }
}

#[test]
fn fixed_estimates_need_a_positive_duration() {
    assert_eq!(TaskDurationEstimate::Fixed { seconds: 1800 }.validate(), Ok(()));
    assert_eq!(
        TaskDurationEstimate::Fixed { seconds: 0 }.validate(),
        Err(StoreError::Core(CoreError::InvalidTaskDurationEstimate { violation: DurationEstimateViolation::ZeroSeconds }))
    );
}

#[test]
fn three_point_estimates_must_strictly_increase() {
    let ok = TaskDurationEstimate::ShiftedLognormalP95 { min_seconds: 600, mode_seconds: 1200, p95_seconds: 3600 };
    assert_eq!(ok.validate(), Ok(()));
    for (min, mode, p95) in [(600, 600, 3600), (600, 3600, 3600), (1200, 600, 3600), (0, 0, 0)] {
        let e = TaskDurationEstimate::ShiftedLognormalP95 { min_seconds: min, mode_seconds: mode, p95_seconds: p95 };
        assert_eq!(
            e.validate(),
            Err(StoreError::Core(CoreError::InvalidTaskDurationEstimate {
                violation: DurationEstimateViolation::NotStrictlyIncreasing
            }))
        );
    }
}

#[test]
fn correlation_groups_need_range_and_unique_names() {
    assert_eq!(validate_correlation_groups(&vec![]), Ok(()));
    assert_eq!(validate_correlation_groups(&vec![group("a", true), group("b", true)]), Ok(()));
    assert_eq!(
        validate_correlation_groups(&vec![group("a", true), group("b", false)]),
        Err(StoreError::Core(CoreError::InvalidTaskCorrelationGroup { violation: CorrelationGroupViolation::StrengthOutOfRange }))
    );
    assert_eq!(
        validate_correlation_groups(&vec![group("a", true), group("b", true), group("a", true)]),
        Err(StoreError::Core(CoreError::InvalidTaskCorrelationGroup { violation: CorrelationGroupViolation::DuplicateName }))
    );
    // The first refusal met, in list order, stands.
    assert_eq!(
        validate_correlation_groups(&vec![group("a", true), group("a", true), group("c", false)]),
        Err(StoreError::Core(CoreError::InvalidTaskCorrelationGroup { violation: CorrelationGroupViolation::DuplicateName }))
    );
}

#[test]
fn version_labels() {
    assert_eq!(render_version_label(None), "absent");
    assert_eq!(render_version_label(Some(0)), "v0");
    assert_eq!(render_version_label(Some(7)), "v7");
    assert_eq!(render_version_label(Some(1203)), "v1203");
    assert_eq!(render_version_label(Some(u64::MAX)), "v18446744073709551615");
}

#[test]
fn text_comparisons() {
    assert!(same_text("abc", "abc"));
    assert!(!same_text("abc", "abd"));
    assert!(!same_text("abc", "ab"));
    assert!(text_precedes("2026-06-10", "2026-06-11"));
    assert!(!text_precedes("2026-06-11", "2026-06-10"));
    assert!(!text_precedes("same", "same"));
    assert!(text_precedes("ab", "abc"));
    assert!(!text_precedes("abc", "ab"));
    assert!(text_precedes("Z", "a"));
    assert!(text_like_contains("[\"task_1\",\"task_2\"]", "task_2"));
    assert!(text_like_contains("abc", ""));
    assert!(!text_like_contains("[\"task_1\"]", "task_2"));
    assert!(!text_like_contains("ab", "abc"));
    // LIKE: `_` matches any one character, `%` any run, ASCII letters in either case.
    assert!(text_like_contains("[\"TASK-1\"]", "task_1"));
    assert!(text_like_contains("[\"task_1\",\"x\"]", "task%x"));
    assert!(!text_like_contains("[\"taskA1\"]", "task__1"));
    assert!(!text_like_contains("[\"\u{e9}\"]", "\u{c9}"));
}

#[test]
fn json_readers() {
    let doc = "{\"id\":\"task_1\",\"n\":3,\"links\":{\"deferral_ref\":\"e1\",\"none\":null}}";
    assert!(json_is_object(doc));
    assert!(!json_is_object("[1]"));
    assert!(!json_is_object("not json"));
    assert_eq!(json_str_member(doc, "id"), Some("task_1".to_owned()));
    assert_eq!(json_str_member(doc, "n"), None);
    assert_eq!(json_str_member(doc, "missing"), None);
    assert_eq!(json_str_member("[\"id\"]", "id"), None);
    assert!(json_has_member(doc, "n"));
    assert!(!json_has_member(doc, "missing"));
    assert!(!json_has_member("{oops", "n"));
    assert_eq!(json_link(doc, "deferral_ref"), Some("e1".to_owned()));
    assert_eq!(json_link(doc, "none"), None);
    assert_eq!(json_link(doc, "absent"), None);
}

#[test]
fn json_writers() {
    assert_eq!(json_pair_text("device-a", "k\"1"), "[\"device-a\",\"k\\\"1\"]");
    let doc = "{\"a\":1,\"links\":{}}";
    let with_text = json_set_text(doc, "state", "deferred");
    assert_eq!(json_str_member(&with_text, "state"), Some("deferred".to_owned()));
    assert!(json_has_member(&with_text, "a"));
    let with_int = json_set_integer(&with_text, "version", 4);
    assert!(with_int.contains("\"version\":4"));
    let linked = json_set_link(&with_int, "deferral_ref", Some("e9"));
    assert_eq!(json_link(&linked, "deferral_ref"), Some("e9".to_owned()));
    let cleared = json_set_link(&linked, "deferral_ref", None);
    assert_eq!(json_link(&cleared, "deferral_ref"), None);
    assert!(cleared.contains("\"deferral_ref\":null"));
    // Documents of another shape come back unchanged.
    assert_eq!(json_set_text("[1]", "k", "v"), "[1]");
    assert_eq!(json_set_link("{\"a\":1}", "x", Some("y")), "{\"a\":1}");
}

#[test]
fn lifecycle_state_spellings() {
    assert_eq!(CandidateLifecycleState::INITIAL, CandidateLifecycleState::Proposed);
    let spelled: Vec<String> = [
        CandidateLifecycleState::Proposed,
        CandidateLifecycleState::Deferred,
        CandidateLifecycleState::Resurfaced,
        CandidateLifecycleState::Admitted,
        CandidateLifecycleState::Rejected,
        CandidateLifecycleState::Archived,
    ]
    .iter()
    .map(|s| s.spelling())
    .collect();
    assert_eq!(spelled, vec!["proposed", "deferred", "resurfaced", "admitted", "rejected", "archived"]);
}

#[test]
fn table_names() {
    assert_eq!(Table::Objects.as_str(), "objects");
    assert_eq!(Table::MutationEnvelopes.as_str(), "mutation_envelopes");
    assert_eq!(Table::CandidateDecisionEvents.as_str(), "candidate_decision_events");
    assert_eq!(Table::SuppressionRecords.as_str(), "suppression_records");
}
