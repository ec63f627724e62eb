use ubu_store::admission::{object_type_from_str, ObjectType};
use ubu_store::StoreError;

#[test]
fn accepts_new_core_object_type_names() {
    for (name, expected) in [
        ("Preference", ObjectType::Preference),
        ("Container", ObjectType::Container),
        ("UniverseState", ObjectType::UniverseState),
        ("Identity", ObjectType::Identity),
        ("Relationship", ObjectType::Relationship),
        ("ExternalEvent", ObjectType::ExternalEvent),
    ] {
        assert_eq!(object_type_from_str(name).expect("known type"), expected);
    }
}

#[test]
fn rejects_unknown_object_type_name() {
    assert!(object_type_from_str("Widget").is_err());
}

#[test]
fn unknown_object_type_names_the_declared_text() {
    assert_eq!(
        object_type_from_str("Widget"),
        Err(StoreError::UnknownObjectType("Widget".to_owned()))
    );
    // Names are matched exactly, case included.
    assert!(object_type_from_str("task").is_err());
    assert!(object_type_from_str("").is_err());
}

#[test]
fn every_declared_name_reads_back_as_its_type() {
    let all = [
        ObjectType::Task,
        ObjectType::Objective,
        ObjectType::Plan,
        ObjectType::LogEntry,
        ObjectType::ExternalReference,
        ObjectType::Compartment,
        ObjectType::Snapshot,
        ObjectType::AutomationWorker,
        ObjectType::ProjectionPreview,
        ObjectType::Calendar,
        ObjectType::Preference,
        ObjectType::Container,
        ObjectType::UniverseState,
        ObjectType::Identity,
        ObjectType::Relationship,
        ObjectType::ExternalEvent,
    ];
    for t in all {
        assert_eq!(object_type_from_str(t.as_str()), Ok(t));
    }
    assert_eq!(ObjectType::Task.as_str(), "Task");
    assert_eq!(ObjectType::ExternalReference.as_str(), "ExternalReference");
}
