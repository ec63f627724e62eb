//! Admission rules for canonical objects.

use vstd::prelude::*;

use crate::errors::{outcome, CoreError, CoreErrorView, PayloadViolation, PayloadViolationView, StoreError, StoreErrorView};
use crate::json::{json_has_member, json_is_object, json_member_present, json_object_doc, json_str_member, json_str_member_of};
use crate::models::object_record::{NewObjectRecord, NewObjectView};
use crate::models::task_record::{
    correlation_violation, duration_estimate_violation, task_mapping_verdict, validate_correlation_groups,
    validate_task_mapping, CorrelationGroupCheck, TaskDurationEstimate, TaskMappingFields,
};
use crate::text::same_text;

verus! {

/// The object types of the core id registry.
#[derive(Debug, Clone, Copy, PartialEq, Eq, Structural)]
pub enum ObjectType {
    Task,
    Objective,
    Plan,
    LogEntry,
    ExternalReference,
    Compartment,
    Snapshot,
    AutomationWorker,
    ProjectionPreview,
    Calendar,
    Preference,
    Container,
    UniverseState,
    Identity,
    Relationship,
    ExternalEvent,
}

/// The declared name of each object type.
pub open spec fn declared_name(t: ObjectType) -> Seq<char> {
    match t {
        ObjectType::Task => "Task"@,
        ObjectType::Objective => "Objective"@,
        ObjectType::Plan => "Plan"@,
        ObjectType::LogEntry => "LogEntry"@,
        ObjectType::ExternalReference => "ExternalReference"@,
        ObjectType::Compartment => "Compartment"@,
        ObjectType::Snapshot => "Snapshot"@,
        ObjectType::AutomationWorker => "AutomationWorker"@,
        ObjectType::ProjectionPreview => "ProjectionPreview"@,
        ObjectType::Calendar => "Calendar"@,
        ObjectType::Preference => "Preference"@,
        ObjectType::Container => "Container"@,
        ObjectType::UniverseState => "UniverseState"@,
        ObjectType::Identity => "Identity"@,
        ObjectType::Relationship => "Relationship"@,
        ObjectType::ExternalEvent => "ExternalEvent"@,
    }
}

/// The object type a declared name denotes, if it is known.
pub open spec fn type_named(name: Seq<char>) -> Option<ObjectType> {
    if name == "Task"@ { Some(ObjectType::Task) }
    else if name == "Objective"@ { Some(ObjectType::Objective) }
    else if name == "Plan"@ { Some(ObjectType::Plan) }
    else if name == "LogEntry"@ { Some(ObjectType::LogEntry) }
    else if name == "ExternalReference"@ { Some(ObjectType::ExternalReference) }
    else if name == "Compartment"@ { Some(ObjectType::Compartment) }
    else if name == "Snapshot"@ { Some(ObjectType::Snapshot) }
    else if name == "AutomationWorker"@ { Some(ObjectType::AutomationWorker) }
    else if name == "ProjectionPreview"@ { Some(ObjectType::ProjectionPreview) }
    else if name == "Calendar"@ { Some(ObjectType::Calendar) }
    else if name == "Preference"@ { Some(ObjectType::Preference) }
    else if name == "Container"@ { Some(ObjectType::Container) }
    else if name == "UniverseState"@ { Some(ObjectType::UniverseState) }
    else if name == "Identity"@ { Some(ObjectType::Identity) }
    else if name == "Relationship"@ { Some(ObjectType::Relationship) }
    else if name == "ExternalEvent"@ { Some(ObjectType::ExternalEvent) }
    else { None }
}

impl ObjectType {
    /// The type's declared name.
    pub fn as_str(&self) -> (s: &'static str)
        ensures
            s@ == declared_name(*self),
    {
        match self {
            ObjectType::Task => "Task",
            ObjectType::Objective => "Objective",
            ObjectType::Plan => "Plan",
            ObjectType::LogEntry => "LogEntry",
            ObjectType::ExternalReference => "ExternalReference",
            ObjectType::Compartment => "Compartment",
            ObjectType::Snapshot => "Snapshot",
            ObjectType::AutomationWorker => "AutomationWorker",
            ObjectType::ProjectionPreview => "ProjectionPreview",
            ObjectType::Calendar => "Calendar",
            ObjectType::Preference => "Preference",
            ObjectType::Container => "Container",
            ObjectType::UniverseState => "UniverseState",
            ObjectType::Identity => "Identity",
            ObjectType::Relationship => "Relationship",
            ObjectType::ExternalEvent => "ExternalEvent",
        }
    }
}

/// The object type a declared name denotes; an unknown name is refused.
pub fn object_type_from_str(value: &str) -> (r: Result<ObjectType, StoreError>)
    ensures
        match type_named(value@) {
            Some(t) => r == Ok::<ObjectType, StoreError>(t),
            None => r matches Err(e) && e@ == StoreErrorView::UnknownObjectType(value@),
        },
{
    if same_text(value, "Task") { Ok(ObjectType::Task) }
    else if same_text(value, "Objective") { Ok(ObjectType::Objective) }
    else if same_text(value, "Plan") { Ok(ObjectType::Plan) }
    else if same_text(value, "LogEntry") { Ok(ObjectType::LogEntry) }
    else if same_text(value, "ExternalReference") { Ok(ObjectType::ExternalReference) }
    else if same_text(value, "Compartment") { Ok(ObjectType::Compartment) }
    else if same_text(value, "Snapshot") { Ok(ObjectType::Snapshot) }
    else if same_text(value, "AutomationWorker") { Ok(ObjectType::AutomationWorker) }
    else if same_text(value, "ProjectionPreview") { Ok(ObjectType::ProjectionPreview) }
    else if same_text(value, "Calendar") { Ok(ObjectType::Calendar) }
    else if same_text(value, "Preference") { Ok(ObjectType::Preference) }
    else if same_text(value, "Container") { Ok(ObjectType::Container) }
    else if same_text(value, "UniverseState") { Ok(ObjectType::UniverseState) }
    else if same_text(value, "Identity") { Ok(ObjectType::Identity) }
    else if same_text(value, "Relationship") { Ok(ObjectType::Relationship) }
    else if same_text(value, "ExternalEvent") { Ok(ObjectType::ExternalEvent) }
    else { Err(StoreError::UnknownObjectType(value.to_owned())) }
}

/// `a`, unless it passed: then `b`. Checks run in order and the first refusal stands.
pub open spec fn and_check(a: Result<(), StoreErrorView>, b: Result<(), StoreErrorView>) -> Result<(), StoreErrorView> {
    match a {
        Err(e) => Err(e),
        Ok(_) => b,
    }
}

/// The verdict of a core check: its refusal becomes a `Core` error.
pub open spec fn core_verdict(r: Result<(), CoreError>) -> Result<(), StoreErrorView> {
    match r {
        Ok(_) => Ok(()),
        Err(e) => Err(StoreErrorView::Core(e@)),
    }
}

/// The verdict of a JSON read: its failure becomes a `Json` error.
pub open spec fn json_verdict(r: Result<(), String>) -> Result<(), StoreErrorView> {
    match r {
        Ok(_) => Ok(()),
        Err(m) => Err(StoreErrorView::Json(m@)),
    }
}

/// Checking an id against a declared object type: the id must parse (`parsed`
/// is what parsing it gave: the type its prefix registers, or the refusal), the
/// declared type must be known, and the two types must agree.
pub open spec fn id_for_type_verdict(parsed: Result<ObjectType, CoreError>, declared: Seq<char>) -> Result<ObjectType, StoreErrorView> {
    match parsed {
        Err(e) => Err(StoreErrorView::Core(e@)),
        Ok(actual) => match type_named(declared) {
            None => Err(StoreErrorView::UnknownObjectType(declared)),
            Some(expected) => if actual == expected {
                Ok(actual)
            } else {
                Err(StoreErrorView::Core(CoreErrorView::WrongIdObjectType { expected, actual }))
            },
        },
    }
}

/// The verdict of `id_for_type_verdict`, forgetting the type.
pub open spec fn id_check(parsed: Result<ObjectType, CoreError>, declared: Seq<char>) -> Result<(), StoreErrorView> {
    match id_for_type_verdict(parsed, declared) {
        Ok(_) => Ok(()),
        Err(e) => Err(e),
    }
}

/// Validates an id against a declared object type. `parsed` is the core id
/// parser's answer for the id: the object type its prefix registers, or why it
/// does not parse.
pub fn validate_object_id_for_type(parsed: &Result<ObjectType, CoreError>, object_type: &str) -> (r: Result<ObjectType, StoreError>)
    ensures
        outcome(r) == id_for_type_verdict(*parsed, object_type@),
{
    match parsed {
        Err(e) => Err(StoreError::Core(e.clone_core())),
        Ok(actual) => {
            let expected = object_type_from_str(object_type)?;
            if *actual == expected {
                Ok(*actual)
            } else {
                Err(StoreError::Core(CoreError::WrongIdObjectType { expected, actual: *actual }))
            }
        },
    }
}

/// What the core crate and the JSON reader say of parts of a submitted object,
/// for the admission rules to read. Each field is the answer for one part.
#[derive(Debug)]
pub struct ObjectChecks {
    /// The id parser on the record id: the type its prefix registers, or the refusal.
    pub id_type: Result<ObjectType, CoreError>,
    /// The Compartment label parser on the record's label.
    pub compartment_label: Result<(), CoreError>,
    /// The timestamp parser on `created_at`.
    pub created_at: Result<(), CoreError>,
    /// The timestamp parser on `updated_at`.
    pub updated_at: Result<(), CoreError>,
    /// The record status read as a core Task status: whether it is `moot`.
    pub task_status_is_moot: Result<bool, String>,
    /// The id parser on the payload's `id` member.
    pub payload_id_type: Result<ObjectType, CoreError>,
    /// The payload's `provenance` member read as a core Provenance.
    pub provenance: Result<(), String>,
    /// The payload's `authority_source` member read as a core AuthoritySource.
    pub authority_source: Result<(), String>,
    /// The Compartment label parser on the payload's `label` member.
    pub payload_label: Result<(), CoreError>,
    /// The payload's `duration_estimate` member read as a duration estimate.
    pub duration_estimate: Result<TaskDurationEstimate, String>,
    /// The payload's `correlation_groups` member read as a list of groups.
    pub correlation_groups: Result<Vec<CorrelationGroupCheck>, String>,
    /// The core crate's strict reading of a Task payload's scheduling fields
    /// (`static_window`, `occupies_capacity`, `tags`, `category_tag`): the fields,
    /// or why a member has the wrong shape.
    pub task_mapping: Result<TaskMappingFields, String>,
}

/// Task statuses that are derived or noncanonical and must not be persisted.
pub open spec fn noncanonical_task_status(status: Seq<char>) -> bool {
    status == "canceled"@ || status == "ready"@ || status == "in_progress"@
        || status == "proposed"@ || status == "blocked"@
}

/// A Task's status must be canonical, and `moot` goes with a `moot_reason_code`
/// in the payload while every other status goes without one.
pub open spec fn task_lifecycle_verdict(record: NewObjectView, checks: ObjectChecks) -> Result<(), StoreErrorView> {
    if record.object_type != "Task"@ {
        Ok(())
    } else if noncanonical_task_status(record.status) {
        Err(StoreErrorView::InvalidPayload(PayloadViolationView::NoncanonicalTaskStatus { status: record.status }))
    } else {
        match checks.task_status_is_moot {
            Err(m) => Err(StoreErrorView::Json(m@)),
            Ok(moot) => {
                let has_reason = json_member_present(record.payload, "moot_reason_code"@);
                if moot && !has_reason {
                    Err(StoreErrorView::InvalidPayload(PayloadViolationView::MootRequiresReason))
                } else if !moot && has_reason {
                    Err(StoreErrorView::InvalidPayload(PayloadViolationView::MootReasonForbidden { status: record.status }))
                } else {
                    Ok(())
                }
            },
        }
    }
}

/// A Task payload carries the record's status as its own `status` member.
pub open spec fn payload_lifecycle_verdict(record: NewObjectView) -> Result<(), StoreErrorView> {
    if record.object_type != "Task"@ {
        Ok(())
    } else {
        match json_str_member_of(record.payload, "status"@) {
            None => Err(StoreErrorView::InvalidPayload(PayloadViolationView::TaskPayloadMissingStatus)),
            Some(s) => if s != record.status {
                Err(StoreErrorView::InvalidPayload(PayloadViolationView::TaskPayloadStatusMismatch))
            } else {
                Ok(())
            },
        }
    }
}

/// A Task's duration estimate and correlation groups, where present, must read
/// as such and satisfy the core rules.
pub open spec fn task_estimate_verdict(t: ObjectType, payload: Seq<char>, checks: ObjectChecks) -> Result<(), StoreErrorView> {
    if t != ObjectType::Task {
        Ok(())
    } else {
        let duration = if json_member_present(payload, "duration_estimate"@) {
            match checks.duration_estimate {
                Err(m) => Err(StoreErrorView::Json(m@)),
                Ok(estimate) => match duration_estimate_violation(estimate) {
                    None => Ok(()),
                    Some(v) => Err(StoreErrorView::Core(CoreErrorView::InvalidTaskDurationEstimate { violation: v })),
                },
            }
        } else {
            Ok(())
        };
        let groups = if json_member_present(payload, "correlation_groups"@) {
            match checks.correlation_groups {
                Err(m) => Err(StoreErrorView::Json(m@)),
                Ok(gs) => match correlation_violation(gs@) {
                    None => Ok(()),
                    Some(v) => Err(StoreErrorView::Core(CoreErrorView::InvalidTaskCorrelationGroup { violation: v })),
                },
            }
        } else {
            Ok(())
        };
        and_check(duration, groups)
    }
}

/// A Task's scheduling fields must read strictly (a misshapen member is a JSON
/// refusal) and satisfy the core rules on the static window and category tag.
pub open spec fn task_mapping_rule(t: ObjectType, checks: ObjectChecks) -> Result<(), StoreErrorView> {
    if t != ObjectType::Task {
        Ok(())
    } else {
        match checks.task_mapping {
            Err(m) => Err(StoreErrorView::Json(m@)),
            Ok(fields) => task_mapping_verdict(fields),
        }
    }
}

/// Tasks, Objectives and ExternalReferences must carry provenance; provenance,
/// where present, must read as a core Provenance.
pub open spec fn provenance_verdict(t: ObjectType, payload: Seq<char>, checks: ObjectChecks) -> Result<(), StoreErrorView> {
    let present = json_member_present(payload, "provenance"@);
    let required = t == ObjectType::Task || t == ObjectType::Objective || t == ObjectType::ExternalReference;
    if required && !present {
        Err(StoreErrorView::InvalidPayload(PayloadViolationView::MissingProvenance))
    } else if present {
        json_verdict(checks.provenance)
    } else {
        Ok(())
    }
}

/// LogEntries and Preferences must carry an `authority_source` that reads as a
/// core AuthoritySource.
pub open spec fn authority_source_verdict(t: ObjectType, payload: Seq<char>, checks: ObjectChecks) -> Result<(), StoreErrorView> {
    if !(t == ObjectType::LogEntry || t == ObjectType::Preference) {
        Ok(())
    } else if json_str_member_of(payload, "authority_source"@) is None {
        Err(StoreErrorView::InvalidPayload(PayloadViolationView::MissingAuthoritySource))
    } else {
        json_verdict(checks.authority_source)
    }
}

/// Compartments must carry a `label` that parses as a Compartment label.
pub open spec fn compartment_metadata_verdict(t: ObjectType, payload: Seq<char>, checks: ObjectChecks) -> Result<(), StoreErrorView> {
    if t != ObjectType::Compartment {
        Ok(())
    } else if json_str_member_of(payload, "label"@) is None {
        Err(StoreErrorView::InvalidPayload(PayloadViolationView::CompartmentMissingLabel))
    } else {
        core_verdict(checks.payload_label)
    }
}

/// The payload must be a JSON object whose `id` is a valid id of the declared
/// type and equals the record id; then the type-specific payload rules apply.
pub open spec fn canonical_payload_verdict(record: NewObjectView, checks: ObjectChecks) -> Result<(), StoreErrorView> {
    let payload = record.payload;
    if !json_object_doc(payload) {
        Err(StoreErrorView::InvalidPayload(PayloadViolationView::PayloadNotObject))
    } else {
        match json_str_member_of(payload, "id"@) {
            None => Err(StoreErrorView::InvalidPayload(PayloadViolationView::PayloadMissingId)),
            Some(payload_id) => match id_for_type_verdict(checks.payload_id_type, record.object_type) {
                Err(e) => Err(e),
                Ok(_) => if payload_id != record.id {
                    Err(StoreErrorView::InvalidPayload(PayloadViolationView::PayloadIdMismatch))
                } else {
                    let t = type_named(record.object_type).unwrap();
                    and_check(payload_lifecycle_verdict(record),
                    and_check(task_estimate_verdict(t, payload, checks),
                    and_check(task_mapping_rule(t, checks),
                    and_check(provenance_verdict(t, payload, checks),
                    and_check(authority_source_verdict(t, payload, checks),
                    compartment_metadata_verdict(t, payload, checks))))))
                },
            },
        }
    }
}

/// The admission verdict on a submitted object: its id against its declared type,
/// its Compartment label, its timestamps, a positive version, the Task lifecycle
/// rules and the canonical payload rules, in this order; the first refusal stands.
pub open spec fn object_record_verdict(record: NewObjectView, checks: ObjectChecks) -> Result<(), StoreErrorView> {
    and_check(id_check(checks.id_type, record.object_type),
    and_check(core_verdict(checks.compartment_label),
    and_check(core_verdict(checks.created_at),
    and_check(core_verdict(checks.updated_at),
    and_check(if record.version < 1 {
            Err(StoreErrorView::InvalidPayload(PayloadViolationView::NonPositiveVersion))
        } else {
            Ok(())
        },
    and_check(task_lifecycle_verdict(record, checks),
    canonical_payload_verdict(record, checks)))))))
}

fn core_check(r: &Result<(), CoreError>) -> (out: Result<(), StoreError>)
    ensures
        outcome(out) == core_verdict(*r),
{
    match r {
        Ok(_) => Ok(()),
        Err(e) => Err(StoreError::Core(e.clone_core())),
    }
}

fn json_check(r: &Result<(), String>) -> (out: Result<(), StoreError>)
    ensures
        outcome(out) == json_verdict(*r),
{
    match r {
        Ok(_) => Ok(()),
        Err(m) => Err(StoreError::Json(m.clone())),
    }
}

fn is_noncanonical_task_status(status: &str) -> (r: bool)
    ensures
        r == noncanonical_task_status(status@),
{
    same_text(status, "canceled") || same_text(status, "ready") || same_text(status, "in_progress")
        || same_text(status, "proposed") || same_text(status, "blocked")
}

fn validate_task_lifecycle_status(record: &NewObjectRecord, checks: &ObjectChecks) -> (r: Result<(), StoreError>)
    ensures
        outcome(r) == task_lifecycle_verdict(record@, *checks),
{
    if !same_text(&record.object_type, "Task") {
        return Ok(());
    }
    if is_noncanonical_task_status(&record.status) {
        return Err(StoreError::InvalidPayload(PayloadViolation::NoncanonicalTaskStatus { status: record.status.clone() }));
    }
    match &checks.task_status_is_moot {
        Err(m) => Err(StoreError::Json(m.clone())),
        Ok(moot) => {
            let has_reason = json_has_member(&record.payload, "moot_reason_code");
            if *moot && !has_reason {
                Err(StoreError::InvalidPayload(PayloadViolation::MootRequiresReason))
            } else if !*moot && has_reason {
                Err(StoreError::InvalidPayload(PayloadViolation::MootReasonForbidden { status: record.status.clone() }))
            } else {
                Ok(())
            }
        },
    }
}

fn validate_payload_lifecycle_status(record: &NewObjectRecord) -> (r: Result<(), StoreError>)
    ensures
        outcome(r) == payload_lifecycle_verdict(record@),
{
    if !same_text(&record.object_type, "Task") {
        return Ok(());
    }
    match json_str_member(&record.payload, "status") {
        None => Err(StoreError::InvalidPayload(PayloadViolation::TaskPayloadMissingStatus)),
        Some(s) => if !same_text(&s, &record.status) {
            Err(StoreError::InvalidPayload(PayloadViolation::TaskPayloadStatusMismatch))
        } else {
            Ok(())
        },
    }
}

fn validate_task_estimate_fields(t: ObjectType, payload: &str, checks: &ObjectChecks) -> (r: Result<(), StoreError>)
    ensures
        outcome(r) == task_estimate_verdict(t, payload@, *checks),
{
    if t != ObjectType::Task {
        return Ok(());
    }
    if json_has_member(payload, "duration_estimate") {
        match &checks.duration_estimate {
            Err(m) => return Err(StoreError::Json(m.clone())),
            Ok(estimate) => {
                match estimate.validate() {
                    Err(e) => return Err(e),
                    Ok(_) => {},
                }
            },
        }
    }
    if json_has_member(payload, "correlation_groups") {
        match &checks.correlation_groups {
            Err(m) => return Err(StoreError::Json(m.clone())),
            Ok(groups) => {
                match validate_correlation_groups(groups) {
                    Err(e) => return Err(e),
                    Ok(_) => {},
                }
            },
        }
    }
    Ok(())
}

fn validate_task_mapping_fields(t: ObjectType, checks: &ObjectChecks) -> (r: Result<(), StoreError>)
    ensures
        outcome(r) == task_mapping_rule(t, *checks),
{
    if t != ObjectType::Task {
        return Ok(());
    }
    match &checks.task_mapping {
        Err(m) => Err(StoreError::Json(m.clone())),
        Ok(fields) => validate_task_mapping(fields),
    }
}

fn validate_payload_provenance(t: ObjectType, payload: &str, checks: &ObjectChecks) -> (r: Result<(), StoreError>)
    ensures
        outcome(r) == provenance_verdict(t, payload@, *checks),
{
    let present = json_has_member(payload, "provenance");
    let required = t == ObjectType::Task || t == ObjectType::Objective || t == ObjectType::ExternalReference;
    if required && !present {
        Err(StoreError::InvalidPayload(PayloadViolation::MissingProvenance))
    } else if present {
        json_check(&checks.provenance)
    } else {
        Ok(())
    }
}

fn validate_payload_authority_source(t: ObjectType, payload: &str, checks: &ObjectChecks) -> (r: Result<(), StoreError>)
    ensures
        outcome(r) == authority_source_verdict(t, payload@, *checks),
{
    if !(t == ObjectType::LogEntry || t == ObjectType::Preference) {
        return Ok(());
    }
    match json_str_member(payload, "authority_source") {
        None => Err(StoreError::InvalidPayload(PayloadViolation::MissingAuthoritySource)),
        Some(_) => json_check(&checks.authority_source),
    }
}

fn validate_payload_compartment_metadata(t: ObjectType, payload: &str, checks: &ObjectChecks) -> (r: Result<(), StoreError>)
    ensures
        outcome(r) == compartment_metadata_verdict(t, payload@, *checks),
{
    if t != ObjectType::Compartment {
        return Ok(());
    }
    match json_str_member(payload, "label") {
        None => Err(StoreError::InvalidPayload(PayloadViolation::CompartmentMissingLabel)),
        Some(_) => core_check(&checks.payload_label),
    }
}

fn validate_canonical_object_payload(record: &NewObjectRecord, checks: &ObjectChecks) -> (r: Result<(), StoreError>)
    ensures
        outcome(r) == canonical_payload_verdict(record@, *checks),
{
    let payload = &record.payload;
    if !json_is_object(payload) {
        return Err(StoreError::InvalidPayload(PayloadViolation::PayloadNotObject));
    }
    let payload_id = match json_str_member(payload, "id") {
        None => return Err(StoreError::InvalidPayload(PayloadViolation::PayloadMissingId)),
        Some(id) => id,
    };
    let t = match validate_object_id_for_type(&checks.payload_id_type, &record.object_type) {
        Err(e) => return Err(e),
        Ok(t) => t,
    };
    if !same_text(&payload_id, &record.id) {
        return Err(StoreError::InvalidPayload(PayloadViolation::PayloadIdMismatch));
    }
    match validate_payload_lifecycle_status(record) {
        Err(e) => return Err(e),
        Ok(_) => {},
    }
    match validate_task_estimate_fields(t, payload, checks) {
        Err(e) => return Err(e),
        Ok(_) => {},
    }
    match validate_task_mapping_fields(t, checks) {
        Err(e) => return Err(e),
        Ok(_) => {},
    }
    match validate_payload_provenance(t, payload, checks) {
        Err(e) => return Err(e),
        Ok(_) => {},
    }
    match validate_payload_authority_source(t, payload, checks) {
        Err(e) => return Err(e),
        Ok(_) => {},
    }
    validate_payload_compartment_metadata(t, payload, checks)
}

/// Applies the admission rules to a submitted object; `checks` carries what the
/// core crate and the JSON reader said of its parts.
pub fn validate_object_record(record: &NewObjectRecord, checks: &ObjectChecks) -> (r: Result<(), StoreError>)
    ensures
        outcome(r) == object_record_verdict(record@, *checks),
{
    match validate_object_id_for_type(&checks.id_type, &record.object_type) {
        Err(e) => return Err(e),
        Ok(_) => {},
    }
    match core_check(&checks.compartment_label) {
        Err(e) => return Err(e),
        Ok(_) => {},
    }
    match core_check(&checks.created_at) {
        Err(e) => return Err(e),
        Ok(_) => {},
    }
    match core_check(&checks.updated_at) {
        Err(e) => return Err(e),
        Ok(_) => {},
    }
    if record.version < 1 {
        return Err(StoreError::InvalidPayload(PayloadViolation::NonPositiveVersion));
    }
    match validate_task_lifecycle_status(record, checks) {
        Err(e) => return Err(e),
        Ok(_) => {},
    }
    validate_canonical_object_payload(record, checks)
}

} // verus!
