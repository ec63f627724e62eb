//! The messages of the store's errors, as its users read them.

use vstd::prelude::*;
use vstd::string::StringExecFns;

use crate::admission::declared_name;
use crate::errors::{
    table_name, CoreError, CoreErrorView, CorrelationGroupViolation, DatabaseError, DatabaseErrorView,
    DurationEstimateViolation, PayloadViolation, PayloadViolationView, StoreError, StoreErrorView,
};
use crate::models::candidate_record::state_spelling;
use crate::text::{decimal, push_decimal};

verus! {

/// The message of a refused payload.
pub open spec fn payload_message(v: PayloadViolationView) -> Seq<char> {
    match v {
        PayloadViolationView::NoncanonicalTaskStatus { status } =>
            "UBU-D0227: `"@ + status + "` is a derived or noncanonical Task status and must not be persisted"@,
        PayloadViolationView::MootRequiresReason => "UBU-D0227: task status `moot` requires moot_reason_code"@,
        PayloadViolationView::MootReasonForbidden { status } =>
            "UBU-D0227: task status `"@ + status + "` forbids moot_reason_code"@,
        PayloadViolationView::NonPositiveVersion => "object_version must be present as a positive store version"@,
        PayloadViolationView::PayloadNotObject => "canonical object payload must be a JSON object"@,
        PayloadViolationView::PayloadMissingId => "canonical object payload must include id"@,
        PayloadViolationView::PayloadIdMismatch => "canonical object payload id must match admitted object id"@,
        PayloadViolationView::TaskPayloadMissingStatus => "Task payload must include canonical status"@,
        PayloadViolationView::TaskPayloadStatusMismatch => "Task payload status must match admitted object status"@,
        PayloadViolationView::MissingProvenance => "canonical object payload must include provenance"@,
        PayloadViolationView::MissingAuthoritySource => "canonical object payload must include authority_source"@,
        PayloadViolationView::CompartmentMissingLabel => "Compartment payload must include label"@,
    }
}

/// The message of a refusal of the core rules.
pub open spec fn core_message(e: CoreErrorView) -> Seq<char> {
    match e {
        CoreErrorView::IdempotencyKeyConflict { origin_device_id, idempotency_key } =>
            "idempotency key `"@ + idempotency_key + "` of device `"@ + origin_device_id
                + "` was already used for a different mutation"@,
        CoreErrorView::WrongIdObjectType { expected, actual } =>
            "id has object type "@ + declared_name(actual) + ", expected "@ + declared_name(expected),
        CoreErrorView::InvalidTaskDurationEstimate { violation } => match violation {
            DurationEstimateViolation::ZeroSeconds =>
                "core/task schema: duration_estimate.fixed.seconds must be greater than zero"@,
            DurationEstimateViolation::NotStrictlyIncreasing =>
                "core/task schema: duration_estimate must satisfy min_seconds < mode_seconds < p95_seconds"@,
        },
        CoreErrorView::InvalidTaskCorrelationGroup { violation } => match violation {
            CorrelationGroupViolation::StrengthOutOfRange =>
                "core/task schema: correlation group strength must be between zero and one"@,
            CorrelationGroupViolation::DuplicateName => "core/task schema: correlation group names must be unique"@,
        },
        CoreErrorView::InvalidTaskStaticWindow => "core/task schema: static_window must end after it starts"@,
        CoreErrorView::InvalidTaskCategoryTag => "core/task schema: category_tag must be one of the task's tags"@,
        CoreErrorView::Refused { message } => message,
    }
}

/// The message of a refusal of the database's constraints.
pub open spec fn database_message(e: DatabaseErrorView) -> Seq<char> {
    match e {
        DatabaseErrorView::UniqueViolation { table, key } =>
            "UNIQUE constraint failed: "@ + table_name(table) + " (key `"@ + key + "`)"@,
    }
}

/// The message of a store error.
pub open spec fn store_message(e: StoreErrorView) -> Seq<char> {
    match e {
        StoreErrorView::PreconditionFailed { object_id, expected, actual } =>
            "precondition failed for `"@ + object_id + "`: expected "@ + expected + ", actual "@ + actual,
        StoreErrorView::MissingTargetPrecondition { object_id } =>
            "missing target precondition for `"@ + object_id + "`"@,
        StoreErrorView::ObjectVersionExhausted { object_id, version } =>
            "object `"@ + object_id + "` cannot advance beyond SQLite version "@ + decimal(version as nat),
        StoreErrorView::RecordedMutationObjectMissing { object_id } =>
            "recorded mutation target `"@ + object_id + "` has no current state"@,
        StoreErrorView::ReplayTargetMismatch { object_id, expected_table } =>
            "recorded mutation target `"@ + object_id + "` is not a result in `"@ + table_name(expected_table) + "`"@,
        StoreErrorView::Core(c) => core_message(c),
        StoreErrorView::Sqlx(d) => database_message(d),
        StoreErrorView::Json(m) => m,
        StoreErrorView::UnknownObjectType(t) => "unknown object type `"@ + t + "`"@,
        StoreErrorView::InvalidPayload(v) => "invalid JSON payload: "@ + payload_message(v),
        StoreErrorView::CandidateMissing { id } => "advisory candidate `"@ + id + "` does not exist"@,
        StoreErrorView::InvalidInitialCandidateState { state } =>
            "a new advisory candidate must start as `proposed`, not `"@ + state_spelling(state) + "`"@,
        StoreErrorView::DedicatedCandidateWriterRequired { state } =>
            "moving a candidate to `"@ + state_spelling(state) + "` requires its dedicated writer"@,
        StoreErrorView::SuppressionKeyConflict => "an existing suppression key must not change"@,
    }
}

/// `a`, then `b`, then `c`.
fn join3(a: &str, b: &str, c: &str) -> (r: String)
    ensures
        r@ == a@ + b@ + c@,
{
    let mut r = a.to_owned();
    r.append(b);
    r.append(c);
    r
}

/// `a`, `b`, `c`, `d`, then `e`.
fn join5(a: &str, b: &str, c: &str, d: &str, e: &str) -> (r: String)
    ensures
        r@ == a@ + b@ + c@ + d@ + e@,
{
    let mut r = a.to_owned();
    r.append(b);
    r.append(c);
    r.append(d);
    r.append(e);
    r
}

impl PayloadViolation {
    /// The message of this refusal.
    pub fn message(&self) -> (r: String)
        ensures
            r@ == payload_message(self@),
    {
        match self {
            PayloadViolation::NoncanonicalTaskStatus { status } => join3(
                "UBU-D0227: `",
                status.as_str(),
                "` is a derived or noncanonical Task status and must not be persisted",
            ),
            PayloadViolation::MootRequiresReason => "UBU-D0227: task status `moot` requires moot_reason_code".to_owned(),
            PayloadViolation::MootReasonForbidden { status } =>
                join3("UBU-D0227: task status `", status.as_str(), "` forbids moot_reason_code"),
            PayloadViolation::NonPositiveVersion => "object_version must be present as a positive store version".to_owned(),
            PayloadViolation::PayloadNotObject => "canonical object payload must be a JSON object".to_owned(),
            PayloadViolation::PayloadMissingId => "canonical object payload must include id".to_owned(),
            PayloadViolation::PayloadIdMismatch => "canonical object payload id must match admitted object id".to_owned(),
            PayloadViolation::TaskPayloadMissingStatus => "Task payload must include canonical status".to_owned(),
            PayloadViolation::TaskPayloadStatusMismatch => "Task payload status must match admitted object status".to_owned(),
            PayloadViolation::MissingProvenance => "canonical object payload must include provenance".to_owned(),
            PayloadViolation::MissingAuthoritySource => "canonical object payload must include authority_source".to_owned(),
            PayloadViolation::CompartmentMissingLabel => "Compartment payload must include label".to_owned(),
        }
    }
}

impl CoreError {
    /// The message of this refusal.
    pub fn message(&self) -> (r: String)
        ensures
            r@ == core_message(self@),
    {
        match self {
            CoreError::IdempotencyKeyConflict { origin_device_id, idempotency_key } => join5(
                "idempotency key `",
                idempotency_key.as_str(),
                "` of device `",
                origin_device_id.as_str(),
                "` was already used for a different mutation",
            ),
            CoreError::WrongIdObjectType { expected, actual } => {
                let mut r = join3("id has object type ", actual.as_str(), ", expected ");
                r.append(expected.as_str());
                r
            },
            CoreError::InvalidTaskDurationEstimate { violation } => match violation {
                DurationEstimateViolation::ZeroSeconds =>
                    "core/task schema: duration_estimate.fixed.seconds must be greater than zero".to_owned(),
                DurationEstimateViolation::NotStrictlyIncreasing =>
                    "core/task schema: duration_estimate must satisfy min_seconds < mode_seconds < p95_seconds".to_owned(),
            },
            CoreError::InvalidTaskCorrelationGroup { violation } => match violation {
                CorrelationGroupViolation::StrengthOutOfRange =>
                    "core/task schema: correlation group strength must be between zero and one".to_owned(),
                CorrelationGroupViolation::DuplicateName =>
                    "core/task schema: correlation group names must be unique".to_owned(),
            },
            CoreError::InvalidTaskStaticWindow => "core/task schema: static_window must end after it starts".to_owned(),
            CoreError::InvalidTaskCategoryTag => "core/task schema: category_tag must be one of the task's tags".to_owned(),
            CoreError::Refused { message } => message.clone(),
        }
    }
}

impl DatabaseError {
    /// The message of this refusal.
    pub fn message(&self) -> (r: String)
        ensures
            r@ == database_message(self@),
    {
        match self {
            DatabaseError::UniqueViolation { table, key } =>
                join5("UNIQUE constraint failed: ", table.as_str(), " (key `", key.as_str(), "`)"),
        }
    }
}

impl StoreError {
    /// The message of this error.
    pub fn message(&self) -> (r: String)
        ensures
            r@ == store_message(self@),
    {
        match self {
            StoreError::PreconditionFailed { object_id, expected, actual } => {
                let mut r = join5("precondition failed for `", object_id.as_str(), "`: expected ", expected.as_str(), ", actual ");
                r.append(actual.as_str());
                r
            },
            StoreError::MissingTargetPrecondition { object_id } =>
                join3("missing target precondition for `", object_id.as_str(), "`"),
            StoreError::ObjectVersionExhausted { object_id, version } => {
                let mut r = join3("object `", object_id.as_str(), "` cannot advance beyond SQLite version ");
                push_decimal(&mut r, *version);
                r
            },
            StoreError::RecordedMutationObjectMissing { object_id } =>
                join3("recorded mutation target `", object_id.as_str(), "` has no current state"),
            StoreError::ReplayTargetMismatch { object_id, expected_table } =>
                join5("recorded mutation target `", object_id.as_str(), "` is not a result in `", expected_table.as_str(), "`"),
            StoreError::Core(c) => c.message(),
            StoreError::Sqlx(d) => d.message(),
            StoreError::Json(m) => m.clone(),
            StoreError::UnknownObjectType(t) => join3("unknown object type `", t.as_str(), "`"),
            StoreError::InvalidPayload(v) => {
                let m = v.message();
                let mut r = "invalid JSON payload: ".to_owned();
                r.append(m.as_str());
                r
            },
            StoreError::CandidateMissing { id } => join3("advisory candidate `", id.as_str(), "` does not exist"),
            StoreError::InvalidInitialCandidateState { state } => {
                let s = state.spelling();
                join3("a new advisory candidate must start as `proposed`, not `", s.as_str(), "`")
            },
            StoreError::DedicatedCandidateWriterRequired { state } => {
                let s = state.spelling();
                join3("moving a candidate to `", s.as_str(), "` requires its dedicated writer")
            },
            StoreError::SuppressionKeyConflict => "an existing suppression key must not change".to_owned(),
        }
    }
}

} // verus!
