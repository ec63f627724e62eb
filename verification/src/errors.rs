//! The store's errors, and the core refusals they carry.

use vstd::prelude::*;

use crate::models::candidate_record::CandidateLifecycleState;
use crate::admission::ObjectType;

verus! {

/// A table of the store, named where an error points at one.
#[derive(Debug, Clone, Copy, PartialEq, Eq, Structural)]
pub enum Table {
    Objects,
    MutationEnvelopes,
    Logs,
    ExternalReferences,
    Plans,
    Calendars,
    WorkerSubmissions,
    ProjectionPreviews,
    ProjectionResults,
    AdvisoryCandidates,
    CandidateDecisionEvents,
    SuppressionRecords,
}

/// The name of each table in the schema.
pub open spec fn table_name(t: Table) -> Seq<char> {
    match t {
        Table::Objects => "objects"@,
        Table::MutationEnvelopes => "mutation_envelopes"@,
        Table::Logs => "logs"@,
        Table::ExternalReferences => "external_references"@,
        Table::Plans => "plans"@,
        Table::Calendars => "calendars"@,
        Table::WorkerSubmissions => "worker_submissions"@,
        Table::ProjectionPreviews => "projection_previews"@,
        Table::ProjectionResults => "projection_results"@,
        Table::AdvisoryCandidates => "advisory_candidates"@,
        Table::CandidateDecisionEvents => "candidate_decision_events"@,
        Table::SuppressionRecords => "suppression_records"@,
    }
}

impl Table {
    /// The table's name in the schema.
    pub fn as_str(&self) -> (s: &'static str)
        ensures
            s@ == table_name(*self),
    {
        match self {
            Table::Objects => "objects",
            Table::MutationEnvelopes => "mutation_envelopes",
            Table::Logs => "logs",
            Table::ExternalReferences => "external_references",
            Table::Plans => "plans",
            Table::Calendars => "calendars",
            Table::WorkerSubmissions => "worker_submissions",
            Table::ProjectionPreviews => "projection_previews",
            Table::ProjectionResults => "projection_results",
            Table::AdvisoryCandidates => "advisory_candidates",
            Table::CandidateDecisionEvents => "candidate_decision_events",
            Table::SuppressionRecords => "suppression_records",
        }
    }
}

/// Why a task duration estimate is refused.
#[derive(Debug, Clone, Copy, PartialEq, Eq, Structural)]
pub enum DurationEstimateViolation {
    ZeroSeconds,
    NotStrictlyIncreasing,
}

/// Why a task correlation group list is refused.
#[derive(Debug, Clone, Copy, PartialEq, Eq, Structural)]
pub enum CorrelationGroupViolation {
    StrengthOutOfRange,
    DuplicateName,
}

/// A refusal by the core domain rules.
#[derive(Debug, Clone, PartialEq, Eq)]
pub enum CoreError {
    /// The Device-scoped idempotency key was already used for a different request.
    IdempotencyKeyConflict { origin_device_id: String, idempotency_key: String },
    /// An id parsed, but its prefix registers another object type.
    WrongIdObjectType { expected: ObjectType, actual: ObjectType },
    InvalidTaskDurationEstimate { violation: DurationEstimateViolation },
    InvalidTaskCorrelationGroup { violation: CorrelationGroupViolation },
    /// A Task's static window does not end after it starts.
    InvalidTaskStaticWindow,
    /// A Task's category tag is empty or not among its tags.
    InvalidTaskCategoryTag,
    /// Any other refusal of the core crate (an unparsable id, timestamp or label,
    /// an invalid envelope, an illegal candidate transition), with its text.
    Refused { message: String },
}

/// A refusal by the storage layer.
#[derive(Debug, Clone, PartialEq, Eq)]
pub enum DatabaseError {
    /// A row with the same key already exists in the table.
    UniqueViolation { table: Table, key: String },
}

/// Why a canonical payload (or the record around it) is refused.
#[derive(Debug, Clone, PartialEq, Eq)]
pub enum PayloadViolation {
    /// A derived or noncanonical Task status must not be persisted.
    NoncanonicalTaskStatus { status: String },
    /// Task status `moot` requires `moot_reason_code`.
    MootRequiresReason,
    /// Only status `moot` may carry `moot_reason_code`.
    MootReasonForbidden { status: String },
    /// The supplied store version is not positive.
    NonPositiveVersion,
    PayloadNotObject,
    PayloadMissingId,
    PayloadIdMismatch,
    TaskPayloadMissingStatus,
    TaskPayloadStatusMismatch,
    MissingProvenance,
    MissingAuthoritySource,
    CompartmentMissingLabel,
}

/// Errors of the store.
#[derive(Debug, Clone, PartialEq, Eq)]
pub enum StoreError {
    PreconditionFailed { object_id: String, expected: String, actual: String },
    MissingTargetPrecondition { object_id: String },
    ObjectVersionExhausted { object_id: String, version: u64 },
    RecordedMutationObjectMissing { object_id: String },
    ReplayTargetMismatch { object_id: String, expected_table: Table },
    Core(CoreError),
    Sqlx(DatabaseError),
    /// A JSON value could not be read as the expected shape; the reader's message.
    Json(String),
    UnknownObjectType(String),
    InvalidPayload(PayloadViolation),
    CandidateMissing { id: String },
    InvalidInitialCandidateState { state: CandidateLifecycleState },
    DedicatedCandidateWriterRequired { state: CandidateLifecycleState },
    SuppressionKeyConflict,
}

impl CoreError {
    /// A copy of this refusal.
    pub fn clone_core(&self) -> (r: Self)
        ensures
            r == *self,
    {
        match self {
            CoreError::IdempotencyKeyConflict { origin_device_id, idempotency_key } =>
                CoreError::IdempotencyKeyConflict {
                    origin_device_id: origin_device_id.clone(),
                    idempotency_key: idempotency_key.clone(),
                },
            CoreError::WrongIdObjectType { expected, actual } =>
                CoreError::WrongIdObjectType { expected: *expected, actual: *actual },
            CoreError::InvalidTaskDurationEstimate { violation } =>
                CoreError::InvalidTaskDurationEstimate { violation: *violation },
            CoreError::InvalidTaskCorrelationGroup { violation } =>
                CoreError::InvalidTaskCorrelationGroup { violation: *violation },
            CoreError::InvalidTaskStaticWindow => CoreError::InvalidTaskStaticWindow,
            CoreError::InvalidTaskCategoryTag => CoreError::InvalidTaskCategoryTag,
            CoreError::Refused { message } => CoreError::Refused { message: message.clone() },
        }
    }
}

/// `StoreError` with texts seen as character sequences.
pub enum StoreErrorView {
    PreconditionFailed { object_id: Seq<char>, expected: Seq<char>, actual: Seq<char> },
    MissingTargetPrecondition { object_id: Seq<char> },
    ObjectVersionExhausted { object_id: Seq<char>, version: u64 },
    RecordedMutationObjectMissing { object_id: Seq<char> },
    ReplayTargetMismatch { object_id: Seq<char>, expected_table: Table },
    Core(CoreErrorView),
    Sqlx(DatabaseErrorView),
    Json(Seq<char>),
    UnknownObjectType(Seq<char>),
    InvalidPayload(PayloadViolationView),
    CandidateMissing { id: Seq<char> },
    InvalidInitialCandidateState { state: CandidateLifecycleState },
    DedicatedCandidateWriterRequired { state: CandidateLifecycleState },
    SuppressionKeyConflict,
}

pub enum CoreErrorView {
    IdempotencyKeyConflict { origin_device_id: Seq<char>, idempotency_key: Seq<char> },
    WrongIdObjectType { expected: ObjectType, actual: ObjectType },
    InvalidTaskDurationEstimate { violation: DurationEstimateViolation },
    InvalidTaskCorrelationGroup { violation: CorrelationGroupViolation },
    InvalidTaskStaticWindow,
    InvalidTaskCategoryTag,
    Refused { message: Seq<char> },
}

pub enum DatabaseErrorView {
    UniqueViolation { table: Table, key: Seq<char> },
}

pub enum PayloadViolationView {
    NoncanonicalTaskStatus { status: Seq<char> },
    MootRequiresReason,
    MootReasonForbidden { status: Seq<char> },
    NonPositiveVersion,
    PayloadNotObject,
    PayloadMissingId,
    PayloadIdMismatch,
    TaskPayloadMissingStatus,
    TaskPayloadStatusMismatch,
    MissingProvenance,
    MissingAuthoritySource,
    CompartmentMissingLabel,
}

impl View for CoreError {
    type V = CoreErrorView;

    open spec fn view(&self) -> CoreErrorView {
        match self {
            CoreError::IdempotencyKeyConflict { origin_device_id, idempotency_key } =>
                CoreErrorView::IdempotencyKeyConflict {
                    origin_device_id: origin_device_id@,
                    idempotency_key: idempotency_key@,
                },
            CoreError::WrongIdObjectType { expected, actual } =>
                CoreErrorView::WrongIdObjectType { expected: *expected, actual: *actual },
            CoreError::InvalidTaskDurationEstimate { violation } =>
                CoreErrorView::InvalidTaskDurationEstimate { violation: *violation },
            CoreError::InvalidTaskCorrelationGroup { violation } =>
                CoreErrorView::InvalidTaskCorrelationGroup { violation: *violation },
            CoreError::InvalidTaskStaticWindow => CoreErrorView::InvalidTaskStaticWindow,
            CoreError::InvalidTaskCategoryTag => CoreErrorView::InvalidTaskCategoryTag,
            CoreError::Refused { message } => CoreErrorView::Refused { message: message@ },
        }
    }
}

impl View for DatabaseError {
    type V = DatabaseErrorView;

    open spec fn view(&self) -> DatabaseErrorView {
        match self {
            DatabaseError::UniqueViolation { table, key } =>
                DatabaseErrorView::UniqueViolation { table: *table, key: key@ },
        }
    }
}

impl View for PayloadViolation {
    type V = PayloadViolationView;

    open spec fn view(&self) -> PayloadViolationView {
        match self {
            PayloadViolation::NoncanonicalTaskStatus { status } =>
                PayloadViolationView::NoncanonicalTaskStatus { status: status@ },
            PayloadViolation::MootRequiresReason => PayloadViolationView::MootRequiresReason,
            PayloadViolation::MootReasonForbidden { status } =>
                PayloadViolationView::MootReasonForbidden { status: status@ },
            PayloadViolation::NonPositiveVersion => PayloadViolationView::NonPositiveVersion,
            PayloadViolation::PayloadNotObject => PayloadViolationView::PayloadNotObject,
            PayloadViolation::PayloadMissingId => PayloadViolationView::PayloadMissingId,
            PayloadViolation::PayloadIdMismatch => PayloadViolationView::PayloadIdMismatch,
            PayloadViolation::TaskPayloadMissingStatus => PayloadViolationView::TaskPayloadMissingStatus,
            PayloadViolation::TaskPayloadStatusMismatch => PayloadViolationView::TaskPayloadStatusMismatch,
            PayloadViolation::MissingProvenance => PayloadViolationView::MissingProvenance,
            PayloadViolation::MissingAuthoritySource => PayloadViolationView::MissingAuthoritySource,
            PayloadViolation::CompartmentMissingLabel => PayloadViolationView::CompartmentMissingLabel,
        }
    }
}

impl View for StoreError {
    type V = StoreErrorView;

    open spec fn view(&self) -> StoreErrorView {
        match self {
            StoreError::PreconditionFailed { object_id, expected, actual } =>
                StoreErrorView::PreconditionFailed {
                    object_id: object_id@,
                    expected: expected@,
                    actual: actual@,
                },
            StoreError::MissingTargetPrecondition { object_id } =>
                StoreErrorView::MissingTargetPrecondition { object_id: object_id@ },
            StoreError::ObjectVersionExhausted { object_id, version } =>
                StoreErrorView::ObjectVersionExhausted { object_id: object_id@, version: *version },
            StoreError::RecordedMutationObjectMissing { object_id } =>
                StoreErrorView::RecordedMutationObjectMissing { object_id: object_id@ },
            StoreError::ReplayTargetMismatch { object_id, expected_table } =>
                StoreErrorView::ReplayTargetMismatch {
                    object_id: object_id@,
                    expected_table: *expected_table,
                },
            StoreError::Core(e) => StoreErrorView::Core(e@),
            StoreError::Sqlx(e) => StoreErrorView::Sqlx(e@),
            StoreError::Json(m) => StoreErrorView::Json(m@),
            StoreError::UnknownObjectType(t) => StoreErrorView::UnknownObjectType(t@),
            StoreError::InvalidPayload(v) => StoreErrorView::InvalidPayload(v@),
            StoreError::CandidateMissing { id } => StoreErrorView::CandidateMissing { id: id@ },
            StoreError::InvalidInitialCandidateState { state } =>
                StoreErrorView::InvalidInitialCandidateState { state: *state },
            StoreError::DedicatedCandidateWriterRequired { state } =>
                StoreErrorView::DedicatedCandidateWriterRequired { state: *state },
            StoreError::SuppressionKeyConflict => StoreErrorView::SuppressionKeyConflict,
        }
    }
}

/// The view of a result whose error is a `StoreError`.
pub open spec fn outcome<T>(r: Result<T, StoreError>) -> Result<T, StoreErrorView> {
    match r {
        Ok(v) => Ok(v),
        Err(e) => Err(e@),
    }
}

} // verus!
