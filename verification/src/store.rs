//! The store: its tables, their keys, and the mutation protocol that every
//! envelope-aware writer shares (envelope validation, Device-scoped replay
//! detection, read preconditions, ledger recording).

use vstd::prelude::*;

use crate::envelope::{MutationEnvelope, VersionRef};
use crate::errors::{outcome, CoreError, CoreErrorView, StoreError, StoreErrorView, Table};
use crate::models::calendar_record::CalendarRecord;
use crate::models::candidate_record::{CandidateDecisionEvent, CandidateRecord, StoredSuppression};
use crate::models::external_reference_record::ExternalReferenceRecord;
use crate::models::log_record::LogRecord;
use crate::models::object_record::ObjectRecord;
use crate::models::plan_record::PlanRecord;
use crate::models::projection_record::{ProjectionPreviewRecord, ProjectionResultRecord};
use crate::models::recorded_mutation::RecordedMutation;
use crate::models::worker_submission_record::WorkerSubmissionRecord;
use crate::order::{keep, keep_rows, RowFilter};
use crate::text::{render_version_label, same_text, version_label};

verus! {

// ---------------------------------------------------------------------------
// Keyed tables
// ---------------------------------------------------------------------------

/// The row of `rows` whose key is `k`, if there is one.
pub open spec fn find<T, K>(rows: Seq<T>, key: spec_fn(T) -> K, k: K) -> Option<T> {
    if exists|i: int| 0 <= i < rows.len() && key(rows[i]) == k {
        Some(rows[choose|i: int| 0 <= i < rows.len() && key(rows[i]) == k])
    } else {
        None
    }
}

/// No two rows share a key.
pub open spec fn keys_unique<T, K>(rows: Seq<T>, key: spec_fn(T) -> K) -> bool {
    forall|i: int, j: int|
        0 <= i < rows.len() && 0 <= j < rows.len() && i != j ==> key(rows[i]) != key(rows[j])
}

/// Some row has key `k`.
pub open spec fn has_key<T, K>(rows: Seq<T>, key: spec_fn(T) -> K, k: K) -> bool {
    exists|i: int| 0 <= i < rows.len() && key(rows[i]) == k
}

pub proof fn lemma_find_at<T, K>(rows: Seq<T>, key: spec_fn(T) -> K, i: int)
    requires
        keys_unique(rows, key),
        0 <= i < rows.len(),
    ensures
        find(rows, key, key(rows[i])) == Some(rows[i]),
{
    let k = key(rows[i]);
    assert(exists|j: int| 0 <= j < rows.len() && key(rows[j]) == k);
    let j = choose|j: int| 0 <= j < rows.len() && key(rows[j]) == k;
    assert(j == i);
}

pub proof fn lemma_find_none<T, K>(rows: Seq<T>, key: spec_fn(T) -> K, k: K)
    requires
        forall|i: int| 0 <= i < rows.len() ==> key(rows[i]) != k,
    ensures
        find(rows, key, k) is None,
        !has_key(rows, key, k),
{
}

/// Appending a row with a fresh key keeps keys unique, and the new row is found
/// under its key while every other key finds what it found before.
pub proof fn lemma_push_fresh<T, K>(rows: Seq<T>, key: spec_fn(T) -> K, row: T)
    requires
        keys_unique(rows, key),
        !has_key(rows, key, key(row)),
    ensures
        keys_unique(rows.push(row), key),
        find(rows.push(row), key, key(row)) == Some(row),
        forall|k: K| k != key(row) ==> find(rows.push(row), key, k) == find(rows, key, k),
        has_key(rows.push(row), key, key(row)),
        forall|k: K| has_key(rows, key, k) ==> has_key(rows.push(row), key, k),
{
    let r2 = rows.push(row);
    assert(keys_unique(r2, key));
    lemma_find_at(r2, key, rows.len() as int);
    assert forall|k: K| k != key(row) implies find(r2, key, k) == find(rows, key, k) by {
        if exists|i: int| 0 <= i < rows.len() && key(rows[i]) == k {
            let i = choose|i: int| 0 <= i < rows.len() && key(rows[i]) == k;
            lemma_find_at(rows, key, i);
            lemma_find_at(r2, key, i);
        } else {
            assert forall|i: int| 0 <= i < r2.len() implies key(r2[i]) != k by {}
        }
    }
    assert forall|k: K| has_key(rows, key, k) implies has_key(r2, key, k) by {
        let i = choose|i: int| 0 <= i < rows.len() && key(rows[i]) == k;
        assert(key(r2[i]) == k);
    }
}

/// Replacing a row by one with the same key keeps keys unique; the new row is
/// found under that key, and every other key finds what it found before.
pub proof fn lemma_update_same_key<T, K>(rows: Seq<T>, key: spec_fn(T) -> K, i: int, row: T)
    requires
        keys_unique(rows, key),
        0 <= i < rows.len(),
        key(row) == key(rows[i]),
    ensures
        keys_unique(rows.update(i, row), key),
        find(rows.update(i, row), key, key(row)) == Some(row),
        forall|k: K| k != key(row) ==> find(rows.update(i, row), key, k) == find(rows, key, k),
        forall|k: K| has_key(rows, key, k) == has_key(rows.update(i, row), key, k),
{
    let r2 = rows.update(i, row);
    assert(keys_unique(r2, key));
    lemma_find_at(r2, key, i);
    assert forall|k: K| k != key(row) implies find(r2, key, k) == find(rows, key, k) by {
        if exists|j: int| 0 <= j < rows.len() && key(rows[j]) == k {
            let j = choose|j: int| 0 <= j < rows.len() && key(rows[j]) == k;
            lemma_find_at(rows, key, j);
            lemma_find_at(r2, key, j);
        } else {
            assert forall|j: int| 0 <= j < r2.len() implies key(r2[j]) != k by {}
        }
    }
    assert forall|k: K| has_key(rows, key, k) == has_key(r2, key, k) by {
        if has_key(rows, key, k) {
            let j = choose|j: int| 0 <= j < rows.len() && key(rows[j]) == k;
            assert(key(r2[j]) == k);
        }
        if has_key(r2, key, k) {
            let j = choose|j: int| 0 <= j < r2.len() && key(r2[j]) == k;
            assert(key(rows[j]) == k);
        }
    }
}

/// A row of a table keyed by one text column.
pub trait KeyedRow: Sized {
    /// The row's key.
    spec fn key_view(&self) -> Seq<char>;

    /// The row's key text.
    fn key_text(&self) -> (k: &str)
        ensures
            k@ == self.key_view();

    /// A copy of the row.
    fn copy_row(&self) -> (r: Self)
        ensures
            r == *self;
}

/// The key of a single-key table's rows.
pub open spec fn row_key<T: KeyedRow>() -> spec_fn(T) -> Seq<char> {
    |r: T| r.key_view()
}

pub open spec fn object_key() -> spec_fn(ObjectRecord) -> Seq<char> {
    row_key::<ObjectRecord>()
}

pub open spec fn ledger_key() -> spec_fn(RecordedMutation) -> (Seq<char>, Seq<char>) {
    |r: RecordedMutation| (r.origin_device_id@, r.idempotency_key@)
}

pub open spec fn log_key() -> spec_fn(LogRecord) -> Seq<char> {
    row_key::<LogRecord>()
}

pub open spec fn xref_key() -> spec_fn(ExternalReferenceRecord) -> Seq<char> {
    row_key::<ExternalReferenceRecord>()
}

pub open spec fn plan_key() -> spec_fn(PlanRecord) -> Seq<char> {
    row_key::<PlanRecord>()
}

pub open spec fn calendar_key() -> spec_fn(CalendarRecord) -> Seq<char> {
    row_key::<CalendarRecord>()
}

pub open spec fn submission_key() -> spec_fn(WorkerSubmissionRecord) -> Seq<char> {
    row_key::<WorkerSubmissionRecord>()
}

pub open spec fn preview_key() -> spec_fn(ProjectionPreviewRecord) -> Seq<char> {
    row_key::<ProjectionPreviewRecord>()
}

pub open spec fn result_key() -> spec_fn(ProjectionResultRecord) -> Seq<char> {
    row_key::<ProjectionResultRecord>()
}

pub open spec fn candidate_key() -> spec_fn(CandidateRecord) -> Seq<char> {
    row_key::<CandidateRecord>()
}

pub open spec fn event_key() -> spec_fn(CandidateDecisionEvent) -> Seq<char> {
    row_key::<CandidateDecisionEvent>()
}

pub open spec fn suppression_key() -> spec_fn(StoredSuppression) -> Seq<char> {
    row_key::<StoredSuppression>()
}

impl KeyedRow for ObjectRecord {
    open spec fn key_view(&self) -> Seq<char> { self.id@ }
    fn key_text(&self) -> (k: &str) { self.id.as_str() }
    fn copy_row(&self) -> (r: Self) { self.duplicate() }
}

impl KeyedRow for LogRecord {
    open spec fn key_view(&self) -> Seq<char> { self.id@ }
    fn key_text(&self) -> (k: &str) { self.id.as_str() }
    fn copy_row(&self) -> (r: Self) { self.duplicate() }
}

impl KeyedRow for ExternalReferenceRecord {
    open spec fn key_view(&self) -> Seq<char> { self.id@ }
    fn key_text(&self) -> (k: &str) { self.id.as_str() }
    fn copy_row(&self) -> (r: Self) { self.duplicate() }
}

impl KeyedRow for PlanRecord {
    open spec fn key_view(&self) -> Seq<char> { self.id@ }
    fn key_text(&self) -> (k: &str) { self.id.as_str() }
    fn copy_row(&self) -> (r: Self) { self.duplicate() }
}

impl KeyedRow for CalendarRecord {
    open spec fn key_view(&self) -> Seq<char> { self.id@ }
    fn key_text(&self) -> (k: &str) { self.id.as_str() }
    fn copy_row(&self) -> (r: Self) { self.duplicate() }
}

impl KeyedRow for WorkerSubmissionRecord {
    open spec fn key_view(&self) -> Seq<char> { self.id@ }
    fn key_text(&self) -> (k: &str) { self.id.as_str() }
    fn copy_row(&self) -> (r: Self) { self.duplicate() }
}

impl KeyedRow for ProjectionPreviewRecord {
    open spec fn key_view(&self) -> Seq<char> { self.id@ }
    fn key_text(&self) -> (k: &str) { self.id.as_str() }
    fn copy_row(&self) -> (r: Self) { self.duplicate() }
}

impl KeyedRow for ProjectionResultRecord {
    open spec fn key_view(&self) -> Seq<char> { self.id@ }
    fn key_text(&self) -> (k: &str) { self.id.as_str() }
    fn copy_row(&self) -> (r: Self) { self.duplicate() }
}

impl KeyedRow for CandidateRecord {
    open spec fn key_view(&self) -> Seq<char> { self.advisory_candidate_id@ }
    fn key_text(&self) -> (k: &str) { self.advisory_candidate_id.as_str() }
    fn copy_row(&self) -> (r: Self) { self.duplicate() }
}

impl KeyedRow for CandidateDecisionEvent {
    open spec fn key_view(&self) -> Seq<char> { self.id@ }
    fn key_text(&self) -> (k: &str) { self.id.as_str() }
    fn copy_row(&self) -> (r: Self) { self.duplicate() }
}

impl KeyedRow for StoredSuppression {
    open spec fn key_view(&self) -> Seq<char> { self.suppression_key@ }
    fn key_text(&self) -> (k: &str) { self.suppression_key.as_str() }
    fn copy_row(&self) -> (r: Self) { self.duplicate() }
}

/// The position of the row keyed `k`, if any.
pub fn find_row<T: KeyedRow>(rows: &Vec<T>, k: &str) -> (r: Option<usize>)
    ensures
        match r {
            Some(i) => i < rows@.len() && rows@[i as int].key_view() == k@,
            None => forall|j: int| 0 <= j < rows@.len() ==> rows@[j].key_view() != k@,
        },
{
    let mut i: usize = 0;
    while i < rows.len()
        invariant
            i <= rows@.len(),
            forall|j: int| 0 <= j < i ==> rows@[j].key_view() != k@,
        decreases rows@.len() - i,
    {
        if same_text(rows[i].key_text(), k) {
            return Some(i);
        }
        i = i + 1;
    }
    None
}

/// A copy of the row keyed `k`, if any.
pub fn lookup_row<T: KeyedRow>(rows: &Vec<T>, k: &str) -> (r: Option<T>)
    requires
        keys_unique(rows@, row_key::<T>()),
    ensures
        r == find(rows@, row_key::<T>(), k@),
        r is Some == has_key(rows@, row_key::<T>(), k@),
{
    match find_row(rows, k) {
        Some(i) => {
            proof { lemma_find_at(rows@, row_key::<T>(), i as int); }
            Some(rows[i].copy_row())
        },
        None => {
            proof { lemma_find_none(rows@, row_key::<T>(), k@); }
            None
        },
    }
}

/// Appends a row whose key is fresh.
pub fn insert_row<T: KeyedRow>(rows: &mut Vec<T>, row: T)
    requires
        keys_unique(old(rows)@, row_key::<T>()),
        !has_key(old(rows)@, row_key::<T>(), row.key_view()),
    ensures
        final(rows)@ == old(rows)@.push(row),
        keys_unique(final(rows)@, row_key::<T>()),
{
    proof { lemma_push_fresh(rows@, row_key::<T>(), row); }
    rows.push(row);
}

// ---------------------------------------------------------------------------
// The store and its model
// ---------------------------------------------------------------------------

/// The store's tables, in memory.
#[derive(Debug, Clone, PartialEq, Eq)]
pub struct UbuStore {
    objects: Vec<ObjectRecord>,
    mutation_envelopes: Vec<RecordedMutation>,
    logs: Vec<LogRecord>,
    external_references: Vec<ExternalReferenceRecord>,
    plans: Vec<PlanRecord>,
    calendars: Vec<CalendarRecord>,
    worker_submissions: Vec<WorkerSubmissionRecord>,
    projection_previews: Vec<ProjectionPreviewRecord>,
    projection_results: Vec<ProjectionResultRecord>,
    advisory_candidates: Vec<CandidateRecord>,
    candidate_decision_events: Vec<CandidateDecisionEvent>,
    suppression_records: Vec<StoredSuppression>,
}

/// The contents of the store's tables, each in insertion order.
pub struct StoreView {
    pub objects: Seq<ObjectRecord>,
    pub ledger: Seq<RecordedMutation>,
    pub logs: Seq<LogRecord>,
    pub external_references: Seq<ExternalReferenceRecord>,
    pub plans: Seq<PlanRecord>,
    pub calendars: Seq<CalendarRecord>,
    pub worker_submissions: Seq<WorkerSubmissionRecord>,
    pub projection_previews: Seq<ProjectionPreviewRecord>,
    pub projection_results: Seq<ProjectionResultRecord>,
    pub candidates: Seq<CandidateRecord>,
    pub decision_events: Seq<CandidateDecisionEvent>,
    pub suppressions: Seq<StoredSuppression>,
}

impl View for UbuStore {
    type V = StoreView;

    closed spec fn view(&self) -> StoreView {
        StoreView {
            objects: self.objects@,
            ledger: self.mutation_envelopes@,
            logs: self.logs@,
            external_references: self.external_references@,
            plans: self.plans@,
            calendars: self.calendars@,
            worker_submissions: self.worker_submissions@,
            projection_previews: self.projection_previews@,
            projection_results: self.projection_results@,
            candidates: self.advisory_candidates@,
            decision_events: self.candidate_decision_events@,
            suppressions: self.suppression_records@,
        }
    }
}

impl StoreView {
    /// Each table's primary key is unique, and canonical object versions are positive.
    pub open spec fn wf(self) -> bool {
        &&& keys_unique(self.objects, object_key())
        &&& keys_unique(self.ledger, ledger_key())
        &&& keys_unique(self.logs, log_key())
        &&& keys_unique(self.external_references, xref_key())
        &&& keys_unique(self.plans, plan_key())
        &&& keys_unique(self.calendars, calendar_key())
        &&& keys_unique(self.worker_submissions, submission_key())
        &&& keys_unique(self.projection_previews, preview_key())
        &&& keys_unique(self.projection_results, result_key())
        &&& keys_unique(self.candidates, candidate_key())
        &&& keys_unique(self.decision_events, event_key())
        &&& keys_unique(self.suppressions, suppression_key())
        &&& forall|i: int| 0 <= i < self.objects.len() ==> #[trigger] self.objects[i].version >= 1
        &&& forall|i: int| 0 <= i < self.candidates.len() ==> #[trigger] self.candidates[i].version >= 0
    }

    /// The empty store.
    pub open spec fn empty() -> StoreView {
        StoreView {
            objects: Seq::empty(),
            ledger: Seq::empty(),
            logs: Seq::empty(),
            external_references: Seq::empty(),
            plans: Seq::empty(),
            calendars: Seq::empty(),
            worker_submissions: Seq::empty(),
            projection_previews: Seq::empty(),
            projection_results: Seq::empty(),
            candidates: Seq::empty(),
            decision_events: Seq::empty(),
            suppressions: Seq::empty(),
        }
    }

    /// The current state of the canonical object `id`.
    pub open spec fn object(self, id: Seq<char>) -> Option<ObjectRecord> {
        find(self.objects, object_key(), id)
    }

    /// The ledger row recorded under a Device-scoped key.
    pub open spec fn recorded(self, device: Seq<char>, key: Seq<char>) -> Option<RecordedMutation> {
        find(self.ledger, ledger_key(), (device, key))
    }

    /// The current version of object `id`, if it exists.
    pub open spec fn actual_version(self, id: Seq<char>) -> Option<i64> {
        match self.object(id) {
            Some(o) => Some(o.version),
            None => None,
        }
    }
}

impl UbuStore {
    /// The store's invariant holds.
    pub open spec fn wf(&self) -> bool {
        self@.wf()
    }

    /// An empty store.
    pub fn in_memory() -> (s: UbuStore)
        ensures
            s@ == StoreView::empty(),
            s.wf(),
    {
        UbuStore {
            objects: Vec::new(),
            mutation_envelopes: Vec::new(),
            logs: Vec::new(),
            external_references: Vec::new(),
            plans: Vec::new(),
            calendars: Vec::new(),
            worker_submissions: Vec::new(),
            projection_previews: Vec::new(),
            projection_results: Vec::new(),
            advisory_candidates: Vec::new(),
            candidate_decision_events: Vec::new(),
            suppression_records: Vec::new(),
        }
    }
}

/// The rows of every table, as read back from durable storage.
pub struct StoredTables {
    pub objects: Vec<ObjectRecord>,
    pub mutation_envelopes: Vec<RecordedMutation>,
    pub logs: Vec<LogRecord>,
    pub external_references: Vec<ExternalReferenceRecord>,
    pub plans: Vec<PlanRecord>,
    pub calendars: Vec<CalendarRecord>,
    pub worker_submissions: Vec<WorkerSubmissionRecord>,
    pub projection_previews: Vec<ProjectionPreviewRecord>,
    pub projection_results: Vec<ProjectionResultRecord>,
    pub advisory_candidates: Vec<CandidateRecord>,
    pub candidate_decision_events: Vec<CandidateDecisionEvent>,
    pub suppression_records: Vec<StoredSuppression>,
}

/// The tables read back, as the store's model.
pub open spec fn stored_view(t: &StoredTables) -> StoreView {
    StoreView {
        objects: t.objects@,
        ledger: t.mutation_envelopes@,
        logs: t.logs@,
        external_references: t.external_references@,
        plans: t.plans@,
        calendars: t.calendars@,
        worker_submissions: t.worker_submissions@,
        projection_previews: t.projection_previews@,
        projection_results: t.projection_results@,
        candidates: t.advisory_candidates@,
        decision_events: t.candidate_decision_events@,
        suppressions: t.suppression_records@,
    }
}

/// Whether no two rows of `rows` share a key.
pub fn keys_are_unique<T: KeyedRow>(rows: &Vec<T>) -> (b: bool)
    ensures
        b == keys_unique(rows@, row_key::<T>()),
{
    let mut i: usize = 0;
    while i < rows.len()
        invariant
            i <= rows@.len(),
            keys_unique(rows@.subrange(0, i as int), row_key::<T>()),
        decreases rows@.len() - i,
    {
        let mut j: usize = 0;
        while j < i
            invariant
                i < rows@.len(),
                j <= i,
                forall|b: int| 0 <= b < j ==> rows@[b].key_view() != rows@[i as int].key_view(),
            decreases i - j,
        {
            if same_text(rows[j].key_text(), rows[i].key_text()) {
                proof {
                    assert(row_key::<T>()(rows@[j as int]) == row_key::<T>()(rows@[i as int]));
                }
                return false;
            }
            j = j + 1;
        }
        proof {
            let prefix = rows@.subrange(0, i as int + 1);
            let before = rows@.subrange(0, i as int);
            assert forall|a: int, b: int|
                0 <= a < prefix.len() && 0 <= b < prefix.len() && a != b
                implies row_key::<T>()(prefix[a]) != row_key::<T>()(prefix[b]) by {
                if a < i && b < i {
                    assert(prefix[a] == before[a] && prefix[b] == before[b]);
                }
            }
        }
        i = i + 1;
    }
    proof { assert(rows@.subrange(0, rows@.len() as int) == rows@); }
    true
}

/// Whether no two ledger rows share a Device-scoped key.
pub fn ledger_keys_are_unique(rows: &Vec<RecordedMutation>) -> (b: bool)
    ensures
        b == keys_unique(rows@, ledger_key()),
{
    let mut i: usize = 0;
    while i < rows.len()
        invariant
            i <= rows@.len(),
            keys_unique(rows@.subrange(0, i as int), ledger_key()),
        decreases rows@.len() - i,
    {
        let mut j: usize = 0;
        while j < i
            invariant
                i < rows@.len(),
                j <= i,
                forall|b: int| 0 <= b < j ==> ledger_key()(rows@[b]) != ledger_key()(rows@[i as int]),
            decreases i - j,
        {
            if same_text(&rows[j].origin_device_id, &rows[i].origin_device_id)
                && same_text(&rows[j].idempotency_key, &rows[i].idempotency_key) {
                proof {
                    assert(ledger_key()(rows@[j as int]) == ledger_key()(rows@[i as int]));
                }
                return false;
            }
            j = j + 1;
        }
        proof {
            let prefix = rows@.subrange(0, i as int + 1);
            let before = rows@.subrange(0, i as int);
            assert forall|a: int, b: int|
                0 <= a < prefix.len() && 0 <= b < prefix.len() && a != b
                implies ledger_key()(prefix[a]) != ledger_key()(prefix[b]) by {
                if a < i && b < i {
                    assert(prefix[a] == before[a] && prefix[b] == before[b]);
                }
            }
        }
        i = i + 1;
    }
    proof { assert(rows@.subrange(0, rows@.len() as int) == rows@); }
    true
}

/// Whether every object version is at least one.
fn object_versions_positive(rows: &Vec<ObjectRecord>) -> (b: bool)
    ensures
        b == (forall|i: int| 0 <= i < rows@.len() ==> #[trigger] rows@[i].version >= 1),
{
    let mut i: usize = 0;
    while i < rows.len()
        invariant
            i <= rows@.len(),
            forall|k: int| 0 <= k < i ==> #[trigger] rows@[k].version >= 1,
        decreases rows@.len() - i,
    {
        if rows[i].version < 1 {
            return false;
        }
        i = i + 1;
    }
    true
}

/// Whether no candidate version is negative.
fn candidate_versions_natural(rows: &Vec<CandidateRecord>) -> (b: bool)
    ensures
        b == (forall|i: int| 0 <= i < rows@.len() ==> #[trigger] rows@[i].version >= 0),
{
    let mut i: usize = 0;
    while i < rows.len()
        invariant
            i <= rows@.len(),
            forall|k: int| 0 <= k < i ==> #[trigger] rows@[k].version >= 0,
        decreases rows@.len() - i,
    {
        if rows[i].version < 0 {
            return false;
        }
        i = i + 1;
    }
    true
}

impl UbuStore {
    /// A store over tables read back from durable storage, if they keep the
    /// store's invariant (unique keys, positive object versions, natural
    /// candidate versions); `None` if they do not.
    pub fn from_tables(t: StoredTables) -> (r: Option<UbuStore>)
        ensures
            r is Some <==> stored_view(&t).wf(),
            r matches Some(s) ==> s@ == stored_view(&t) && s.wf(),
    {
        let fine = keys_are_unique(&t.objects)
            && ledger_keys_are_unique(&t.mutation_envelopes)
            && keys_are_unique(&t.logs)
            && keys_are_unique(&t.external_references)
            && keys_are_unique(&t.plans)
            && keys_are_unique(&t.calendars)
            && keys_are_unique(&t.worker_submissions)
            && keys_are_unique(&t.projection_previews)
            && keys_are_unique(&t.projection_results)
            && keys_are_unique(&t.advisory_candidates)
            && keys_are_unique(&t.candidate_decision_events)
            && keys_are_unique(&t.suppression_records)
            && object_versions_positive(&t.objects)
            && candidate_versions_natural(&t.advisory_candidates);
        if !fine {
            return None;
        }
        Some(UbuStore {
            objects: t.objects,
            mutation_envelopes: t.mutation_envelopes,
            logs: t.logs,
            external_references: t.external_references,
            plans: t.plans,
            calendars: t.calendars,
            worker_submissions: t.worker_submissions,
            projection_previews: t.projection_previews,
            projection_results: t.projection_results,
            advisory_candidates: t.advisory_candidates,
            candidate_decision_events: t.candidate_decision_events,
            suppression_records: t.suppression_records,
        })
    }
}

// ---------------------------------------------------------------------------
// Searches
// ---------------------------------------------------------------------------

pub(crate) fn find_ledger(rows: &Vec<RecordedMutation>, device: &str, key: &str) -> (r: Option<usize>)
    ensures
        match r {
            Some(i) => i < rows@.len() && rows@[i as int].origin_device_id@ == device@
                && rows@[i as int].idempotency_key@ == key@,
            None => forall|j: int| 0 <= j < rows@.len() ==>
                (rows@[j].origin_device_id@, rows@[j].idempotency_key@) != (device@, key@),
        },
{
    let mut i: usize = 0;
    while i < rows.len()
        invariant
            i <= rows@.len(),
            forall|j: int| 0 <= j < i ==>
                (rows@[j].origin_device_id@, rows@[j].idempotency_key@) != (device@, key@),
        decreases rows@.len() - i,
    {
        if same_text(&rows[i].origin_device_id, device) && same_text(&rows[i].idempotency_key, key) {
            return Some(i);
        }
        i = i + 1;
    }
    None
}

// ---------------------------------------------------------------------------
// Read preconditions
// ---------------------------------------------------------------------------

/// Whether an observed version holds of the object's actual version.
pub open spec fn version_matches(expected: VersionRef, actual: Option<i64>) -> bool {
    match (expected, actual) {
        (VersionRef::Absent, None) => true,
        (VersionRef::Version(e), Some(a)) => a >= 0 && a as int == e as int,
        _ => false,
    }
}

/// How a precondition failure names an expected version.
pub open spec fn expected_label(expected: VersionRef) -> Seq<char> {
    version_label(match expected {
        VersionRef::Absent => None,
        VersionRef::Version(v) => Some(v as int),
    })
}

/// How a precondition failure names an actual version.
pub open spec fn actual_label(actual: Option<i64>) -> Seq<char> {
    version_label(match actual {
        None => None,
        Some(v) => Some(v as int),
    })
}

/// The position of the first read precondition, from position `i` on, that the
/// store does not satisfy.
pub open spec fn failed_precondition_from(s: StoreView, observed: Seq<(String, VersionRef)>, i: int) -> Option<int>
    decreases observed.len() - i,
{
    if i < 0 || i >= observed.len() {
        None
    } else if !version_matches(observed[i].1, s.actual_version(observed[i].0@)) {
        Some(i)
    } else {
        failed_precondition_from(s, observed, i + 1)
    }
}

/// Every read precondition must hold, checked in the envelope's order; the first
/// that fails names the object, the version observed and the actual version.
pub open spec fn preconditions_verdict(s: StoreView, observed: Seq<(String, VersionRef)>) -> Result<(), StoreErrorView> {
    match failed_precondition_from(s, observed, 0) {
        None => Ok(()),
        Some(i) => Err(StoreErrorView::PreconditionFailed {
            object_id: observed[i].0@,
            expected: expected_label(observed[i].1),
            actual: actual_label(s.actual_version(observed[i].0@)),
        }),
    }
}

proof fn lemma_no_failed_precondition(s: StoreView, observed: Seq<(String, VersionRef)>, i: int)
    requires
        0 <= i,
        failed_precondition_from(s, observed, i) is None,
    ensures
        forall|j: int| i <= j < observed.len() ==> version_matches(observed[j].1, s.actual_version(observed[j].0@)),
    decreases observed.len() - i,
{
    if i < observed.len() {
        lemma_no_failed_precondition(s, observed, i + 1);
    }
}

/// When every read precondition holds, each observed entry matches the object.
pub proof fn lemma_preconditions_hold(s: StoreView, observed: Seq<(String, VersionRef)>)
    requires
        preconditions_verdict(s, observed) is Ok,
    ensures
        forall|j: int| 0 <= j < observed.len() ==> version_matches(observed[j].1, s.actual_version(observed[j].0@)),
{
    lemma_no_failed_precondition(s, observed, 0);
}

/// What a ledger replay must point at, by the table the writer fills.
#[derive(Debug, Clone, Copy, PartialEq, Eq, Structural)]
pub enum MutationTarget {
    /// A canonical object: a positive result version.
    Object,
    /// An append-only log entry: result version zero, a row in `logs`.
    Log,
    /// An external reference: result version zero, a row in `external_references`.
    ExternalReference,
    /// A candidate-only decision: a negative result version, a candidate row.
    Candidate,
}

/// The table a target's replays must point into.
pub open spec fn target_table(t: MutationTarget) -> Table {
    match t {
        MutationTarget::Object => Table::Objects,
        MutationTarget::Log => Table::Logs,
        MutationTarget::ExternalReference => Table::ExternalReferences,
        MutationTarget::Candidate => Table::AdvisoryCandidates,
    }
}

/// Whether a recorded result belongs to the writer's target.
pub open spec fn replay_target_holds(s: StoreView, target: MutationTarget, row: RecordedMutation) -> bool {
    match target {
        MutationTarget::Object => row.result_version > 0,
        MutationTarget::Log => row.result_version == 0 && has_key(s.logs, log_key(), row.result_object_id@),
        MutationTarget::ExternalReference =>
            row.result_version == 0 && has_key(s.external_references, xref_key(), row.result_object_id@),
        MutationTarget::Candidate =>
            row.result_version < 0 && has_key(s.candidates, candidate_key(), row.result_object_id@),
    }
}

/// How a writer's request stands after the shared checks.
#[derive(Debug)]
pub enum Prepared {
    /// The same request was recorded before: answer from the recorded result.
    Replay(RecordedMutation),
    /// A new request whose read preconditions hold.
    Fresh,
}

/// The shared checks every envelope-aware writer makes, in this order: the
/// envelope must be valid; a request recorded under the same Device-scoped key
/// replays if its canonical payload is the same and its result belongs to the
/// writer's target, and conflicts otherwise; a new request must satisfy all of
/// its read preconditions.
pub open spec fn prepare_verdict(s: StoreView, envelope: MutationEnvelope, canonical_payload: Seq<char>, target: MutationTarget) -> Result<Prepared, StoreErrorView> {
    match envelope.validation {
        Err(e) => Err(StoreErrorView::Core(e@)),
        Ok(_) => match s.recorded(envelope.origin_device_id@, envelope.idempotency_key@) {
            Some(row) => if row.canonical_payload@ != canonical_payload {
                Err(StoreErrorView::Core(CoreErrorView::IdempotencyKeyConflict {
                    origin_device_id: envelope.origin_device_id@,
                    idempotency_key: envelope.idempotency_key@,
                }))
            } else if !replay_target_holds(s, target, row) {
                Err(StoreErrorView::ReplayTargetMismatch {
                    object_id: row.result_object_id@,
                    expected_table: target_table(target),
                })
            } else {
                Ok(Prepared::Replay(row))
            },
            None => match preconditions_verdict(s, envelope.observed_versions@) {
                Err(e) => Err(e),
                Ok(_) => Ok(Prepared::Fresh),
            },
        },
    }
}

/// The ledger row a fresh request records.
pub open spec fn ledger_row(envelope: MutationEnvelope, canonical_payload: String, result_object_id: String, result_version: i64) -> RecordedMutation {
    RecordedMutation {
        origin_device_id: envelope.origin_device_id,
        idempotency_key: envelope.idempotency_key,
        envelope_json: envelope.envelope_json,
        canonical_payload,
        result_object_id,
        result_version,
        recorded_at: envelope.recorded_time,
    }
}

impl UbuStore {
    fn check_preconditions(&self, observed: &Vec<(String, VersionRef)>) -> (r: Result<(), StoreError>)
        requires
            self.wf(),
        ensures
            outcome(r) == preconditions_verdict(self@, observed@),
    {
        let n = observed.len();
        let mut i: usize = 0;
        while i < n
            invariant
                n == observed@.len(),
                i <= n,
                self.wf(),
                failed_precondition_from(self@, observed@, 0) == failed_precondition_from(self@, observed@, i as int),
            decreases n - i,
        {
            let id = &observed[i].0;
            let expected = observed[i].1;
            let found = find_row(&self.objects, id);
            let actual: Option<i64> = match found {
                Some(j) => {
                    proof { lemma_find_at(self@.objects, object_key(), j as int); }
                    Some(self.objects[j].version)
                },
                None => {
                    proof { lemma_find_none(self@.objects, object_key(), id@); }
                    None
                },
            };
            assert(actual == self@.actual_version(observed@[i as int].0@));
            let matches = match (expected, actual) {
                (VersionRef::Absent, None) => true,
                (VersionRef::Version(e), Some(a)) => a >= 0 && a as u64 == e,
                _ => false,
            };
            if !matches {
                let expected_text = match expected {
                    VersionRef::Absent => render_version_label(None),
                    VersionRef::Version(v) => render_version_label(Some(v)),
                };
                let actual_text = match actual {
                    None => render_version_label(None),
                    Some(a) => {
                        assert(a >= 1) by {
                            let j = found.unwrap();
                            assert(self@.objects[j as int].version >= 1);
                        }
                        render_version_label(Some(a as u64))
                    },
                };
                return Err(StoreError::PreconditionFailed {
                    object_id: id.clone(),
                    expected: expected_text,
                    actual: actual_text,
                });
            }
            i = i + 1;
        }
        Ok(())
    }

    /// Whether the recorded result belongs to the target.
    fn replay_target_found(&self, target: MutationTarget, row: &RecordedMutation) -> (r: bool)
        requires
            self.wf(),
        ensures
            r == replay_target_holds(self@, target, *row),
    {
        match target {
            MutationTarget::Object => row.result_version > 0,
            MutationTarget::Log => {
                if row.result_version != 0 {
                    return false;
                }
                match find_row(&self.logs, &row.result_object_id) {
                    Some(i) => {
                        assert(log_key()(self@.logs[i as int]) == row.result_object_id@);
                        true
                    },
                    None => false,
                }
            },
            MutationTarget::ExternalReference => {
                if row.result_version != 0 {
                    return false;
                }
                match find_row(&self.external_references, &row.result_object_id) {
                    Some(i) => {
                        assert(xref_key()(self@.external_references[i as int]) == row.result_object_id@);
                        true
                    },
                    None => false,
                }
            },
            MutationTarget::Candidate => {
                if row.result_version >= 0 {
                    return false;
                }
                match find_row(&self.advisory_candidates, &row.result_object_id) {
                    Some(i) => {
                        assert(candidate_key()(self@.candidates[i as int]) == row.result_object_id@);
                        true
                    },
                    None => false,
                }
            },
        }
    }

    /// The shared checks of every envelope-aware writer (see `prepare_verdict`).
    pub(crate) fn prepare_mutation(&self, envelope: &MutationEnvelope, canonical_payload: &str, target: MutationTarget) -> (r: Result<Prepared, StoreError>)
        requires
            self.wf(),
        ensures
            outcome(r) == prepare_verdict(self@, *envelope, canonical_payload@, target),
    {
        match &envelope.validation {
            Err(e) => return Err(StoreError::Core(e.clone_core())),
            Ok(_) => {},
        }
        match find_ledger(&self.mutation_envelopes, &envelope.origin_device_id, &envelope.idempotency_key) {
            Some(i) => {
                proof { lemma_find_at(self@.ledger, ledger_key(), i as int); }
                let row = self.mutation_envelopes[i].duplicate();
                if !same_text(&row.canonical_payload, canonical_payload) {
                    return Err(StoreError::Core(CoreError::IdempotencyKeyConflict {
                        origin_device_id: envelope.origin_device_id.clone(),
                        idempotency_key: envelope.idempotency_key.clone(),
                    }));
                }
                if !self.replay_target_found(target, &row) {
                    let expected_table = match target {
                        MutationTarget::Object => Table::Objects,
                        MutationTarget::Log => Table::Logs,
                        MutationTarget::ExternalReference => Table::ExternalReferences,
                        MutationTarget::Candidate => Table::AdvisoryCandidates,
                    };
                    return Err(StoreError::ReplayTargetMismatch {
                        object_id: row.result_object_id.clone(),
                        expected_table,
                    });
                }
                Ok(Prepared::Replay(row))
            },
            None => {
                proof { lemma_find_none(self@.ledger, ledger_key(), (envelope.origin_device_id@, envelope.idempotency_key@)); }
                match self.check_preconditions(&envelope.observed_versions) {
                    Err(e) => Err(e),
                    Ok(_) => Ok(Prepared::Fresh),
                }
            },
        }
    }

    /// Records a fresh request in the ledger.
    pub(crate) fn record_mutation(&mut self, envelope: &MutationEnvelope, canonical_payload: String, result_object_id: String, result_version: i64)
        requires
            old(self).wf(),
            old(self)@.recorded(envelope.origin_device_id@, envelope.idempotency_key@) is None,
        ensures
            final(self).wf(),
            final(self)@ == (StoreView {
                ledger: old(self)@.ledger.push(ledger_row(*envelope, canonical_payload, result_object_id, result_version)),
                ..old(self)@
            }),
    {
        let row = RecordedMutation {
            origin_device_id: envelope.origin_device_id.clone(),
            idempotency_key: envelope.idempotency_key.clone(),
            envelope_json: envelope.envelope_json.clone(),
            canonical_payload,
            result_object_id,
            result_version,
            recorded_at: envelope.recorded_time.clone(),
        };
        proof {
            let k = (envelope.origin_device_id@, envelope.idempotency_key@);
            assert(ledger_key()(row) == k);
            if has_key(self@.ledger, ledger_key(), k) {
                let i = choose|i: int| 0 <= i < self@.ledger.len() && ledger_key()(self@.ledger[i]) == k;
                lemma_find_at(self@.ledger, ledger_key(), i);
            }
            lemma_push_fresh(self@.ledger, ledger_key(), row);
        }
        self.mutation_envelopes.push(row);
    }
}

/// `objects` with `row` written under its id: replacing the row of that id, or appended.
pub open spec fn put_object(objects: Seq<ObjectRecord>, row: ObjectRecord) -> Seq<ObjectRecord> {
    if has_key(objects, object_key(), row.id@) {
        objects.update(choose|i: int| 0 <= i < objects.len() && object_key()(objects[i]) == row.id@, row)
    } else {
        objects.push(row)
    }
}

/// Writing `row` under its id keeps ids unique; the row is then found under its
/// id, and every other id finds what it found before.
pub proof fn lemma_put_object(objects: Seq<ObjectRecord>, row: ObjectRecord)
    requires
        keys_unique(objects, object_key()),
    ensures
        keys_unique(put_object(objects, row), object_key()),
        find(put_object(objects, row), object_key(), row.id@) == Some(row),
        forall|k: Seq<char>| k != row.id@ ==> find(put_object(objects, row), object_key(), k) == find(objects, object_key(), k),
{
    if has_key(objects, object_key(), row.id@) {
        let i = choose|i: int| 0 <= i < objects.len() && object_key()(objects[i]) == row.id@;
        lemma_update_same_key(objects, object_key(), i, row);
    } else {
        lemma_push_fresh(objects, object_key(), row);
    }
}

/// A row found under a key has that key.
pub proof fn lemma_found_has_key<T, K>(rows: Seq<T>, key: spec_fn(T) -> K, k: K)
    requires
        find(rows, key, k) is Some,
    ensures
        key(find(rows, key, k).unwrap()) == k,
        has_key(rows, key, k),
{
}

impl UbuStore {
    /// Writes `row` under its id, replacing the current row of that id or appending.
    pub(crate) fn put_object_row(&mut self, row: ObjectRecord)
        requires
            old(self).wf(),
            row.version >= 1,
        ensures
            final(self).wf(),
            final(self)@ == (StoreView { objects: put_object(old(self)@.objects, row), ..old(self)@ }),
            final(self)@.object(row.id@) == Some(row),
            forall|k: Seq<char>| k != row.id@ ==> final(self)@.object(k) == old(self)@.object(k),
    {
        let found = find_row(&self.objects, &row.id);
        match found {
            Some(i) => {
                proof {
                    let objs = self@.objects;
                    assert(object_key()(objs[i as int]) == row.id@);
                    assert(has_key(objs, object_key(), row.id@));
                    let c = choose|j: int| 0 <= j < objs.len() && object_key()(objs[j]) == row.id@;
                    assert(c == i);
                    lemma_update_same_key(objs, object_key(), i as int, row);
                }
                self.objects.set(i, row);
            },
            None => {
                proof {
                    lemma_find_none(self@.objects, object_key(), row.id@);
                    lemma_push_fresh(self@.objects, object_key(), row);
                }
                self.objects.push(row);
            },
        }
    }

    /// The current row of object `id`, if any.
    pub(crate) fn current_object(&self, id: &str) -> (r: Option<ObjectRecord>)
        requires
            self.wf(),
        ensures
            r == self@.object(id@),
    {
        match find_row(&self.objects, id) {
            Some(i) => {
                proof { lemma_find_at(self@.objects, object_key(), i as int); }
                Some(self.objects[i].duplicate())
            },
            None => {
                proof { lemma_find_none(self@.objects, object_key(), id@); }
                None
            },
        }
    }
}

impl UbuStore {
    /// The ledger row recorded under a Device-scoped key.
    pub(crate) fn recorded_row(&self, device: &str, key: &str) -> (r: Option<RecordedMutation>)
        requires
            self.wf(),
        ensures
            r == self@.recorded(device@, key@),
    {
        match find_ledger(&self.mutation_envelopes, device, key) {
            Some(i) => {
                proof { lemma_find_at(self@.ledger, ledger_key(), i as int); }
                Some(self.mutation_envelopes[i].duplicate())
            },
            None => {
                proof { lemma_find_none(self@.ledger, ledger_key(), (device@, key@)); }
                None
            },
        }
    }
}

impl UbuStore {
    /// Copies of the `objects` rows that `p` keeps, in table order.
    pub(crate) fn select_objects<P: RowFilter<ObjectRecord>>(&self, p: &P) -> (out: Vec<ObjectRecord>)
        ensures
            out@ == keep(self@.objects, |r: ObjectRecord| p.keeps(r)),
    {
        keep_rows(&self.objects, p)
    }

    /// Copies of the `logs` rows that `p` keeps, in table order.
    pub(crate) fn select_logs<P: RowFilter<LogRecord>>(&self, p: &P) -> (out: Vec<LogRecord>)
        ensures
            out@ == keep(self@.logs, |r: LogRecord| p.keeps(r)),
    {
        keep_rows(&self.logs, p)
    }

    /// Copies of the `external_references` rows that `p` keeps, in table order.
    pub(crate) fn select_external_references<P: RowFilter<ExternalReferenceRecord>>(&self, p: &P) -> (out: Vec<ExternalReferenceRecord>)
        ensures
            out@ == keep(self@.external_references, |r: ExternalReferenceRecord| p.keeps(r)),
    {
        keep_rows(&self.external_references, p)
    }

    /// Copies of the `candidates` rows that `p` keeps, in table order.
    pub(crate) fn select_candidates<P: RowFilter<CandidateRecord>>(&self, p: &P) -> (out: Vec<CandidateRecord>)
        ensures
            out@ == keep(self@.candidates, |r: CandidateRecord| p.keeps(r)),
    {
        keep_rows(&self.advisory_candidates, p)
    }

    /// Copies of the `decision_events` rows that `p` keeps, in table order.
    pub(crate) fn select_decision_events<P: RowFilter<CandidateDecisionEvent>>(&self, p: &P) -> (out: Vec<CandidateDecisionEvent>)
        ensures
            out@ == keep(self@.decision_events, |r: CandidateDecisionEvent| p.keeps(r)),
    {
        keep_rows(&self.candidate_decision_events, p)
    }

    /// A copy of the `logs` row keyed `k`, if any.
    pub(crate) fn log_row(&self, k: &str) -> (r: Option<LogRecord>)
        requires
            self.wf(),
        ensures
            r == find(self@.logs, row_key::<LogRecord>(), k@),
            r is Some == has_key(self@.logs, row_key::<LogRecord>(), k@),
    {
        lookup_row(&self.logs, k)
    }

    /// Appends a `logs` row with a fresh key.
    pub(crate) fn insert_log(&mut self, row: LogRecord)
        requires
            old(self).wf(),
            !has_key(old(self)@.logs, row_key::<LogRecord>(), row.key_view()),
        ensures
            final(self).wf(),
            final(self)@ == (StoreView { logs: old(self)@.logs.push(row), ..old(self)@ }),
    {
        insert_row(&mut self.logs, row);
    }

    /// A copy of the `external_references` row keyed `k`, if any.
    pub(crate) fn xref_row(&self, k: &str) -> (r: Option<ExternalReferenceRecord>)
        requires
            self.wf(),
        ensures
            r == find(self@.external_references, row_key::<ExternalReferenceRecord>(), k@),
            r is Some == has_key(self@.external_references, row_key::<ExternalReferenceRecord>(), k@),
    {
        lookup_row(&self.external_references, k)
    }

    /// Appends a `external_references` row with a fresh key.
    pub(crate) fn insert_xref(&mut self, row: ExternalReferenceRecord)
        requires
            old(self).wf(),
            !has_key(old(self)@.external_references, row_key::<ExternalReferenceRecord>(), row.key_view()),
        ensures
            final(self).wf(),
            final(self)@ == (StoreView { external_references: old(self)@.external_references.push(row), ..old(self)@ }),
    {
        insert_row(&mut self.external_references, row);
    }

    /// A copy of the `plans` row keyed `k`, if any.
    pub(crate) fn plan_row(&self, k: &str) -> (r: Option<PlanRecord>)
        requires
            self.wf(),
        ensures
            r == find(self@.plans, row_key::<PlanRecord>(), k@),
            r is Some == has_key(self@.plans, row_key::<PlanRecord>(), k@),
    {
        lookup_row(&self.plans, k)
    }

    /// Appends a `plans` row with a fresh key.
    pub(crate) fn insert_plan(&mut self, row: PlanRecord)
        requires
            old(self).wf(),
            !has_key(old(self)@.plans, row_key::<PlanRecord>(), row.key_view()),
        ensures
            final(self).wf(),
            final(self)@ == (StoreView { plans: old(self)@.plans.push(row), ..old(self)@ }),
    {
        insert_row(&mut self.plans, row);
    }

    /// A copy of the `calendars` row keyed `k`, if any.
    pub(crate) fn calendar_row(&self, k: &str) -> (r: Option<CalendarRecord>)
        requires
            self.wf(),
        ensures
            r == find(self@.calendars, row_key::<CalendarRecord>(), k@),
            r is Some == has_key(self@.calendars, row_key::<CalendarRecord>(), k@),
    {
        lookup_row(&self.calendars, k)
    }

    /// Appends a `calendars` row with a fresh key.
    pub(crate) fn insert_calendar(&mut self, row: CalendarRecord)
        requires
            old(self).wf(),
            !has_key(old(self)@.calendars, row_key::<CalendarRecord>(), row.key_view()),
        ensures
            final(self).wf(),
            final(self)@ == (StoreView { calendars: old(self)@.calendars.push(row), ..old(self)@ }),
    {
        insert_row(&mut self.calendars, row);
    }

    /// A copy of the `worker_submissions` row keyed `k`, if any.
    pub(crate) fn submission_row(&self, k: &str) -> (r: Option<WorkerSubmissionRecord>)
        requires
            self.wf(),
        ensures
            r == find(self@.worker_submissions, row_key::<WorkerSubmissionRecord>(), k@),
            r is Some == has_key(self@.worker_submissions, row_key::<WorkerSubmissionRecord>(), k@),
    {
        lookup_row(&self.worker_submissions, k)
    }

    /// Appends a `worker_submissions` row with a fresh key.
    pub(crate) fn insert_submission(&mut self, row: WorkerSubmissionRecord)
        requires
            old(self).wf(),
            !has_key(old(self)@.worker_submissions, row_key::<WorkerSubmissionRecord>(), row.key_view()),
        ensures
            final(self).wf(),
            final(self)@ == (StoreView { worker_submissions: old(self)@.worker_submissions.push(row), ..old(self)@ }),
    {
        insert_row(&mut self.worker_submissions, row);
    }

    /// A copy of the `projection_previews` row keyed `k`, if any.
    pub(crate) fn preview_row(&self, k: &str) -> (r: Option<ProjectionPreviewRecord>)
        requires
            self.wf(),
        ensures
            r == find(self@.projection_previews, row_key::<ProjectionPreviewRecord>(), k@),
            r is Some == has_key(self@.projection_previews, row_key::<ProjectionPreviewRecord>(), k@),
    {
        lookup_row(&self.projection_previews, k)
    }

    /// Appends a `projection_previews` row with a fresh key.
    pub(crate) fn insert_preview(&mut self, row: ProjectionPreviewRecord)
        requires
            old(self).wf(),
            !has_key(old(self)@.projection_previews, row_key::<ProjectionPreviewRecord>(), row.key_view()),
        ensures
            final(self).wf(),
            final(self)@ == (StoreView { projection_previews: old(self)@.projection_previews.push(row), ..old(self)@ }),
    {
        insert_row(&mut self.projection_previews, row);
    }

    /// A copy of the `projection_results` row keyed `k`, if any.
    pub(crate) fn result_row(&self, k: &str) -> (r: Option<ProjectionResultRecord>)
        requires
            self.wf(),
        ensures
            r == find(self@.projection_results, row_key::<ProjectionResultRecord>(), k@),
            r is Some == has_key(self@.projection_results, row_key::<ProjectionResultRecord>(), k@),
    {
        lookup_row(&self.projection_results, k)
    }

    /// Appends a `projection_results` row with a fresh key.
    pub(crate) fn insert_result(&mut self, row: ProjectionResultRecord)
        requires
            old(self).wf(),
            !has_key(old(self)@.projection_results, row_key::<ProjectionResultRecord>(), row.key_view()),
        ensures
            final(self).wf(),
            final(self)@ == (StoreView { projection_results: old(self)@.projection_results.push(row), ..old(self)@ }),
    {
        insert_row(&mut self.projection_results, row);
    }

    /// A copy of the `advisory_candidates` row keyed `k`, if any.
    pub(crate) fn candidate_row(&self, k: &str) -> (r: Option<CandidateRecord>)
        requires
            self.wf(),
        ensures
            r == find(self@.candidates, row_key::<CandidateRecord>(), k@),
            r is Some == has_key(self@.candidates, row_key::<CandidateRecord>(), k@),
    {
        lookup_row(&self.advisory_candidates, k)
    }

    /// Appends a `advisory_candidates` row with a fresh key.
    pub(crate) fn insert_candidate(&mut self, row: CandidateRecord)
        requires
            old(self).wf(),
            row.version >= 0,
            !has_key(old(self)@.candidates, row_key::<CandidateRecord>(), row.key_view()),
        ensures
            final(self).wf(),
            final(self)@ == (StoreView { candidates: old(self)@.candidates.push(row), ..old(self)@ }),
    {
        insert_row(&mut self.advisory_candidates, row);
    }

    /// A copy of the `candidate_decision_events` row keyed `k`, if any.
    pub(crate) fn event_row(&self, k: &str) -> (r: Option<CandidateDecisionEvent>)
        requires
            self.wf(),
        ensures
            r == find(self@.decision_events, row_key::<CandidateDecisionEvent>(), k@),
            r is Some == has_key(self@.decision_events, row_key::<CandidateDecisionEvent>(), k@),
    {
        lookup_row(&self.candidate_decision_events, k)
    }

    /// Appends a `candidate_decision_events` row with a fresh key.
    pub(crate) fn insert_event(&mut self, row: CandidateDecisionEvent)
        requires
            old(self).wf(),
            !has_key(old(self)@.decision_events, row_key::<CandidateDecisionEvent>(), row.key_view()),
        ensures
            final(self).wf(),
            final(self)@ == (StoreView { decision_events: old(self)@.decision_events.push(row), ..old(self)@ }),
    {
        insert_row(&mut self.candidate_decision_events, row);
    }

    /// A copy of the `suppression_records` row keyed `k`, if any.
    pub(crate) fn suppression_row(&self, k: &str) -> (r: Option<StoredSuppression>)
        requires
            self.wf(),
        ensures
            r == find(self@.suppressions, row_key::<StoredSuppression>(), k@),
            r is Some == has_key(self@.suppressions, row_key::<StoredSuppression>(), k@),
    {
        lookup_row(&self.suppression_records, k)
    }

    /// Appends a `suppression_records` row with a fresh key.
    pub(crate) fn insert_suppression(&mut self, row: StoredSuppression)
        requires
            old(self).wf(),
            !has_key(old(self)@.suppressions, row_key::<StoredSuppression>(), row.key_view()),
        ensures
            final(self).wf(),
            final(self)@ == (StoreView { suppressions: old(self)@.suppressions.push(row), ..old(self)@ }),
    {
        insert_row(&mut self.suppression_records, row);
    }

    /// Replaces the candidate row at the key of `row`, which must exist.
    pub(crate) fn replace_candidate(&mut self, row: CandidateRecord)
        requires
            old(self).wf(),
            row.version >= 0,
            has_key(old(self)@.candidates, candidate_key(), row.key_view()),
        ensures
            final(self).wf(),
            final(self)@ == (StoreView { candidates: put_row(old(self)@.candidates, row), ..old(self)@ }),
            find(final(self)@.candidates, candidate_key(), row.key_view()) == Some(row),
            forall|k: Seq<char>| k != row.key_view() ==>
                find(final(self)@.candidates, candidate_key(), k) == find(old(self)@.candidates, candidate_key(), k),
    {
        let i = find_row(&self.advisory_candidates, row.key_text()).unwrap();
        proof {
            let rows = self@.candidates;
            let c = choose|j: int| 0 <= j < rows.len() && candidate_key()(rows[j]) == row.key_view();
            if c != i {
                assert(candidate_key()(rows[i as int]) == row.key_view());
            }
            lemma_update_same_key(rows, candidate_key(), i as int, row);
        }
        self.advisory_candidates.set(i, row);
    }
}

/// `rows` with `row` written under its key, replacing the row of that key or appended.
pub open spec fn put_row<T: KeyedRow>(rows: Seq<T>, row: T) -> Seq<T> {
    if has_key(rows, row_key::<T>(), row.key_view()) {
        rows.update(choose|i: int| 0 <= i < rows.len() && row_key::<T>()(rows[i]) == row.key_view(), row)
    } else {
        rows.push(row)
    }
}

/// Writing `row` under its key keeps keys unique; the row is then found under its
/// key, and every other key finds what it found before.
pub proof fn lemma_put_row<T: KeyedRow>(rows: Seq<T>, row: T)
    requires
        keys_unique(rows, row_key::<T>()),
    ensures
        keys_unique(put_row(rows, row), row_key::<T>()),
        find(put_row(rows, row), row_key::<T>(), row.key_view()) == Some(row),
        forall|k: Seq<char>| k != row.key_view() ==> find(put_row(rows, row), row_key::<T>(), k) == find(rows, row_key::<T>(), k),
{
    if has_key(rows, row_key::<T>(), row.key_view()) {
        let i = choose|i: int| 0 <= i < rows.len() && row_key::<T>()(rows[i]) == row.key_view();
        lemma_update_same_key(rows, row_key::<T>(), i, row);
    } else {
        lemma_push_fresh(rows, row_key::<T>(), row);
    }
}

} // verus!
