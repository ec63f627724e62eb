use vstd::prelude::*;

use crate::errors::{outcome, CoreError, CorrelationGroupViolation, DurationEstimateViolation, StoreError};
use crate::errors::{CoreErrorView, StoreErrorView};
use crate::text::same_text;

verus! {

/// A task's duration estimate.
#[derive(Debug, Clone, Copy, PartialEq, Eq, Structural)]
pub enum TaskDurationEstimate {
    Fixed { seconds: u64 },
    ShiftedLognormalP95 { min_seconds: u64, mode_seconds: u64, p95_seconds: u64 },
}

/// What the core rules say of an estimate: a fixed estimate takes a positive
/// duration; a three-point estimate needs `min < mode < p95`.
pub open spec fn duration_estimate_violation(e: TaskDurationEstimate) -> Option<DurationEstimateViolation> {
    match e {
        TaskDurationEstimate::Fixed { seconds } =>
            if seconds == 0 { Some(DurationEstimateViolation::ZeroSeconds) } else { None },
        TaskDurationEstimate::ShiftedLognormalP95 { min_seconds, mode_seconds, p95_seconds } =>
            if min_seconds < mode_seconds && mode_seconds < p95_seconds {
                None
            } else {
                Some(DurationEstimateViolation::NotStrictlyIncreasing)
            },
    }
}

impl TaskDurationEstimate {
    /// Checks the estimate against the core rules.
    pub fn validate(&self) -> (r: Result<(), StoreError>)
        ensures
            match duration_estimate_violation(*self) {
                None => r is Ok,
                Some(v) => r matches Err(e) && e@ == StoreErrorView::Core(
                    CoreErrorView::InvalidTaskDurationEstimate { violation: v },
                ),
            },
    {
        match self {
            TaskDurationEstimate::Fixed { seconds } => {
                if *seconds == 0 {
                    return Err(StoreError::Core(CoreError::InvalidTaskDurationEstimate {
                        violation: DurationEstimateViolation::ZeroSeconds,
                    }));
                }
                Ok(())
            },
            TaskDurationEstimate::ShiftedLognormalP95 { min_seconds, mode_seconds, p95_seconds } => {
                if !(*min_seconds < *mode_seconds && *mode_seconds < *p95_seconds) {
                    return Err(StoreError::Core(CoreError::InvalidTaskDurationEstimate {
                        violation: DurationEstimateViolation::NotStrictlyIncreasing,
                    }));
                }
                Ok(())
            },
        }
    }
}

/// A correlation group as the admission rules read it: its name, and whether its
/// strength lies within zero and one (inclusive).
#[derive(Debug, Clone, PartialEq, Eq)]
pub struct CorrelationGroupCheck {
    pub group: String,
    pub strength_in_range: bool,
}

/// The first refusal met walking the groups from position `i`: a strength out of
/// range, or a name already used by an earlier group.
pub open spec fn correlation_violation_from(groups: Seq<CorrelationGroupCheck>, i: int) -> Option<CorrelationGroupViolation>
    decreases groups.len() - i,
{
    if i < 0 || i >= groups.len() {
        None
    } else if !groups[i].strength_in_range {
        Some(CorrelationGroupViolation::StrengthOutOfRange)
    } else if exists|j: int| 0 <= j < i && groups[j].group@ == groups[i].group@ {
        Some(CorrelationGroupViolation::DuplicateName)
    } else {
        correlation_violation_from(groups, i + 1)
    }
}

/// The refusal, if any, of a list of correlation groups.
pub open spec fn correlation_violation(groups: Seq<CorrelationGroupCheck>) -> Option<CorrelationGroupViolation> {
    correlation_violation_from(groups, 0)
}

/// Checks correlation groups: strengths within range and unique names.
pub fn validate_correlation_groups(groups: &Vec<CorrelationGroupCheck>) -> (r: Result<(), StoreError>)
    ensures
        match correlation_violation(groups@) {
            None => r is Ok,
            Some(v) => r matches Err(e) && e@ == StoreErrorView::Core(
                CoreErrorView::InvalidTaskCorrelationGroup { violation: v },
            ),
        },
{
    let n = groups.len();
    let mut i: usize = 0;
    while i < n
        invariant
            n == groups@.len(),
            i <= n,
            correlation_violation(groups@) == correlation_violation_from(groups@, i as int),
        decreases n - i,
    {
        if !groups[i].strength_in_range {
            return Err(StoreError::Core(CoreError::InvalidTaskCorrelationGroup {
                violation: CorrelationGroupViolation::StrengthOutOfRange,
            }));
        }
        let mut j: usize = 0;
        while j < i
            invariant
                n == groups@.len(),
                i < n,
                j <= i,
                groups@[i as int].strength_in_range,
                correlation_violation(groups@) == correlation_violation_from(groups@, i as int),
                forall|k: int| 0 <= k < j ==> groups@[k].group@ != groups@[i as int].group@,
            decreases i - j,
        {
            if groups[j].group == groups[i].group {
                assert(groups@[j as int].group@ == groups@[i as int].group@);
                return Err(StoreError::Core(CoreError::InvalidTaskCorrelationGroup {
                    violation: CorrelationGroupViolation::DuplicateName,
                }));
            }
            j = j + 1;
        }
        i = i + 1;
    }
    Ok(())
}

/// A Task's static window, as the instants its start and end denote: nanoseconds
/// since the Unix epoch, with each timestamp's offset applied.
#[derive(Debug, Clone, Copy, PartialEq, Eq, Structural)]
pub struct StaticWindow {
    pub start: i128,
    pub end: i128,
}

/// The scheduling fields of a Task payload, as the core crate's strict reading of
/// the Task gives them: each is absent when the payload has no such member.
#[derive(Debug, Clone, PartialEq, Eq)]
pub struct TaskMappingFields {
    pub static_window: Option<StaticWindow>,
    pub tags: Option<Vec<String>>,
    pub category_tag: Option<String>,
}

/// Whether `tag` is one of `tags` (exactly, case included).
pub open spec fn tag_listed(tags: Option<Vec<String>>, tag: Seq<char>) -> bool {
    match tags {
        Some(ts) => exists|i: int| 0 <= i < ts@.len() && ts@[i]@ == tag,
        None => false,
    }
}

/// What the core rules say of a Task's scheduling fields: a static window must end
/// strictly after it starts, and a category tag must be a non-empty member of the
/// Task's tags, checked in this order.
pub open spec fn task_mapping_verdict(f: TaskMappingFields) -> Result<(), StoreErrorView> {
    if f.static_window matches Some(w) && !(w.start < w.end) {
        Err(StoreErrorView::Core(CoreErrorView::InvalidTaskStaticWindow))
    } else if f.category_tag matches Some(c) && (c@.len() == 0 || !tag_listed(f.tags, c@)) {
        Err(StoreErrorView::Core(CoreErrorView::InvalidTaskCategoryTag))
    } else {
        Ok(())
    }
}

/// Checks a Task's scheduling fields against the core rules.
pub fn validate_task_mapping(f: &TaskMappingFields) -> (r: Result<(), StoreError>)
    ensures
        outcome(r) == task_mapping_verdict(*f),
{
    if let Some(w) = &f.static_window {
        if !(w.start < w.end) {
            return Err(StoreError::Core(CoreError::InvalidTaskStaticWindow));
        }
    }
    if let Some(c) = &f.category_tag {
        let listed = match &f.tags {
            None => false,
            Some(ts) => {
                let mut found = false;
                let mut i: usize = 0;
                while i < ts.len()
                    invariant
                        i <= ts@.len(),
                        found == exists|j: int| 0 <= j < i && ts@[j]@ == c@,
                    decreases ts@.len() - i,
                {
                    if same_text(&ts[i], c) {
                        found = true;
                    }
                    i = i + 1;
                }
                found
            },
        };
        if c.unicode_len() == 0 || !listed {
            return Err(StoreError::Core(CoreError::InvalidTaskCategoryTag));
        }
    }
    Ok(())
}

} // verus!
