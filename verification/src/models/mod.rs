//! The records the store reads and writes.

pub mod calendar_record;
pub mod candidate_record;
pub mod external_reference_record;
pub mod log_record;
pub mod object_record;
pub mod plan_record;
pub mod projection_record;
pub mod recorded_mutation;
pub mod task_record;
pub mod worker_submission_record;
