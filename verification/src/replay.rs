//! Replaying an object's history from the append-only log.

use vstd::prelude::*;

use crate::errors::{CoreError, StoreError, StoreErrorView};
use crate::models::log_record::LogRecord;
use crate::queries::{get_object_history, object_history};
use crate::store::UbuStore;

verus! {

/// The log entries that replay object `object_id`: its history, oldest first.
/// `parsed` is what the core id parser said of the id.
pub fn replay_state(store: &UbuStore, object_id: &str, parsed: &Result<(), CoreError>) -> (r: Result<Vec<LogRecord>, StoreError>)
    ensures
        match parsed {
            Err(e) => r matches Err(x) && x@ == StoreErrorView::Core(e@),
            Ok(_) => r matches Ok(v) && v@ == object_history(store@, object_id@),
        },
{
    get_object_history(store, object_id, parsed)
}

} // verus!
