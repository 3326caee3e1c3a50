//! Repository operations on the `coverart`, `coverartQueue` and
//! `songQueueData` tables.

pub mod coverart;
pub mod queue;

use vstd::prelude::*;

verus! {

/// The `id` column that an `INSERT ... RETURNING id` gives back, as the
/// driver decoded it.
#[derive(Debug)]
pub struct ReturnedId {
    pub id: Result<uuid::Uuid, sqlx::Error>,
}

} // verus!
