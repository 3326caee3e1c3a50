//! The upload queues: cover art waiting to be linked to a queued song, and
//! where a queued song's file is stored.

pub mod coverart;
pub mod data;
