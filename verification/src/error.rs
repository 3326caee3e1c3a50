//! The error that repository operations report.

use vstd::prelude::*;

verus! {

/// Why a repository operation failed.
#[derive(Debug)]
pub enum RepoError {
    /// The operation found no row to read or to change, or the database
    /// refused it; the driver's own error is not kept.
    RowNotFound,
    /// An error of the database driver, passed on as it came.
    Driver(sqlx::Error),
}

} // verus!
