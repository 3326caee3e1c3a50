//! Outside types that the library carries through without looking inside.

use vstd::prelude::*;

verus! {

/// `uuid::Uuid`: record identifiers, handed from arguments and rows to
/// results unchanged.
#[verifier::external_type_specification]
#[verifier::external_body]
pub struct ExUuid(uuid::Uuid);

/// `sqlx::Error`: an error of the database driver, passed on unchanged.
#[verifier::external_type_specification]
#[verifier::external_body]
pub struct ExSqlxError(sqlx::Error);

} // verus!
