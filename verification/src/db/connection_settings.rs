use vstd::prelude::*;

verus! {

/// The most connections the pool keeps open.
pub const MAXCONN: u32 = 10;

} // verus!
