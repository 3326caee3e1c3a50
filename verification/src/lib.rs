//! Query building and result decoding for the soaricarus media store.
//!
//! Each repository operation is split in two verified halves: a function that
//! builds the [`statement::Statement`] to send (its SQL text, the values bound
//! to its placeholders, and whether one row is expected back), and a function
//! that turns what the database answered into the operation's result.
//! Running the statement against a connection pool is left to the caller.

pub mod ext;
pub mod statement;
pub mod error;
pub mod db;
pub mod repo;
pub mod util;
