//! Settings of the database connection pool.

pub mod connection_settings;
