//! Settings read from the environment.

pub mod maze;
