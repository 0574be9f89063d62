//! A catalog of PDF sets: pairs of an original and a translated document kept,
//! with a small metadata record, in one directory per set under a base directory.
//!
//! The library decides and computes; it performs no file operation itself. Each
//! operation names the file operations its host has to perform and turns what
//! the host reports back into the operation's result.

pub mod creation;
pub mod deletion;
pub mod effects;
pub mod identity;
pub mod laws;
pub mod listing;
pub mod model;
pub mod paths;
