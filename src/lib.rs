//! Checks the code snippets of a book against the output files stored beside them.
//!
//! The library decides; the caller performs the file-system and process work and
//! hands the results back as plain values.

pub mod conf;
pub mod error;
pub mod names;
pub mod directive;
pub mod check;
pub mod walk;
