//! Decisions of a batch importer of recorded-match files: reading a match
//! identifier from a filename, resolving match metadata from a store row or
//! the operator's overrides, composing the submission, and choosing where
//! each file is filed afterwards.

pub mod error;
pub mod filename;
pub mod laws;
pub mod resolve;
pub mod route;
pub mod submit;
