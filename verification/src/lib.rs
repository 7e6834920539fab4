//! Structured per-request logging for a GraphQL execution pipeline.
//!
//! The crate models the decisions of a logging middleware: a per-request
//! context record with a random correlation id, detection of introspection
//! (`__schema`) queries, and the exact log lines emitted after validation,
//! parsing and execution.  The hosting framework's plumbing (lifecycle hook
//! registration, the request data bag, the log sink) stays outside; the
//! functions here take plain values and say precisely which lines are owed.

pub mod context;
pub mod document;
pub mod hooks;
pub mod laws;
pub mod lines;
