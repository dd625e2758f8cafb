//! Derive pipeline for a tracing garbage collector.
//!
//! Given a model of a type declaration and its annotations, the pipeline
//! validates the per-type and per-field flags and synthesizes the plan for
//! the collector's traversal and finalization routines: which marker
//! implementations to emit and, for every field in declaration order, which
//! instrumentation fragments. On the first violation it yields a single
//! located diagnostic instead.

pub mod attrs;
pub mod decl;
pub mod err;
pub mod finalize_derive;
pub mod scan_derive;
