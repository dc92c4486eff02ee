//! Toolchain driver and sandboxed execution host for a small language that
//! compiles to a portable binary module format.
//!
//! The pipeline driver sequences four external compilation stages and
//! aggregates their diagnostics into one artifact-or-failure verdict; the
//! artifact serializer persists a module as bytes or renders it as text; the
//! execution host runs a module inside an isolated runtime; the document
//! session store tracks open editor documents and their diagnostics.

pub mod artifact;
pub mod config;
pub mod host;
pub mod diag;
pub mod pipeline;
pub mod session;
