//! Export of an in-memory, per-line code-coverage dataset to a hosted
//! coverage-reporting service.
//!
//! The pipeline has three verified stages: resolution of the invoking
//! continuous-integration environment into commit metadata, translation of
//! the coverage dataset into per-file line-hit maps, and planning of the
//! submission (identity, target endpoint, and result mapping). The one
//! network call itself is left to the caller, which hands its outcome back
//! to [`report::complete_export`].

pub mod ci;
pub mod config;
pub mod coverage;
pub mod environment;
pub mod report;
pub mod wire;
