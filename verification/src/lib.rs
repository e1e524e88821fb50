//! Verified core of a tool that scans directory trees for version-control
//! working copies and reports which of them have pending changes.
//!
//! The library holds the decision logic: marker-based classification of a
//! directory (`vcs`), the work-queue/in-flight-counter scan engine with its
//! completion protocol and result aggregation (`engine`), and a model of a
//! directory tree together with a full scan driver proved against it
//! (`scan`). Filesystem listing, subprocess execution and printing are left
//! to an unverified shell that feeds plain values to these functions.

pub mod engine;
pub mod scan;
pub mod vcs;
