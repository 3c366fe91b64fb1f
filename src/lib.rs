//! Synchronization engine for a catalog of tracked artists, albums and tracks.
//!
//! The modules hold the decisions of the engine as verified functions over
//! plain values; the surrounding program performs the network and store work.

pub mod artists;
pub mod catalog;
pub mod discovery;
pub mod idset;
pub mod ingest;
pub mod orchestrator;
pub mod payload;
pub mod readiness;
pub mod report;
pub mod uri;
