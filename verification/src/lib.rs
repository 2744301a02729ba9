//! Local orchestration layer of a multi-device photo library: a
//! deterministic reducer for the library configuration, a batched upsert
//! pipeline with per-item attachment admission, a sync-status projection
//! over the replicated store's telemetry, typed store commands with their
//! observable semantics, presence snapshots, and the image-derived photo
//! identity. Replication itself is the store's job; this crate states and
//! proves the local reconciliation logic around it.

pub mod admission;
pub mod batch;
pub mod commands;
pub mod env;
pub mod faces;
pub mod images;
pub mod paths;
pub mod pipeline;
pub mod presence;
pub mod reducer;
pub mod store_model;
pub mod sync_status;
pub mod text;
pub mod types;
