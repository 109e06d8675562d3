//! Bootstrap backfill engine for a multi-device, CRDT-based sync layer.
//!
//! Before a device can participate in sync, every row that already exists in
//! its local store must be re-expressed as a deterministic sequence of CRDT
//! "create" operations. This crate holds that conversion — the backfill
//! engine — as verified code: cursor pagination over ordered tables, one
//! entry-set converter per synchronizable table, and an orchestrator that
//! wipes the local device's operation log and regenerates it in two
//! dependency-ordered waves. Alongside it live the small utility types the
//! sync layer leans on: a three-state optional, a secret wrapper, and the
//! per-location metadata ledger.
//!
//! All storage and file I/O stays outside this crate; the library works on
//! plain in-memory snapshots and hands back plain values.

pub mod backfill;
pub mod clock;
pub mod convert;
pub mod laws;
pub mod location_metadata;
pub mod maybe_undefined;
pub mod ops;
pub mod paginate;
pub mod protected;
pub mod rows;
