//! Verified state-reconstruction engine for a live telemetry feed.
//!
//! The crate rebuilds a coherent battlespace snapshot from a stream of delta
//! records: global session properties, per-object state with a bounded track
//! window, derived kinematic estimates, and the bookkeeping that a resilient
//! ingestion/publication task pair needs. Network I/O, the wire decoder and
//! all floating-point evaluation live outside the library, at the display
//! boundary; the engine itself works on plain values and is verified.

pub mod engine;
pub mod laws;
pub mod model;
pub mod object;
pub mod object_map;
pub mod records;
pub mod tasks;
