//! Bounded-memory rolling history for simulated moving sensors.
//!
//! The library has two halves. `ring` and `store` form the ingestion core: a
//! generic fixed-capacity circular buffer with overwrite-oldest eviction, and
//! a keyed map of such buffers, one per sensor. `motion` is the producer-side
//! model: a bounded random walk on a rectangular field with reflective (or
//! plain clamping) boundaries, in fixed-point milli-unit coordinates.

mod host;
pub mod ingest;
pub mod motion;
pub mod ring;
pub mod store;
