//! A host adapter for a replicated ordered-sequence (list CRDT) engine.
//!
//! The engine itself is an outside collaborator; this crate is the shim
//! that marshals host values to and from the engine's value variant,
//! classifies every failure, serializes vector clocks and operation
//! batches as JSON at the boundary, and coalesces hook firings through an
//! aggregation buffer.

pub mod engine;
pub mod errors;
pub mod list;
pub mod marshal;
pub mod values;
