//! Synchronization strategy for multi-sensor (stereo camera) frame
//! acquisition: given two independently clocked data streams, decide on each
//! acquisition cycle whether either stream's most recent buffer is stale
//! relative to the other, and selectively re-poll only the lagging stream
//! before returning a matched pair.

pub mod camera;
pub mod classify;
pub mod stream;
