//! Verified core of a GPU voxel face-rendering pipeline.
//!
//! Compact per-face descriptors are packed on the CPU, grouped by cube
//! direction, and concatenated with a prefix-offset table so that a GPU
//! compute stage can expand them into vertices. This crate holds the
//! verified logic: the packed descriptor codec, the directional face
//! store with its visibility mask, the lazily rebuilt binding contents,
//! and the per-frame dispatch decisions. The unverified shell around it
//! performs the actual device calls.

pub mod bytes;
pub mod cache;
pub mod direction;
pub mod face;
pub mod frame;
pub mod store;
