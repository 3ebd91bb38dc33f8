//! Frame-orchestration core for a shader-driven renderer.
//!
//! The crate owns the decision logic of a real-time compute renderer: the
//! pass graph built from a user configuration, the compiled-program store
//! with hot-reload, the per-frame slot rotation that bounds how much GPU
//! work may be in flight, and the reference-counted ownership chain that
//! keeps device-level resources alive until everything built from them is
//! gone. Device submission itself (and window, audio and compiler plumbing)
//! lives outside, driven by the actions and recorded command lists that
//! these types produce.

pub mod application;
pub mod graph;
pub mod ownership;
pub mod pipeliner;
pub mod render;
pub mod store;
