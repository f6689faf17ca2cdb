//! Lifecycle coordination for a compositor client that attaches a GPU-backed
//! canvas to each of its surfaces.
//!
//! The crate models the decisions such a client makes — capability binding,
//! window and layer-surface bookkeeping, GPU context negotiation with its
//! API-profile fallback, canvas invalidation on resize, and event routing —
//! as verified functions over plain values. The unverifiable edges (the
//! display-server transport and the GPU driver) stay outside: callers perform
//! those calls and feed their outcomes back in as data.

pub mod capabilities;
pub mod geometry;
pub mod gpu;
pub mod render;
pub mod shell;

pub use geometry::effective_size;
pub use geometry::Size;
