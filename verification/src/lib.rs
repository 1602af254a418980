//! Verified boundary layer between a deterministic world simulation and a
//! foreign game-engine host.
//!
//! The crate covers the parts of the boundary that carry invariants: the
//! normal form of terrain diffs, the registry that tracks every buffer handed
//! to the host, the construction and validated release of those buffers, and
//! the checks applied to configuration and tick arguments before any state is
//! touched.

pub mod buffer;
pub mod codes;
pub mod config;
pub mod coord;
pub mod diff;
pub mod majestik;
pub mod ownership;
pub mod registry;
pub mod surface;
pub mod timing;
pub mod toolchain;
