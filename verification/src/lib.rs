//! Verified core of an animated star-field renderer: mesh topology, buffer
//! layouts, surface configuration, the per-frame policy and frame statistics.

pub mod buffer;
pub mod error;
pub mod geometry;
pub mod instance;
pub mod layout;
pub mod platform;
pub mod state;
pub mod stats;
pub mod uniform;
pub mod vertex;
