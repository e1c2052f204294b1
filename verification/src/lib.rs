//! A verified model of a clear-color renderer's control core.
//!
//! The library holds the logic of a single-window renderer that clears a
//! GPU surface to a color derived from the pointer position: the clear-color
//! arithmetic, the surface configuration and its resize invariant, the
//! per-frame lifecycle state machine with its error taxonomy, and the event
//! loop's routing and recovery policy. Window creation, event delivery and
//! the GPU backend itself are outside collaborators; a host harness performs
//! those calls and feeds their outcomes back to this library as plain values.

pub mod color;
pub mod context;
pub mod controller;
pub mod renderer;
