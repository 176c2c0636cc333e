//! Cross-platform SGFX graphics contracts and intermediate representation.
//!
//! Backend-neutral resource descriptions and command buffers, together with the
//! parts of command lowering that are plain computation. Every function states
//! in its contract what it returns, and Verus proves it.

/// Contracts implemented by SGFX command execution backends.
pub mod backend;

/// Plain values exchanged between command lowering and device transports.
pub mod driver;

/// Backend-neutral logical graphics intermediate representation.
pub mod ir;

/// Ordered lowering of portable logical IR to plain device work.
pub mod ir_execute;

/// Requests for the room that growing lists need.
pub mod memory;

/// Command streams for a Virgl device.
pub mod virgl;

/// Decisions of the WGPU execution backend.
pub mod wgpu_backend;
