//! Command streams for a Virgl device.
//!
//! The state of contexts, queues, images and textures is kept in plain values.
//! Submissions check it and encode the words that a device executes.

pub mod accepting;
pub mod composing;
pub mod composition;
pub mod details;
pub mod device;
pub mod draw;
pub mod drawing;
pub mod encoding;
pub mod execute;
pub mod meaning;
pub mod pass;
pub mod preparing;
pub mod programs;
pub mod protocol;
pub mod registering;
pub mod resources;
pub mod shaders;
pub mod state;
pub mod streams;
pub mod target;
pub mod triangles;
