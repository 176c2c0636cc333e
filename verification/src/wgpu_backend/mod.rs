//! Decisions of the WGPU execution backend.
//!
//! The backend resolves the resources of a table to GPU objects, generates the
//! shaders of fixed pipelines and orders the work of a command buffer. GPU
//! objects are known here by their places in caches.

use vstd::prelude::*;

pub mod creating;
pub mod declaring;
pub mod format;
pub mod passes;
pub mod properties;
pub mod queue;
pub mod refusing;
pub mod resources;
pub mod shader;
pub mod shading;

use crate::ir::types::Error as IrError;

verus! {

/// A valid IR feature that the backend does not cover.
#[derive(Debug, Clone, Copy, PartialEq, Eq, Structural)]
pub enum UnsupportedFeature {
    /// An upload after other work.
    LateUpload,
    /// A pipeline, sampler or attachment combination.
    Pipeline,
    /// A texture format or shape.
    TextureFormat,
    /// A depth clear of part of an attachment.
    PartialDepthClear,
    /// A surface format.
    SurfaceFormat,
}

/// Failure of the backend.
#[derive(Debug, Clone, Copy, PartialEq, Eq, Structural)]
pub enum Error {
    /// The command buffer or a resource violates the logical rules.
    InvalidIr(IrError),
    /// The resources belong to another table.
    ResourceTableMismatch,
    /// A presented texture has no image.
    ImageNotMapped,
    /// An image already stands for another texture.
    ImageAlreadyMapped,
    /// The backend does not cover a feature.
    Unsupported(UnsupportedFeature),
    /// The backend state does not fit the request.
    InvalidState,
}

impl vstd::std_specs::convert::FromSpecImpl<IrError> for Error {
    open spec fn obeys_from_spec() -> bool {
        true
    }

    open spec fn from_spec(error: IrError) -> Self {
        Error::InvalidIr(error)
    }
}

impl From<IrError> for Error {
    fn from(error: IrError) -> (r: Self) {
        Error::InvalidIr(error)
    }
}

} // verus!
