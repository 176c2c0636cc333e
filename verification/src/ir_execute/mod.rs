//! Ordered lowering of portable logical IR to plain device work.
//!
//! A command buffer becomes an `ExecutionPlan`: the uploads, copies and decoded
//! render passes that a device performs in order, and the buffer contents to
//! keep once all of them succeeded.

use vstd::prelude::*;

pub mod bindings;
pub mod buffers;
pub mod decode;
pub mod describing;
pub mod draw;
pub mod plan;
pub mod planning;
pub mod properties;
pub mod resources;
pub mod state;
pub mod upload;
pub mod vertices;

pub use buffers::{BufferShadowUpdate, PendingBuffers};
pub use plan::{ExecutionEvent, ExecutionPass, ExecutionPlan, ExecutionTarget};
pub use resources::{Image, ImageMapping, IrResources};

use crate::driver::HandleError;
use crate::ir::types::Error;

verus! {

/// A valid IR feature that the lowering does not cover.
#[derive(Debug, Clone, Copy, PartialEq, Eq, Structural)]
pub enum UnsupportedIrFeature {
    /// Command order.
    CommandSequence,
    /// Several buffer uploads.
    MultipleBufferUploads,
    /// Several render passes.
    MultipleRenderPasses,
    /// Several draws.
    MultipleDraws,
    /// Texture upload.
    TextureUpload,
    /// Texture copy.
    TextureCopy,
    /// Indexed drawing.
    IndexedDrawing,
    /// Texture sampling.
    TextureSampling,
    /// Sampler state.
    Sampler,
    /// Scissor rectangle.
    Scissor,
    /// Texture format.
    TargetFormat,
    /// Texture usage or shape.
    TargetUsage,
    /// Render area.
    RenderArea,
    /// Attachment load operation.
    LoadOperation,
    /// Attachment store operation.
    StoreOperation,
    /// Clear color.
    ClearColor,
    /// Color format of a pipeline.
    PipelineTargetFormat,
    /// Primitive topology.
    PrimitiveTopology,
    /// Vertex layout.
    VertexLayout,
    /// Fragment program.
    FragmentProgram,
    /// Blend state.
    BlendState,
    /// Vertex buffer.
    VertexBuffer,
    /// Draw uniforms.
    DrawUniforms,
    /// Size of the encoded commands.
    CommandStream,
}

/// Failure to lower or submit a command buffer.
#[derive(Debug, Clone, Copy, PartialEq, Eq, Structural)]
pub enum IrSubmitError {
    /// The command buffer or a resource violates the logical rules.
    InvalidIr(Error),
    /// The resources belong to another table.
    ResourceTableMismatch,
    /// The resources belong to another device context.
    ContextMismatch,
    /// An image and its logical texture differ in size.
    TargetExtentMismatch,
    /// A presented texture has no image.
    ImageNotMapped,
    /// A logical texture already has an image.
    TextureAlreadyMapped,
    /// An image already stands for a logical texture.
    ImageAlreadyMapped,
    /// The lowering does not cover a feature.
    Unsupported(UnsupportedIrFeature),
    /// Vertex, index or pixel data is missing or malformed.
    InvalidVertexData,
    /// Host memory could not be reserved.
    OutOfMemory,
    /// The device transport failed.
    Backend(HandleError),
}

impl vstd::std_specs::convert::FromSpecImpl<Error> for IrSubmitError {
    open spec fn obeys_from_spec() -> bool {
        true
    }

    open spec fn from_spec(error: Error) -> Self {
        IrSubmitError::InvalidIr(error)
    }
}

impl From<Error> for IrSubmitError {
    fn from(error: Error) -> (r: Self) {
        IrSubmitError::InvalidIr(error)
    }
}

impl vstd::std_specs::convert::FromSpecImpl<HandleError> for IrSubmitError {
    open spec fn obeys_from_spec() -> bool {
        true
    }

    open spec fn from_spec(error: HandleError) -> Self {
        IrSubmitError::Backend(error)
    }
}

impl From<HandleError> for IrSubmitError {
    fn from(error: HandleError) -> (r: Self) {
        IrSubmitError::Backend(error)
    }
}

/// A value that a feature of the IR denies.
pub open spec fn unsupported<T>(feature: UnsupportedIrFeature) -> Result<T, IrSubmitError> {
    Err(IrSubmitError::Unsupported(feature))
}

/// A value that a violated logical rule denies.
pub open spec fn invalid<T>(error: Error) -> Result<T, IrSubmitError> {
    Err(IrSubmitError::InvalidIr(error))
}

} // verus!
