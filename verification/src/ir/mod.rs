//! Validated, backend-neutral logical graphics intermediate representation.
//!
//! Resources are descriptors held by a `ResourceTable`. Commands recorded by a
//! `CommandEncoder` borrow both that table and upload data, so a backend can
//! lower the finished `CommandBuffer` without accepting forged resource
//! identities.

pub mod access;
pub mod bindings;
pub mod bounds;
pub mod command;
pub mod compute_pass_encoder;
pub mod conflicts;
pub mod copies;
pub mod describing;
pub mod float;
pub mod groups;
pub mod growth;
pub mod meaning;
pub mod modules;
pub mod numbers;
pub mod ordering;
pub mod owned;
pub mod permits;
pub mod pipeline;
pub mod programmable;
pub mod recording;
pub mod refusals;
pub mod render_pass;
pub mod render_pass_encoder;
pub mod render_target;
pub mod resource;
pub mod rounding;
pub mod shader;
pub mod sort;
pub mod suiting;
pub mod table;
pub mod texture_view;
pub mod types;
pub mod viewport;


pub use access::{Access, ResourcePart};
pub use command::{Command, CommandBuffer, CommandEncoder, MAX_COMMANDS};
pub use compute_pass_encoder::{ComputePassEncoder, MAX_WORKGROUPS};
pub use owned::{
    OwnedColorAttachment, OwnedCommand, OwnedCommandBuffer, OwnedDepthAttachment,
    OwnedRenderPassDesc, OwnedResourceBarrier,
};
pub use pipeline::{
    BlendComponent, BlendFactor, BlendOp, BlendState, CompareFunction, CullMode, DepthState,
    DrawUniforms, FragmentProgram, FrontFace, IndexFormat, PrimitiveTopology, RasterState,
    RenderPipelineDesc, TextureSampleMode, VertexAttribute, VertexBufferLayout, VertexFormat,
    MAX_VERTEX_ATTRIBUTES, MAX_VERTEX_BUFFERS,
};
pub use programmable::{
    BindGroupDesc, BindGroupEntry, BindGroupLayoutDesc, BindGroupLayoutEntry, BindingResource,
    BindingType, BufferAccess, ComputePipelineDesc, PipelineLayoutDesc,
    ProgrammableRenderPipelineDesc, PushConstantRange, ResourceBarrier, ShaderEntryPoint,
    StorageTextureAccess, TextureAccess, MAX_BINDINGS_PER_GROUP, MAX_BIND_GROUPS,
    MAX_PUSH_CONSTANT_BYTES,
};
pub use render_pass::{
    ColorAttachment, DepthAttachment, DepthLoadOp, LoadOp, RenderPassDesc, StoreOp,
};
pub use render_pass_encoder::RenderPassEncoder;
pub use render_target::{ColorTargetState, ColorWriteMask, MAX_COLOR_ATTACHMENTS};
pub use resource::{
    AddressMode, BufferDesc, BufferUsage, FilterMode, SamplerDesc, TextureDesc, TextureFormat,
    TextureUsage, TextureWrite,
};
pub use shader::{
    ShaderModuleDesc, ShaderSource, ShaderStage, ShaderStages, MAX_SPIRV_WORDS, MAX_WGSL_BYTES,
};
pub use table::{
    BindGroupId, BindGroupRef, BufferId, BufferRef, ComputePipelineId, ComputePipelineRef,
    ProgrammableRenderPipelineId, ProgrammableRenderPipelineRef, RenderPipelineId,
    RenderPipelineRef, ResourceTable, SamplerId, SamplerRef, ShaderModuleId, ShaderModuleRef,
    TextureId, TextureRef, MAX_BIND_GROUP_DEFINITIONS, MAX_BUFFERS, MAX_COMPUTE_PIPELINES,
    MAX_PROGRAMMABLE_PIPELINES, MAX_RENDER_PIPELINES, MAX_SAMPLERS, MAX_SHADER_MODULES,
    MAX_TEXTURES,
};
pub use texture_view::{TextureViewDesc, TextureViewDimension};
pub use types::{Color, Error, Extent2D, PixelRect, Transform};
pub use viewport::Viewport;
