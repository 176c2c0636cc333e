//! Ordering of the GPU work of a command buffer.

use crate::ir::command::{Command, CommandBuffer, CommandView};
use crate::ir::pipeline::{DrawUniforms, IndexFormat, TextureSampleMode};
use crate::ir::render_pass::{
    DepthAttachment, DepthLoadOp, LoadOp, RenderPassDesc, RenderPassView, StoreOp,
};
use crate::ir::resource::{TextureFormat, TextureWriteView};
use crate::ir::table::{RenderPipelineRef, ResourceTable, TableView};
use crate::ir::types::{Color, PixelRect};
use crate::wgpu_backend::format::{
    color_load_op, depth_load_op, render_area_is_full, ColorLoad, ColorLoadView, DepthLoad,
    SurfaceFormat,
};
use crate::wgpu_backend::resources::{
    CacheView, Interruption, PipelineUse, Resources, TexturePlace, TextureUse,
};
use crate::wgpu_backend::{Error, UnsupportedFeature};
use vstd::prelude::*;

verus! {

/// Everything bound for one draw.
#[derive(Debug, Clone, Copy, PartialEq, Eq)]
pub struct DrawBinding {
    /// Pipeline.
    pub pipeline: usize,
    /// Transform and color.
    pub uniforms: DrawUniforms,
    /// Sampled texture and its sampler.
    pub sampled: Option<(TexturePlace, usize)>,
    /// Vertex buffer.
    pub vertex_buffer: usize,
    /// First byte of the vertex buffer.
    pub vertex_offset: u64,
}

/// One operation of a pass.
#[derive(Debug, Clone, Copy, PartialEq, Eq)]
pub enum PassOperation {
    /// Use a pipeline.
    SetPipeline(usize),
    /// Restrict drawing to a rectangle.
    SetScissor(PixelRect),
    /// Draw a range of vertices.
    Draw {
        /// Bound state.
        binding: DrawBinding,
        /// First vertex.
        first: u32,
        /// Vertex behind the last.
        end: u32,
    },
    /// Draw a range of indices.
    DrawIndexed {
        /// Bound state.
        binding: DrawBinding,
        /// Index buffer.
        index_buffer: usize,
        /// First byte of the index buffer.
        index_offset: u64,
        /// Index encoding.
        index_format: IndexFormat,
        /// First index.
        first: u32,
        /// Index behind the last.
        end: u32,
        /// Signed vertex offset.
        base_vertex: i32,
    },
}

/// What is bound in a pass, and its operations so far.
#[derive(Debug)]
pub struct PassState {
    /// Bound pipeline.
    pub pipeline: Option<(RenderPipelineRef, PipelineUse)>,
    /// Bound vertex buffer and its first byte.
    pub vertex_buffer: Option<(usize, u64)>,
    /// Bound index buffer, its first byte and its encoding.
    pub index_buffer: Option<(usize, u64, IndexFormat)>,
    /// Bound texture.
    pub texture: Option<TextureUse>,
    /// Bound sampler.
    pub sampler: Option<usize>,
    /// Bound uniforms.
    pub uniforms: Option<DrawUniforms>,
    /// Operations so far.
    pub operations: Vec<PassOperation>,
}

/// The contents of a pass state.
#[verifier::ext_equal]
pub struct PassStateView {
    pub pipeline: Option<(RenderPipelineRef, PipelineUse)>,
    pub vertex_buffer: Option<(usize, u64)>,
    pub index_buffer: Option<(usize, u64, IndexFormat)>,
    pub texture: Option<TextureUse>,
    pub sampler: Option<usize>,
    pub uniforms: Option<DrawUniforms>,
    pub operations: Seq<PassOperation>,
}

impl View for PassState {
    type V = PassStateView;

    open spec fn view(&self) -> PassStateView {
        PassStateView {
            pipeline: self.pipeline,
            vertex_buffer: self.vertex_buffer,
            index_buffer: self.index_buffer,
            texture: self.texture,
            sampler: self.sampler,
            uniforms: self.uniforms,
            operations: self.operations@,
        }
    }
}

/// What a pass renders into.
#[derive(Debug, Clone, Copy, PartialEq, Eq)]
pub struct PassFrame {
    /// Color attachment.
    pub target: TextureUse,
    /// Depth attachment.
    pub depth: Option<TextureUse>,
    /// Render area.
    pub area: PixelRect,
}

/// A state that does not fit a request.
pub open spec fn invalid_state<T>() -> Result<T, Interruption> {
    Err(Interruption::Failed(Error::InvalidState))
}

impl PassStateView {
    /// Nothing bound.
    pub open spec fn initial() -> Self {
        PassStateView {
            pipeline: None,
            vertex_buffer: None,
            index_buffer: None,
            texture: None,
            sampler: None,
            uniforms: None,
            operations: Seq::empty(),
        }
    }

    /// The state with one more operation.
    pub open spec fn with_operation(self, operation: PassOperation) -> Self {
        PassStateView { operations: self.operations.push(operation), ..self }
    }

    /// Use a pipeline for the attachment and the bound texture.
    pub open spec fn use_pipeline(
        self,
        cache: CacheView,
        table: TableView,
        frame: PassFrame,
        reference: RenderPipelineRef,
    ) -> Result<Self, Interruption> {
        let sample_format = match self.texture {
            Some(texture) => Some(texture.format),
            None => None,
        };
        match cache.pipeline(table, reference, frame.target.raw_format, sample_format) {
            Err(interruption) => Err(interruption),
            Ok(pipeline) => if pipeline.has_depth != (frame.depth is Some) {
                invalid_state()
            } else {
                Ok(
                    (PassStateView { pipeline: Some((reference, pipeline)), ..self }).with_operation(
                        PassOperation::SetPipeline(pipeline.place),
                    ),
                )
            },
        }
    }

    /// Bind a texture. A bound pipeline that samples is chosen anew for it.
    pub open spec fn use_texture(
        self,
        cache: CacheView,
        table: TableView,
        frame: PassFrame,
        texture: TextureUse,
    ) -> Result<Self, Interruption> {
        let next = PassStateView { texture: Some(texture), ..self };
        match self.pipeline {
            Some((reference, pipeline)) => if pipeline.requires_texture {
                next.use_pipeline(cache, table, frame, reference)
            } else {
                Ok(next)
            },
            None => Ok(next),
        }
    }

    /// Everything bound for a draw, or what is missing.
    pub open spec fn binding(self) -> Result<DrawBinding, Error> {
        if self.pipeline is None || self.vertex_buffer is None || self.uniforms is None {
            Err(Error::InvalidState)
        } else {
            let pipeline = (self.pipeline->0).1;
            let binding = DrawBinding {
                pipeline: pipeline.place,
                uniforms: self.uniforms->0,
                sampled: None,
                vertex_buffer: (self.vertex_buffer->0).0,
                vertex_offset: (self.vertex_buffer->0).1,
            };
            if !pipeline.requires_texture {
                Ok(binding)
            } else if self.texture is None || self.sampler is None {
                Err(Error::InvalidState)
            } else if self.texture->0.format == TextureFormat::R8Unorm && pipeline.sample_mode
                != Some(TextureSampleMode::AlphaMask) {
                Err(Error::Unsupported(UnsupportedFeature::TextureFormat))
            } else {
                Ok(
                    DrawBinding {
                        sampled: Some((self.texture->0.place, self.sampler->0)),
                        ..binding
                    },
                )
            }
        }
    }

    /// Draw a range of vertices.
    pub open spec fn draw(self, first: u32, count: u32) -> Result<Self, Interruption> {
        match self.binding() {
            Err(error) => Err(Interruption::Failed(error)),
            Ok(binding) => if first + count > u32::MAX {
                invalid_state()
            } else {
                Ok(self.with_operation(PassOperation::Draw { binding, first, end: (first + count) as u32 }))
            },
        }
    }

    /// Draw a range of indices.
    pub open spec fn draw_indexed(self, first: u32, count: u32, base_vertex: i32) -> Result<
        Self,
        Interruption,
    > {
        if self.pipeline is None || self.vertex_buffer is None || self.index_buffer is None {
            invalid_state()
        } else {
            match self.binding() {
                Err(error) => Err(Interruption::Failed(error)),
                Ok(binding) => if first + count > u32::MAX {
                    invalid_state()
                } else {
                    Ok(
                        self.with_operation(
                            PassOperation::DrawIndexed {
                                binding,
                                index_buffer: (self.index_buffer->0).0,
                                index_offset: (self.index_buffer->0).1,
                                index_format: (self.index_buffer->0).2,
                                first,
                                end: (first + count) as u32,
                                base_vertex,
                            },
                        ),
                    )
                },
            }
        }
    }

    /// The state after a command of the pass.
    pub open spec fn step(
        self,
        cache: CacheView,
        table: TableView,
        frame: PassFrame,
        command: CommandView,
    ) -> Result<Self, Interruption> {
        match command {
            CommandView::SetPipeline(reference) => self.use_pipeline(
                cache,
                table,
                frame,
                reference,
            ),
            CommandView::SetVertexBuffer { buffer, offset } => match cache.buffer(table, buffer) {
                Err(interruption) => Err(interruption),
                Ok(place) => Ok(PassStateView { vertex_buffer: Some((place, offset)), ..self }),
            },
            CommandView::SetIndexBuffer { buffer, offset, format } => match cache.buffer(
                table,
                buffer,
            ) {
                Err(interruption) => Err(interruption),
                Ok(place) => Ok(
                    PassStateView { index_buffer: Some((place, offset, format)), ..self },
                ),
            },
            CommandView::SetTexture(reference) => match cache.texture(table, reference) {
                Err(interruption) => Err(interruption),
                Ok(texture) => self.use_texture(cache, table, frame, texture),
            },
            CommandView::SetSampler(reference) => match cache.sampler(table, reference) {
                Err(interruption) => Err(interruption),
                Ok(place) => Ok(PassStateView { sampler: Some(place), ..self }),
            },
            CommandView::SetUniforms(uniforms) => Ok(
                PassStateView { uniforms: Some(uniforms), ..self },
            ),
            CommandView::SetScissor(scissor) => Ok(
                self.with_operation(
                    PassOperation::SetScissor(
                        match scissor {
                            Some(rectangle) => rectangle,
                            None => frame.area,
                        },
                    ),
                ),
            ),
            CommandView::Draw { vertex_count, first_vertex } => self.draw(
                first_vertex,
                vertex_count,
            ),
            CommandView::DrawIndexed { index_count, first_index, base_vertex } =>
                self.draw_indexed(first_index, index_count, base_vertex),
            _ => invalid_state(),
        }
    }

    /// The state after the first commands of the pass.
    pub open spec fn after(
        cache: CacheView,
        table: TableView,
        frame: PassFrame,
        commands: Seq<CommandView>,
    ) -> Result<Self, Interruption>
        decreases commands.len(),
    {
        if commands.len() == 0 {
            Ok(PassStateView::initial())
        } else {
            match PassStateView::after(cache, table, frame, commands.drop_last()) {
                Err(interruption) => Err(interruption),
                Ok(state) => state.step(cache, table, frame, commands.last()),
            }
        }
    }
}

/// One render pass ready for the GPU.
#[derive(Debug)]
pub struct PassPlan {
    /// Attachments and area.
    pub frame: PassFrame,
    /// Initial contents of the color attachment.
    pub color_load: ColorLoad,
    /// Final contents of the color attachment.
    pub color_store: StoreOp,
    /// Initial and final contents of the depth attachment.
    pub depth_operations: Option<(DepthLoad, StoreOp)>,
    /// Pipeline and color that clear the render area first.
    pub partial_clear: Option<(usize, Color)>,
    /// Operations in order, within the render area at first.
    pub operations: Vec<PassOperation>,
}

/// The contents of a pass plan.
#[verifier::ext_equal]
pub struct PassPlanView {
    pub frame: PassFrame,
    pub color_load: ColorLoadView,
    pub color_store: StoreOp,
    pub depth_operations: Option<(DepthLoad, StoreOp)>,
    pub partial_clear: Option<(usize, Color)>,
    pub operations: Seq<PassOperation>,
}

impl View for PassPlan {
    type V = PassPlanView;

    open spec fn view(&self) -> PassPlanView {
        PassPlanView {
            frame: self.frame,
            color_load: self.color_load@,
            color_store: self.color_store,
            depth_operations: self.depth_operations,
            partial_clear: self.partial_clear,
            operations: self.operations@,
        }
    }
}

/// The depth operations of a pass over a whole or a partial area, or why there
/// are none. Part of a depth attachment cannot be cleared.
pub open spec fn depth_operations(depth: Option<DepthAttachment>, full: bool) -> Result<
    Option<(DepthLoad, StoreOp)>,
    Interruption,
> {
    match depth {
        None => Ok(None),
        Some(attachment) => if full {
            Ok(
                Some(
                    (
                        crate::wgpu_backend::format::spec_depth_load_op(attachment.load),
                        attachment.store,
                    ),
                ),
            )
        } else if attachment.load is Clear {
            Err(Interruption::Failed(Error::Unsupported(UnsupportedFeature::PartialDepthClear)))
        } else {
            Ok(Some((DepthLoad::Load, attachment.store)))
        },
    }
}

/// The attachments of a pass. Passes have one color attachment and write depth.
pub open spec fn pass_frame(cache: CacheView, table: TableView, desc: RenderPassView) -> Result<
    PassFrame,
    Interruption,
> {
    if desc.colors.len() != 1 || (desc.depth is Some && desc.depth->0.read_only) {
        Err(Interruption::Failed(Error::Unsupported(UnsupportedFeature::Pipeline)))
    } else {
        match cache.texture(table, desc.colors[0].target) {
            Err(interruption) => Err(interruption),
            Ok(target) => match desc.depth {
                None => Ok(PassFrame { target, depth: None, area: desc.area }),
                Some(attachment) => match cache.texture(table, attachment.target) {
                    Err(interruption) => Err(interruption),
                    Ok(depth) => Ok(PassFrame { target, depth: Some(depth), area: desc.area }),
                },
            },
        }
    }
}

/// The color and pipeline that clear a partial render area.
pub open spec fn partial_clear(
    cache: CacheView,
    frame: PassFrame,
    load: LoadOp,
    full: bool,
) -> Result<Option<(usize, Color)>, Interruption> {
    match load {
        LoadOp::Clear(color) => if full {
            Ok(None)
        } else {
            match cache.clear_pipeline(frame.target.raw_format, frame.depth is Some) {
                Err(interruption) => Err(interruption),
                Ok(place) => Ok(Some((place, color))),
            }
        },
        _ => Ok(None),
    }
}

/// The plan of a pass, or why it cannot be planned.
pub open spec fn spec_encode_render_pass(
    cache: CacheView,
    table: TableView,
    desc: RenderPassView,
    commands: Seq<CommandView>,
) -> Result<PassPlanView, Interruption> {
    match pass_frame(cache, table, desc) {
        Err(interruption) => Err(interruption),
        Ok(frame) => {
            let full = crate::wgpu_backend::format::spec_render_area_is_full(
                desc.area,
                frame.target.width,
                frame.target.height,
            );
            match depth_operations(desc.depth, full) {
                Err(interruption) => Err(interruption),
                Ok(depth) => match partial_clear(cache, frame, desc.colors[0].load, full) {
                    Err(interruption) => Err(interruption),
                    Ok(clear) => match PassStateView::after(cache, table, frame, commands) {
                        Err(interruption) => Err(interruption),
                        Ok(state) => Ok(
                            PassPlanView {
                                frame,
                                color_load: if full {
                                    crate::wgpu_backend::format::spec_color_load_op(
                                        desc.colors[0].load,
                                    )
                                } else {
                                    ColorLoadView::Load
                                },
                                color_store: desc.colors[0].store,
                                depth_operations: depth,
                                partial_clear: clear,
                                operations: state.operations,
                            },
                        ),
                    },
                },
            }
        },
    }
}

/// An upload into a buffer.
#[derive(Debug)]
pub struct BufferWrite<'data> {
    /// Written buffer.
    pub buffer: usize,
    /// First written byte.
    pub offset: u64,
    /// Bytes.
    pub data: &'data [u8],
}

/// An upload into a texture.
#[derive(Debug)]
pub struct TextureUpload<'data> {
    /// Written texture.
    pub texture: TexturePlace,
    /// Written region.
    pub destination: PixelRect,
    /// Bytes from one row to the next.
    pub bytes_per_row: u32,
    /// Pixels.
    pub data: &'data [u8],
}

/// One operation of an encoder.
#[derive(Debug)]
pub enum EncoderOperation {
    /// Copy between textures.
    CopyTexture {
        /// Read texture.
        source: TexturePlace,
        /// Read region.
        source_rect: PixelRect,
        /// Written texture.
        destination: TexturePlace,
        /// Written region.
        destination_rect: PixelRect,
    },
    /// Render.
    RenderPass(PassPlan),
}

/// The GPU work of a command buffer: uploads first, then the encoder.
#[derive(Debug)]
pub struct SubmissionPlan<'data> {
    /// Buffer uploads in order.
    pub buffer_writes: Vec<BufferWrite<'data>>,
    /// Texture uploads in order.
    pub texture_writes: Vec<TextureUpload<'data>>,
    /// Encoder operations in order.
    pub operations: Vec<EncoderOperation>,
}

#[verifier::ext_equal]
pub struct BufferWriteView {
    pub buffer: usize,
    pub offset: u64,
    pub data: Seq<u8>,
}

#[verifier::ext_equal]
pub struct TextureUploadView {
    pub texture: TexturePlace,
    pub destination: PixelRect,
    pub bytes_per_row: u32,
    pub data: Seq<u8>,
}

#[verifier::ext_equal]
pub enum EncoderOperationView {
    CopyTexture {
        source: TexturePlace,
        source_rect: PixelRect,
        destination: TexturePlace,
        destination_rect: PixelRect,
    },
    RenderPass(PassPlanView),
}

/// The contents of a submission plan.
#[verifier::ext_equal]
pub struct SubmissionPlanView {
    pub buffer_writes: Seq<BufferWriteView>,
    pub texture_writes: Seq<TextureUploadView>,
    pub operations: Seq<EncoderOperationView>,
}

impl<'data> View for BufferWrite<'data> {
    type V = BufferWriteView;

    open spec fn view(&self) -> BufferWriteView {
        BufferWriteView { buffer: self.buffer, offset: self.offset, data: self.data@ }
    }
}

impl<'data> View for TextureUpload<'data> {
    type V = TextureUploadView;

    open spec fn view(&self) -> TextureUploadView {
        TextureUploadView {
            texture: self.texture,
            destination: self.destination,
            bytes_per_row: self.bytes_per_row,
            data: self.data@,
        }
    }
}

impl View for EncoderOperation {
    type V = EncoderOperationView;

    open spec fn view(&self) -> EncoderOperationView {
        match *self {
            EncoderOperation::CopyTexture { source, source_rect, destination, destination_rect } =>
                EncoderOperationView::CopyTexture {
                source,
                source_rect,
                destination,
                destination_rect,
            },
            EncoderOperation::RenderPass(pass) => EncoderOperationView::RenderPass(pass@),
        }
    }
}

impl<'data> View for SubmissionPlan<'data> {
    type V = SubmissionPlanView;

    open spec fn view(&self) -> SubmissionPlanView {
        SubmissionPlanView {
            buffer_writes: Seq::new(
                self.buffer_writes@.len(),
                |i: int| self.buffer_writes@[i]@,
            ),
            texture_writes: Seq::new(
                self.texture_writes@.len(),
                |i: int| self.texture_writes@[i]@,
            ),
            operations: Seq::new(self.operations@.len(), |i: int| self.operations@[i]@),
        }
    }
}

/// The place of the next end of a pass, or the end of the commands.
pub open spec fn pass_end(commands: Seq<CommandView>, from: int) -> int
    decreases commands.len() - from,
{
    if from >= commands.len() {
        commands.len() as int
    } else if commands[from] is EndRenderPass {
        from
    } else {
        pass_end(commands, from + 1)
    }
}

/// The next end of a pass is not before the place searched from.
pub proof fn lemma_pass_end(commands: Seq<CommandView>, from: int)
    requires
        0 <= from <= commands.len(),
    ensures
        from <= pass_end(commands, from) <= commands.len(),
        pass_end(commands, from) < commands.len() ==> commands[pass_end(
            commands,
            from,
        )] is EndRenderPass,
    decreases commands.len() - from,
{
    if from < commands.len() && !(commands[from] is EndRenderPass) {
        lemma_pass_end(commands, from + 1);
    }
}

impl SubmissionPlanView {
    /// No work.
    pub open spec fn initial() -> Self {
        SubmissionPlanView {
            buffer_writes: Seq::empty(),
            texture_writes: Seq::empty(),
            operations: Seq::empty(),
        }
    }

    /// The plan with the commands from a place on. Uploads come before all other
    /// work, and passes are planned as a whole.
    pub open spec fn extended(
        self,
        cache: CacheView,
        table: TableView,
        commands: Seq<CommandView>,
        index: int,
        upload_phase: bool,
    ) -> Result<Self, Interruption>
        decreases commands.len() - index,
        when 0 <= index <= commands.len()
        via Self::extended_decreases
    {
        if index >= commands.len() {
            Ok(self)
        } else {
            match commands[index] {
                CommandView::WriteBuffer { buffer, offset, data } => if !upload_phase {
                    Err(Interruption::Failed(Error::Unsupported(UnsupportedFeature::LateUpload)))
                } else {
                    match cache.buffer(table, buffer) {
                        Err(interruption) => Err(interruption),
                        Ok(place) => (SubmissionPlanView {
                            buffer_writes: self.buffer_writes.push(
                                BufferWriteView { buffer: place, offset, data },
                            ),
                            ..self
                        }).extended(cache, table, commands, index + 1, true),
                    }
                },
                CommandView::WriteTexture { texture, write } => if !upload_phase {
                    Err(Interruption::Failed(Error::Unsupported(UnsupportedFeature::LateUpload)))
                } else {
                    match cache.texture(table, texture) {
                        Err(interruption) => Err(interruption),
                        Ok(found) => (SubmissionPlanView {
                            texture_writes: self.texture_writes.push(
                                TextureUploadView {
                                    texture: found.place,
                                    destination: write.destination,
                                    bytes_per_row: write.bytes_per_row,
                                    data: write.data,
                                },
                            ),
                            ..self
                        }).extended(cache, table, commands, index + 1, true),
                    }
                },
                CommandView::CopyTextureToTexture {
                    source,
                    source_rect,
                    destination,
                    destination_rect,
                } => match cache.texture(table, source) {
                    Err(interruption) => Err(interruption),
                    Ok(from) => match cache.texture(table, destination) {
                        Err(interruption) => Err(interruption),
                        Ok(to) => (SubmissionPlanView {
                            operations: self.operations.push(
                                EncoderOperationView::CopyTexture {
                                    source: from.place,
                                    source_rect,
                                    destination: to.place,
                                    destination_rect,
                                },
                            ),
                            ..self
                        }).extended(cache, table, commands, index + 1, false),
                    },
                },
                CommandView::BeginRenderPass(desc) => {
                    let end = pass_end(commands, index + 1);
                    if end >= commands.len() {
                        invalid_state()
                    } else {
                        match spec_encode_render_pass(
                            cache,
                            table,
                            desc,
                            commands.subrange(index + 1, end),
                        ) {
                            Err(interruption) => Err(interruption),
                            Ok(pass) => (SubmissionPlanView {
                                operations: self.operations.push(
                                    EncoderOperationView::RenderPass(pass),
                                ),
                                ..self
                            }).extended(cache, table, commands, end + 1, false),
                        }
                    }
                },
                _ => invalid_state(),
            }
        }
    }

    #[via_fn]
    proof fn extended_decreases(
        self,
        cache: CacheView,
        table: TableView,
        commands: Seq<CommandView>,
        index: int,
        upload_phase: bool,
    ) {
        if index < commands.len() {
            lemma_pass_end(commands, index + 1);
        }
    }
}

/// What a result of a plan holds.
pub open spec fn submission_outcome(result: Result<SubmissionPlan<'_>, Interruption>) -> Result<
    SubmissionPlanView,
    Interruption,
> {
    match result {
        Ok(plan) => Ok(plan@),
        Err(interruption) => Err(interruption),
    }
}

/// What a result of a pass plan holds.
pub open spec fn pass_plan_outcome(result: Result<PassPlan, Interruption>) -> Result<
    PassPlanView,
    Interruption,
> {
    match result {
        Ok(plan) => Ok(plan@),
        Err(interruption) => Err(interruption),
    }
}

spec fn state_outcome(result: Result<PassState, Interruption>) -> Result<
    PassStateView,
    Interruption,
> {
    match result {
        Ok(state) => Ok(state@),
        Err(interruption) => Err(interruption),
    }
}

/// The first command that cannot be planned decides the outcome of a pass.
proof fn lemma_pass_failure_is_final(
    cache: CacheView,
    table: TableView,
    frame: PassFrame,
    commands: Seq<CommandView>,
    count: int,
)
    requires
        0 <= count <= commands.len(),
        PassStateView::after(cache, table, frame, commands.take(count)) is Err,
    ensures
        PassStateView::after(cache, table, frame, commands) == PassStateView::after(
            cache,
            table,
            frame,
            commands.take(count),
        ),
    decreases commands.len(),
{
    if count == commands.len() {
        assert(commands.take(count) =~= commands);
    } else {
        assert(commands.drop_last().take(count) =~= commands.take(count));
        lemma_pass_failure_is_final(cache, table, frame, commands.drop_last(), count);
    }
}

impl PassState {
    fn new() -> (r: Self)
        ensures
            r@ == PassStateView::initial(),
    {
        PassState {
            pipeline: None,
            vertex_buffer: None,
            index_buffer: None,
            texture: None,
            sampler: None,
            uniforms: None,
            operations: Vec::new(),
        }
    }

    fn with_operation(self, operation: PassOperation) -> (r: Self)
        ensures
            r@ == self@.with_operation(operation),
    {
        let mut state: PassState = self;
        state.operations.push(operation);
        state
    }

    fn use_pipeline(
        self,
        resources: &Resources,
        table: &ResourceTable,
        frame: &PassFrame,
        reference: RenderPipelineRef,
    ) -> (r: Result<Self, Interruption>)
        ensures
            state_outcome(r) == self@.use_pipeline(resources@, table@, *frame, reference),
    {
        let mut state: PassState = self;
        let sample_format: Option<TextureFormat> = match state.texture {
            Some(texture) => Some(texture.format),
            None => None,
        };
        let pipeline: PipelineUse = match resources.pipeline(
            table,
            reference,
            frame.target.raw_format,
            sample_format,
        ) {
            Ok(pipeline) => pipeline,
            Err(interruption) => {
                return Err(interruption);
            },
        };
        if pipeline.has_depth != frame.depth.is_some() {
            return Err(Interruption::Failed(Error::InvalidState));
        }
        state.pipeline = Some((reference, pipeline));
        Ok(state.with_operation(PassOperation::SetPipeline(pipeline.place)))
    }

    fn use_texture(
        self,
        resources: &Resources,
        table: &ResourceTable,
        frame: &PassFrame,
        texture: TextureUse,
    ) -> (r: Result<Self, Interruption>)
        ensures
            state_outcome(r) == self@.use_texture(resources@, table@, *frame, texture),
    {
        let mut state: PassState = self;
        state.texture = Some(texture);
        match state.pipeline {
            Some((reference, pipeline)) => {
                if pipeline.requires_texture {
                    return state.use_pipeline(resources, table, frame, reference);
                }
                Ok(state)
            },
            None => Ok(state),
        }
    }

    fn binding(&self) -> (r: Result<DrawBinding, Error>)
        ensures
            r == self@.binding(),
    {
        let pipeline: PipelineUse = match self.pipeline {
            Some((_, pipeline)) => pipeline,
            None => {
                return Err(Error::InvalidState);
            },
        };
        let (vertex_buffer, vertex_offset) = match self.vertex_buffer {
            Some(bound) => bound,
            None => {
                return Err(Error::InvalidState);
            },
        };
        let uniforms: DrawUniforms = match self.uniforms {
            Some(uniforms) => uniforms,
            None => {
                return Err(Error::InvalidState);
            },
        };
        let sampled: Option<(TexturePlace, usize)> = if pipeline.requires_texture {
            match (self.texture, self.sampler) {
                (Some(texture), Some(sampler)) => {
                    if texture.format == TextureFormat::R8Unorm && pipeline.sample_mode != Some(
                        TextureSampleMode::AlphaMask,
                    ) {
                        return Err(Error::Unsupported(UnsupportedFeature::TextureFormat));
                    }
                    Some((texture.place, sampler))
                },
                _ => {
                    return Err(Error::InvalidState);
                },
            }
        } else {
            None
        };
        Ok(
            DrawBinding {
                pipeline: pipeline.place,
                uniforms,
                sampled,
                vertex_buffer,
                vertex_offset,
            },
        )
    }

    fn draw(self, first: u32, count: u32) -> (r: Result<Self, Interruption>)
        ensures
            state_outcome(r) == self@.draw(first, count),
    {
        let binding: DrawBinding = match self.binding() {
            Ok(binding) => binding,
            Err(error) => {
                return Err(Interruption::Failed(error));
            },
        };
        if count > u32::MAX - first {
            return Err(Interruption::Failed(Error::InvalidState));
        }
        Ok(self.with_operation(PassOperation::Draw { binding, first, end: first + count }))
    }

    fn draw_indexed(self, first: u32, count: u32, base_vertex: i32) -> (r: Result<
        Self,
        Interruption,
    >)
        ensures
            state_outcome(r) == self@.draw_indexed(first, count, base_vertex),
    {
        if self.pipeline.is_none() || self.vertex_buffer.is_none() {
            return Err(Interruption::Failed(Error::InvalidState));
        }
        let (index_buffer, index_offset, index_format) = match self.index_buffer {
            Some(bound) => bound,
            None => {
                return Err(Interruption::Failed(Error::InvalidState));
            },
        };
        let binding: DrawBinding = match self.binding() {
            Ok(binding) => binding,
            Err(error) => {
                return Err(Interruption::Failed(error));
            },
        };
        if count > u32::MAX - first {
            return Err(Interruption::Failed(Error::InvalidState));
        }
        Ok(
            self.with_operation(
                PassOperation::DrawIndexed {
                    binding,
                    index_buffer,
                    index_offset,
                    index_format,
                    first,
                    end: first + count,
                    base_vertex,
                },
            ),
        )
    }

    fn step(
        self,
        resources: &Resources,
        table: &ResourceTable,
        frame: &PassFrame,
        command: Command<'_>,
    ) -> (r: Result<Self, Interruption>)
        ensures
            state_outcome(r) == self@.step(resources@, table@, *frame, command@),
    {
        let mut state: PassState = self;
        match command {
            Command::SetPipeline(reference) => state.use_pipeline(
                resources,
                table,
                frame,
                reference,
            ),
            Command::SetVertexBuffer { buffer, offset } => match resources.buffer(table, buffer) {
                Ok(place) => {
                    state.vertex_buffer = Some((place, offset));
                    Ok(state)
                },
                Err(interruption) => Err(interruption),
            },
            Command::SetIndexBuffer { buffer, offset, format } => match resources.buffer(
                table,
                buffer,
            ) {
                Ok(place) => {
                    state.index_buffer = Some((place, offset, format));
                    Ok(state)
                },
                Err(interruption) => Err(interruption),
            },
            Command::SetTexture(reference) => match resources.texture(table, reference) {
                Ok(texture) => state.use_texture(resources, table, frame, texture),
                Err(interruption) => Err(interruption),
            },
            Command::SetSampler(reference) => match resources.sampler(table, reference) {
                Ok(place) => {
                    state.sampler = Some(place);
                    Ok(state)
                },
                Err(interruption) => Err(interruption),
            },
            Command::SetUniforms(uniforms) => {
                state.uniforms = Some(uniforms);
                Ok(state)
            },
            Command::SetScissor(scissor) => {
                let rectangle: PixelRect = match scissor {
                    Some(rectangle) => rectangle,
                    None => frame.area,
                };
                Ok(state.with_operation(PassOperation::SetScissor(rectangle)))
            },
            Command::Draw { vertex_count, first_vertex } => state.draw(first_vertex, vertex_count),
            Command::DrawIndexed { index_count, first_index, base_vertex } => state.draw_indexed(
                first_index,
                index_count,
                base_vertex,
            ),
            _ => Err(Interruption::Failed(Error::InvalidState)),
        }
    }
}

fn frame_of(resources: &Resources, table: &ResourceTable, desc: RenderPassDesc) -> (r: Result<
    PassFrame,
    Interruption,
>)
    ensures
        r == pass_frame(resources@, table@, desc@),
{
    let read_only: bool = match desc.depth_attachment() {
        Some(attachment) => attachment.read_only(),
        None => false,
    };
    if desc.color_attachments().len() != 1 || read_only {
        return Err(Interruption::Failed(Error::Unsupported(UnsupportedFeature::Pipeline)));
    }
    let target: TextureUse = match resources.texture(table, desc.target()) {
        Ok(target) => target,
        Err(interruption) => {
            return Err(interruption);
        },
    };
    match desc.depth_attachment() {
        None => Ok(PassFrame { target, depth: None, area: desc.area() }),
        Some(attachment) => match resources.texture(table, attachment.target()) {
            Ok(depth) => Ok(PassFrame { target, depth: Some(depth), area: desc.area() }),
            Err(interruption) => Err(interruption),
        },
    }
}

fn depth_operations_of(depth: Option<DepthAttachment>, full: bool) -> (r: Result<
    Option<(DepthLoad, StoreOp)>,
    Interruption,
>)
    ensures
        r == depth_operations(depth, full),
{
    match depth {
        None => Ok(None),
        Some(attachment) => {
            if full {
                return Ok(Some((depth_load_op(attachment.load()), attachment.store())));
            }
            match attachment.load() {
                DepthLoadOp::Clear(_) => Err(
                    Interruption::Failed(Error::Unsupported(UnsupportedFeature::PartialDepthClear)),
                ),
                DepthLoadOp::Load | DepthLoadOp::DontCare => Ok(
                    Some((DepthLoad::Load, attachment.store())),
                ),
            }
        },
    }
}

/// Plan a render pass from its descriptor and the commands within it.
///
/// An area that is exactly the attachment is cleared as it is loaded. Otherwise
/// the rest of the attachment is kept, the area is cleared by a draw, and a depth
/// clear is refused with `UnsupportedFeature::PartialDepthClear`.
pub fn encode_render_pass(
    resources: &Resources,
    table: &ResourceTable,
    desc: RenderPassDesc,
    commands: &[Command<'_>],
) -> (r: Result<PassPlan, Interruption>)
    ensures
        pass_plan_outcome(r) == spec_encode_render_pass(
            resources@,
            table@,
            desc@,
            crate::ir::command::command_views(commands@),
        ),
{
    let frame: PassFrame = match frame_of(resources, table, desc) {
        Ok(frame) => frame,
        Err(interruption) => {
            return Err(interruption);
        },
    };
    let full: bool = render_area_is_full(desc.area(), frame.target.width, frame.target.height);
    let depth: Option<(DepthLoad, StoreOp)> = match depth_operations_of(
        desc.depth_attachment(),
        full,
    ) {
        Ok(depth) => depth,
        Err(interruption) => {
            return Err(interruption);
        },
    };
    let clear: Option<(usize, Color)> = match desc.load() {
        LoadOp::Clear(color) => if full {
            None
        } else {
            match resources.clear_pipeline(frame.target.raw_format, frame.depth.is_some()) {
                Ok(place) => Some((place, color)),
                Err(interruption) => {
                    return Err(interruption);
                },
            }
        },
        LoadOp::Load | LoadOp::DontCare => None,
    };
    let color_load: ColorLoad = if full {
        color_load_op(desc.load())
    } else {
        ColorLoad::Load
    };
    let ghost views = crate::ir::command::command_views(commands@);
    let mut state: PassState = PassState::new();
    let mut i: usize = 0;
    assert(views.take(0) =~= Seq::<CommandView>::empty());
    while i < commands.len()
        invariant
            i <= commands@.len(),
            views == crate::ir::command::command_views(commands@),
            spec_encode_render_pass(resources@, table@, desc@, views) is Err || PassStateView::after(
                resources@,
                table@,
                frame,
                views,
            ) is Ok,
            PassStateView::after(resources@, table@, frame, views) is Err
                ==> spec_encode_render_pass(resources@, table@, desc@, views) == Err::<
                PassPlanView,
                Interruption,
            >(PassStateView::after(resources@, table@, frame, views)->Err_0),
            PassStateView::after(resources@, table@, frame, views.take(i as int)) == Ok::<
                PassStateView,
                Interruption,
            >(state@),
        decreases commands.len() - i,
    {
        let command: Command<'_> = commands[i];
        proof {
            assert(views[i as int] == command@);
            assert(views.take(i + 1).drop_last() =~= views.take(i as int));
            assert(views.take(i + 1).last() == views[i as int]);
        }
        match state.step(resources, table, &frame, command) {
            Ok(next) => {
                state = next;
            },
            Err(interruption) => {
                proof {
                    lemma_pass_failure_is_final(resources@, table@, frame, views, i + 1);
                }
                return Err(interruption);
            },
        }
        i = i + 1;
    }
    assert(views.take(i as int) =~= views);
    Ok(
        PassPlan {
            frame,
            color_load,
            color_store: desc.store(),
            depth_operations: depth,
            partial_clear: clear,
            operations: state.operations,
        },
    )
}

fn position_of_end(commands: &[Command<'_>], from: usize) -> (r: usize)
    requires
        from <= commands@.len(),
    ensures
        r == pass_end(crate::ir::command::command_views(commands@), from as int),
        from <= r <= commands@.len(),
{
    let ghost views = crate::ir::command::command_views(commands@);
    let mut at: usize = from;
    while at < commands.len()
        invariant
            from <= at <= commands@.len(),
            views == crate::ir::command::command_views(commands@),
            pass_end(views, from as int) == pass_end(views, at as int),
        decreases commands.len() - at,
    {
        assert(views[at as int] == commands@[at as int]@);
        match commands[at] {
            Command::EndRenderPass => {
                return at;
            },
            _ => {},
        }
        at = at + 1;
    }
    at
}

/// Order the GPU work of a command buffer on a device.
///
/// Uploads come before all other work and later ones are refused with
/// `UnsupportedFeature::LateUpload`. Copies and passes keep their order. Fails
/// with `Error::InvalidState` for resources of another device, with
/// `Error::ResourceTableMismatch` for those of another table, and for commands
/// that do not fit. Asks for a GPU object that does not exist yet.
pub fn submit<'data>(
    device: u64,
    resources: &Resources,
    commands: &CommandBuffer<'_, 'data>,
) -> (r: Result<SubmissionPlan<'data>, Interruption>)
    ensures
        submission_outcome(r) == (if device != resources@.device {
            Err(Interruption::Failed(Error::InvalidState))
        } else if resources@.table != commands@.resources.id {
            Err(Interruption::Failed(Error::ResourceTableMismatch))
        } else {
            SubmissionPlanView::initial().extended(
                resources@,
                commands@.resources,
                commands@.commands,
                0,
                true,
            )
        }),
{
    if device != resources.device() {
        return Err(Interruption::Failed(Error::InvalidState));
    }
    let table: &ResourceTable = commands.resources();
    if !resources.belongs_to(table) {
        return Err(Interruption::Failed(Error::ResourceTableMismatch));
    }
    let list: &[Command<'data>] = commands.commands();
    let ghost views = commands@.commands;
    let mut plan: SubmissionPlan<'data> = SubmissionPlan {
        buffer_writes: Vec::new(),
        texture_writes: Vec::new(),
        operations: Vec::new(),
    };
    let mut upload_phase: bool = true;
    let mut index: usize = 0;
    let ghost wanted = SubmissionPlanView::initial().extended(
        resources@,
        table@,
        views,
        0,
        true,
    );
    assert(plan@ =~= SubmissionPlanView::initial());
    while index < list.len()
        invariant
            index <= list@.len(),
            views == crate::ir::command::command_views(list@),
            plan@.extended(resources@, table@, views, index as int, upload_phase) == wanted,
            device == resources@.device,
            resources@.table == table@.id,
            table@ == commands@.resources,
            views == commands@.commands,
            wanted == SubmissionPlanView::initial().extended(
                resources@,
                commands@.resources,
                commands@.commands,
                0,
                true,
            ),
        decreases list.len() - index,
    {
        let command: Command<'data> = list[index];
        let ghost before = plan@;
        assert(views[index as int] == command@);
        match command {
            Command::WriteBuffer { buffer, offset, data } => {
                if !upload_phase {
                    return Err(
                        Interruption::Failed(Error::Unsupported(UnsupportedFeature::LateUpload)),
                    );
                }
                let place: usize = match resources.buffer(table, buffer) {
                    Ok(place) => place,
                    Err(interruption) => {
                        return Err(interruption);
                    },
                };
                let write = BufferWrite { buffer: place, offset, data };
                plan.buffer_writes.push(write);
                assert(plan@.buffer_writes =~= before.buffer_writes.push(write@));
                assert(plan@.texture_writes =~= before.texture_writes);
                assert(plan@.operations =~= before.operations);
                index = index + 1;
            },
            Command::WriteTexture { texture, write } => {
                if !upload_phase {
                    return Err(
                        Interruption::Failed(Error::Unsupported(UnsupportedFeature::LateUpload)),
                    );
                }
                let found: TextureUse = match resources.texture(table, texture) {
                    Ok(found) => found,
                    Err(interruption) => {
                        return Err(interruption);
                    },
                };
                let upload = TextureUpload {
                    texture: found.place,
                    destination: write.destination(),
                    bytes_per_row: write.bytes_per_row(),
                    data: write.data(),
                };
                plan.texture_writes.push(upload);
                assert(plan@.texture_writes =~= before.texture_writes.push(upload@));
                assert(plan@.buffer_writes =~= before.buffer_writes);
                assert(plan@.operations =~= before.operations);
                index = index + 1;
            },
            Command::CopyTextureToTexture { source, source_rect, destination, destination_rect } => {
                upload_phase = false;
                let from: TextureUse = match resources.texture(table, source) {
                    Ok(found) => found,
                    Err(interruption) => {
                        return Err(interruption);
                    },
                };
                let to: TextureUse = match resources.texture(table, destination) {
                    Ok(found) => found,
                    Err(interruption) => {
                        return Err(interruption);
                    },
                };
                let operation = EncoderOperation::CopyTexture {
                    source: from.place,
                    source_rect,
                    destination: to.place,
                    destination_rect,
                };
                plan.operations.push(operation);
                assert(plan@.operations =~= before.operations.push(operation@));
                assert(plan@.buffer_writes =~= before.buffer_writes);
                assert(plan@.texture_writes =~= before.texture_writes);
                index = index + 1;
            },
            Command::BeginRenderPass(desc) => {
                upload_phase = false;
                let end: usize = position_of_end(list, index + 1);
                if end >= list.len() {
                    return Err(Interruption::Failed(Error::InvalidState));
                }
                let inner: &[Command<'data>] = vstd::slice::slice_subrange(list, index + 1, end);
                assert(crate::ir::command::command_views(inner@) =~= views.subrange(
                    index + 1,
                    end as int,
                ));
                let pass: PassPlan = match encode_render_pass(resources, table, desc, inner) {
                    Ok(pass) => pass,
                    Err(interruption) => {
                        return Err(interruption);
                    },
                };
                let operation = EncoderOperation::RenderPass(pass);
                plan.operations.push(operation);
                assert(plan@.operations =~= before.operations.push(operation@));
                assert(plan@.buffer_writes =~= before.buffer_writes);
                assert(plan@.texture_writes =~= before.texture_writes);
                index = end + 1;
            },
            _ => {
                return Err(Interruption::Failed(Error::InvalidState));
            },
        }
    }
    Ok(plan)
}

} // verus!
