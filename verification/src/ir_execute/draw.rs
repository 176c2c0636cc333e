//! Draws of an open render pass.

use crate::driver::{
    DrawView, IrDraw, IrRect, IrSamplerState, IrSubmission, IrTextureSpec, IrVertex,
    SubmissionView, VertexView, MAX_IR_VERTICES,
};
use crate::ir::pipeline::{DrawUniforms, IndexFormat};
use crate::ir::resource::{BufferDesc, BufferUsage};
use crate::ir::table::{
    BufferRef, RenderPipelineRef, ResourceTable, SamplerRef, TableView, TextureRef,
};
use crate::ir::types::{Error, PixelRect};
use crate::ir_execute::buffers::{PendingBuffers, UpdateView};
use crate::ir_execute::decode::{decode_vertex, read_u16, read_u32};
use crate::ir_execute::plan::ExecutionTarget;
use crate::ir_execute::resources::{IrResources, ResourcesView};
use crate::ir_execute::state::{ir_rect, pipeline_info, texture_binding, uniform_state, PipelineInfo};
use crate::ir_execute::{IrSubmitError, UnsupportedIrFeature};
use crate::memory::Memory;
use vstd::prelude::*;

verus! {

/// An open render pass and what is bound in it.
#[derive(Debug)]
pub struct ActivePass {
    /// Texture that the pass renders into.
    pub attachment: TextureRef,
    /// Device image that the pass renders into.
    pub target: ExecutionTarget,
    /// Draws so far.
    pub submission: IrSubmission,
    /// Bound pipeline.
    pub pipeline: Option<RenderPipelineRef>,
    /// Bound vertex buffer and its first byte.
    pub vertex_buffer: Option<(BufferRef, u64)>,
    /// Bound index buffer, its first byte and its encoding.
    pub index_buffer: Option<(BufferRef, u64, IndexFormat)>,
    /// Bound texture.
    pub texture: Option<TextureRef>,
    /// Bound sampler.
    pub sampler: Option<SamplerRef>,
    /// Bound uniforms.
    pub uniforms: Option<DrawUniforms>,
    /// Scissor rectangle.
    pub scissor: Option<PixelRect>,
}

/// The contents of an open render pass.
#[verifier::ext_equal]
pub struct ActiveView {
    pub attachment: TextureRef,
    pub target: ExecutionTarget,
    pub submission: SubmissionView,
    pub pipeline: Option<RenderPipelineRef>,
    pub vertex_buffer: Option<(BufferRef, u64)>,
    pub index_buffer: Option<(BufferRef, u64, IndexFormat)>,
    pub texture: Option<TextureRef>,
    pub sampler: Option<SamplerRef>,
    pub uniforms: Option<DrawUniforms>,
    pub scissor: Option<PixelRect>,
}

impl View for ActivePass {
    type V = ActiveView;

    open spec fn view(&self) -> ActiveView {
        ActiveView {
            attachment: self.attachment,
            target: self.target,
            submission: self.submission@,
            pipeline: self.pipeline,
            vertex_buffer: self.vertex_buffer,
            index_buffer: self.index_buffer,
            texture: self.texture,
            sampler: self.sampler,
            uniforms: self.uniforms,
            scissor: self.scissor,
        }
    }
}

/// Everything a draw takes from the bound state.
#[derive(Debug, Clone, Copy)]
pub struct DrawState {
    /// Pipeline.
    pub info: PipelineInfo,
    /// Vertex buffer.
    pub buffer: BufferRef,
    /// First byte of the vertex buffer.
    pub offset: u64,
    /// Transform and color.
    pub uniforms: DrawUniforms,
    /// Sampled texture.
    pub texture: Option<IrTextureSpec>,
    /// Sampling.
    pub sampler: Option<IrSamplerState>,
}

impl ActiveView {
    /// The bound state of a draw, or what is missing or not covered.
    pub open spec fn draw_state(self, table: TableView) -> Result<DrawState, IrSubmitError> {
        if self.pipeline is None {
            crate::ir_execute::invalid(Error::PipelineNotSet)
        } else {
            match crate::ir_execute::state::spec_pipeline_info(table, self.pipeline->0) {
                Err(error) => Err(error),
                Ok(info) => if self.vertex_buffer is None {
                    crate::ir_execute::invalid(Error::VertexBufferNotSet)
                } else if self.uniforms is None {
                    crate::ir_execute::invalid(Error::UniformsNotSet)
                } else {
                    match crate::ir_execute::state::spec_texture_binding(
                        table,
                        info,
                        self.texture,
                        self.sampler,
                    ) {
                        Err(error) => Err(error),
                        Ok(binding) => if self.texture == Some(self.attachment) {
                            crate::ir_execute::invalid(Error::AttachmentFeedback)
                        } else {
                            Ok(
                                DrawState {
                                    info,
                                    buffer: (self.vertex_buffer->0).0,
                                    offset: (self.vertex_buffer->0).1,
                                    uniforms: self.uniforms->0,
                                    texture: binding.0,
                                    sampler: binding.1,
                                },
                            )
                        },
                    }
                },
            }
        }
    }

    /// The area that a draw may change.
    pub open spec fn draw_area(self) -> IrRect {
        match self.scissor {
            Some(rectangle) => crate::ir_execute::state::spec_ir_rect(rectangle@),
            None => self.submission.render_area,
        }
    }

    /// The pass with one more draw of decoded vertices.
    pub open spec fn append_draw(self, state: DrawState, vertices: Seq<VertexView>) -> Result<
        Self,
        IrSubmitError,
    > {
        let start = self.submission.vertices.len();
        if start + vertices.len() > MAX_IR_VERTICES {
            crate::ir_execute::unsupported(UnsupportedIrFeature::CommandStream)
        } else {
            Ok(
                ActiveView {
                    submission: SubmissionView {
                        vertices: self.submission.vertices + vertices,
                        draws: self.submission.draws.push(
                            DrawView {
                                start_vertex: start,
                                vertex_count: vertices.len(),
                                pipeline: state.info.state,
                                texture: state.texture,
                                sampler: state.sampler,
                                uniforms: crate::ir_execute::state::spec_uniform_state(
                                    state.uniforms,
                                ),
                                scissor: self.draw_area(),
                            },
                        ),
                        ..self.submission
                    },
                    ..self
                },
            )
        }
    }

    /// The pass after a draw of consecutive vertices.
    pub open spec fn draw(
        self,
        resources: ResourcesView,
        updates: Seq<UpdateView>,
        table: TableView,
        first_vertex: u32,
        vertex_count: u32,
    ) -> Result<Self, IrSubmitError> {
        match self.draw_state(table) {
            Err(error) => Err(error),
            Ok(state) => match spec_decode_vertices(
                resources,
                updates,
                table,
                state,
                first_vertex,
                vertex_count,
            ) {
                Err(error) => Err(error),
                Ok(vertices) => self.append_draw(state, vertices),
            },
        }
    }

    /// The pass after a draw of indexed vertices.
    pub open spec fn draw_indexed(
        self,
        resources: ResourcesView,
        updates: Seq<UpdateView>,
        table: TableView,
        first_index: u32,
        index_count: u32,
        base_vertex: i32,
    ) -> Result<Self, IrSubmitError> {
        if !whole_triangles(index_count) {
            Err(IrSubmitError::InvalidVertexData)
        } else {
            match self.draw_state(table) {
                Err(error) => Err(error),
                Ok(state) => if self.index_buffer is None {
                    crate::ir_execute::invalid(Error::IndexBufferNotSet)
                } else {
                    match spec_decode_indexed(
                        resources,
                        updates,
                        table,
                        state,
                        self.index_buffer->0,
                        first_index,
                        index_count,
                        base_vertex,
                    ) {
                        Err(error) => Err(error),
                        Ok(vertices) => self.append_draw(state, vertices),
                    }
                },
            }
        }
    }
}

impl ActiveView {
    /// Whether a draw of consecutive vertices comes as far as asking for memory:
    /// its state is complete and there is something to decode.
    pub open spec fn draw_reserves(
        self,
        resources: ResourcesView,
        updates: Seq<UpdateView>,
        table: TableView,
        first_vertex: u32,
        vertex_count: u32,
    ) -> bool {
        match self.draw_state(table) {
            Err(_) => false,
            Ok(state) => vertex_source(
                resources,
                updates,
                table,
                state,
                first_vertex,
                vertex_count,
            ) is Ok,
        }
    }

    /// Whether a draw of indexed vertices comes as far as asking for memory.
    pub open spec fn draw_indexed_reserves(
        self,
        resources: ResourcesView,
        updates: Seq<UpdateView>,
        table: TableView,
        first_index: u32,
        index_count: u32,
        base_vertex: i32,
    ) -> bool {
        match self.draw_state(table) {
            Err(_) => false,
            Ok(state) => self.index_buffer is Some && indexed_source(
                resources,
                updates,
                table,
                state,
                self.index_buffer->0,
                first_index,
                index_count,
                base_vertex,
            ) is Ok,
        }
    }
}

/// Whether a count is a positive number of triangles.
pub open spec fn whole_triangles(count: u32) -> bool {
    count != 0 && count % 3 == 0
}

/// The vertices at some indices, if all of them are there and well formed.
pub open spec fn decoded(
    bytes: Seq<u8>,
    offset: u64,
    indices: Seq<int>,
    info: PipelineInfo,
) -> Option<Seq<VertexView>> {
    if forall|i: int|
        0 <= i < indices.len() ==> crate::ir_execute::decode::spec_decode_vertex(
            bytes,
            offset,
            #[trigger] indices[i],
            info,
        ) is Some {
        Some(
            Seq::new(
                indices.len(),
                |i: int|
                    crate::ir_execute::decode::spec_decode_vertex(bytes, offset, indices[i], info)->0,
            ),
        )
    } else {
        None
    }
}

/// Consecutive indices.
pub open spec fn consecutive(first: u32, count: u32) -> Seq<int> {
    Seq::new(count as nat, |i: int| first + i)
}

/// The bytes and the indices that the vertices of a draw are decoded from, or
/// why there are none.
pub open spec fn vertex_source(
    resources: ResourcesView,
    updates: Seq<UpdateView>,
    table: TableView,
    state: DrawState,
    first_vertex: u32,
    vertex_count: u32,
) -> Result<(Seq<u8>, Seq<int>), IrSubmitError> {
    match table.buffer(state.buffer) {
        Err(error) => crate::ir_execute::invalid(error),
        Ok(desc) => match crate::ir_execute::buffers::contents(
            updates,
            resources,
            state.buffer@.index,
        ) {
            None => Err(IrSubmitError::InvalidVertexData),
            Some(bytes) => if !whole_triangles(vertex_count) {
                Err(IrSubmitError::InvalidVertexData)
            } else if !desc@.usage.allows(BufferUsage::VERTEX_BIT) {
                crate::ir_execute::invalid(Error::InvalidUsage)
            } else {
                Ok((bytes, consecutive(first_vertex, vertex_count)))
            },
        },
    }
}

/// The vertices that a source leads to, or why they cannot be decoded.
pub open spec fn decoded_source(
    source: Result<(Seq<u8>, Seq<int>), IrSubmitError>,
    state: DrawState,
) -> Result<Seq<VertexView>, IrSubmitError> {
    match source {
        Err(error) => Err(error),
        Ok((bytes, indices)) => match decoded(bytes, state.offset, indices, state.info) {
            None => Err(IrSubmitError::InvalidVertexData),
            Some(vertices) => Ok(vertices),
        },
    }
}

/// The vertices of a draw, or why they cannot be decoded.
pub open spec fn spec_decode_vertices(
    resources: ResourcesView,
    updates: Seq<UpdateView>,
    table: TableView,
    state: DrawState,
    first_vertex: u32,
    vertex_count: u32,
) -> Result<Seq<VertexView>, IrSubmitError> {
    decoded_source(
        vertex_source(resources, updates, table, state, first_vertex, vertex_count),
        state,
    )
}

/// The index at a position of index bytes.
pub open spec fn index_at(bytes: Seq<u8>, at: int, format: IndexFormat) -> int {
    match format {
        IndexFormat::Uint16 => crate::ir_execute::decode::le_u16(bytes, at) as int,
        IndexFormat::Uint32 => crate::ir_execute::decode::le_u32(bytes, at) as int,
    }
}

/// The vertex indices that index bytes lead to.
pub open spec fn resolved(
    bytes: Seq<u8>,
    start: int,
    format: IndexFormat,
    count: u32,
    base_vertex: i32,
) -> Seq<int> {
    Seq::new(
        count as nat,
        |i: int| index_at(bytes, start + i * format.byte_size(), format) + base_vertex,
    )
}

/// The bytes and the indices that the vertices of an indexed draw are decoded
/// from, or why there are none.
pub open spec fn indexed_source(
    resources: ResourcesView,
    updates: Seq<UpdateView>,
    table: TableView,
    state: DrawState,
    index_buffer: (BufferRef, u64, IndexFormat),
    first_index: u32,
    index_count: u32,
    base_vertex: i32,
) -> Result<(Seq<u8>, Seq<int>), IrSubmitError> {
    if !whole_triangles(index_count) {
        Err(IrSubmitError::InvalidVertexData)
    } else {
        match table.buffer(index_buffer.0) {
            Err(error) => crate::ir_execute::invalid(error),
            Ok(index_desc) => {
                let index_bytes = crate::ir_execute::buffers::contents(
                    updates,
                    resources,
                    index_buffer.0@.index,
                );
                if !index_desc@.usage.allows(BufferUsage::INDEX_BIT) {
                    crate::ir_execute::invalid(Error::InvalidUsage)
                } else if index_bytes is None {
                    Err(IrSubmitError::InvalidVertexData)
                } else {
                    match table.buffer(state.buffer) {
                        Err(error) => crate::ir_execute::invalid(error),
                        Ok(desc) => match crate::ir_execute::buffers::contents(
                            updates,
                            resources,
                            state.buffer@.index,
                        ) {
                            None => Err(IrSubmitError::InvalidVertexData),
                            Some(bytes) => {
                                let size = index_buffer.2.byte_size();
                                let start = index_buffer.1 + first_index * size;
                                let indices = resolved(
                                    index_bytes->0,
                                    start,
                                    index_buffer.2,
                                    index_count,
                                    base_vertex,
                                );
                                if start + index_count * size > index_bytes->0.len() {
                                    Err(IrSubmitError::InvalidVertexData)
                                } else if indices[0] < 0 {
                                    Err(IrSubmitError::InvalidVertexData)
                                } else if !desc@.usage.allows(BufferUsage::VERTEX_BIT) {
                                    crate::ir_execute::invalid(Error::InvalidUsage)
                                } else {
                                    Ok((bytes, indices))
                                }
                            },
                        },
                    }
                }
            },
        }
    }
}

/// The vertices of an indexed draw, or why they cannot be decoded.
pub open spec fn spec_decode_indexed(
    resources: ResourcesView,
    updates: Seq<UpdateView>,
    table: TableView,
    state: DrawState,
    index_buffer: (BufferRef, u64, IndexFormat),
    first_index: u32,
    index_count: u32,
    base_vertex: i32,
) -> Result<Seq<VertexView>, IrSubmitError> {
    decoded_source(
        indexed_source(
            resources,
            updates,
            table,
            state,
            index_buffer,
            first_index,
            index_count,
            base_vertex,
        ),
        state,
    )
}

/// The outcome of something that may ask for room and is granted or refused it.
pub open spec fn granted_or<T>(
    wanted: Result<T, IrSubmitError>,
    reserves: bool,
    granted: bool,
) -> Result<T, IrSubmitError> {
    if reserves && !granted {
        Err(IrSubmitError::OutOfMemory)
    } else {
        wanted
    }
}

/// How a result relates to the wanted one: it is the same, or, where room was asked
/// for, that with one of the answers that may come.
pub open spec fn fulfilled<T>(
    result: Result<T, IrSubmitError>,
    wanted: Result<T, IrSubmitError>,
    reserves: bool,
    memory: Memory,
) -> bool {
    ||| memory.may(true) && result == granted_or(wanted, reserves, true)
    ||| memory.may(false) && result == granted_or(wanted, reserves, false)
}

/// What a result of vertices holds.
pub open spec fn vertices_outcome(result: Result<Vec<IrVertex>, IrSubmitError>) -> Result<
    Seq<VertexView>,
    IrSubmitError,
> {
    match result {
        Ok(vertices) => Ok(crate::driver::vertex_views(vertices@)),
        Err(error) => Err(error),
    }
}

/// What a result of a pass holds.
pub open spec fn pass_outcome(result: Result<ActivePass, IrSubmitError>) -> Result<
    ActiveView,
    IrSubmitError,
> {
    match result {
        Ok(pass) => Ok(pass@),
        Err(error) => Err(error),
    }
}

/// Decode consecutive vertices of a draw.
///
/// Fails as the buffer lookup does, with `Error::InvalidUsage` for a buffer that
/// holds no vertices, and with `IrSubmitError::InvalidVertexData` for contents
/// that were never written, for a partial triangle, and for vertices that are
/// missing or malformed.
pub fn decode_vertices(
    resources: &IrResources,
    pending: &PendingBuffers,
    table: &ResourceTable,
    state: &DrawState,
    first_vertex: u32,
    vertex_count: u32,
    memory: Memory,
) -> (r: Result<Vec<IrVertex>, IrSubmitError>)
    ensures
        fulfilled(
            vertices_outcome(r),
            spec_decode_vertices(
                resources@,
                pending@,
                table@,
                *state,
                first_vertex,
                vertex_count,
            ),
            vertex_source(resources@, pending@, table@, *state, first_vertex, vertex_count) is Ok,
            memory,
        ),
{
    let descriptor: BufferDesc = match table.buffer(state.buffer) {
        Ok(descriptor) => descriptor,
        Err(error) => {
            return Err(IrSubmitError::InvalidIr(error));
        },
    };
    let bytes: &[u8] = match pending.bytes(resources, state.buffer) {
        Some(bytes) => bytes,
        None => {
            return Err(IrSubmitError::InvalidVertexData);
        },
    };
    if vertex_count == 0 || vertex_count % 3 != 0 {
        return Err(IrSubmitError::InvalidVertexData);
    }
    if !descriptor.usage().contains(BufferUsage::vertex()) {
        return Err(IrSubmitError::InvalidIr(Error::InvalidUsage));
    }
    let ghost indices = consecutive(first_vertex, vertex_count);
    let info: PipelineInfo = state.info;
    let offset: u64 = state.offset;
    let mut vertices: Vec<IrVertex> = Vec::new();
    if !memory.reserve(&mut vertices, vertex_count as usize) {
        return Err(IrSubmitError::OutOfMemory);
    }
    let mut i: u32 = 0;
    while i < vertex_count
        invariant
            i <= vertex_count,
            indices == consecutive(first_vertex, vertex_count),
            vertices@.len() == i,
            forall|j: int|
                0 <= j < i ==> crate::ir_execute::decode::spec_decode_vertex(
                    bytes@,
                    offset,
                    #[trigger] indices[j],
                    info,
                ) == Some(vertices@[j]@),
        ensures
            i <= vertex_count,
            vertices@.len() == i,
            forall|j: int|
                0 <= j < i ==> crate::ir_execute::decode::spec_decode_vertex(
                    bytes@,
                    offset,
                    #[trigger] indices[j],
                    info,
                ) == Some(vertices@[j]@),
            i < vertex_count ==> crate::ir_execute::decode::spec_decode_vertex(
                bytes@,
                offset,
                indices[i as int],
                info,
            ) is None,
        decreases vertex_count - i,
    {
        let index: u64 = first_vertex as u64 + i as u64;
        assert(indices[i as int] == index);
        match decode_vertex(bytes, offset, index, info) {
            Ok(vertex) => {
                vertices.push(vertex);
            },
            Err(_) => {
                break;
            },
        }
        i = i + 1;
    }
    if i < vertex_count {
        assert(decoded(bytes@, offset, indices, info) is None);
        return Err(IrSubmitError::InvalidVertexData);
    }
    proof {
        let whole = decoded(bytes@, offset, indices, info);
        assert(whole is Some);
        assert(crate::driver::vertex_views(vertices@) =~= whole->0);
    }
    Ok(vertices)
}

/// Read the index at a position of index bytes.
fn read_index(bytes: &[u8], at: usize, format: IndexFormat) -> (r: u32)
    requires
        at + format.byte_size() <= bytes@.len(),
    ensures
        r == index_at(bytes@, at as int, format),
{
    match format {
        IndexFormat::Uint16 => match read_u16(bytes, at) {
            Ok(value) => value as u32,
            Err(_) => 0,
        },
        IndexFormat::Uint32 => match read_u32(bytes, at) {
            Ok(value) => value,
            Err(_) => 0,
        },
    }
}

/// Decode the vertices that an index buffer selects.
///
/// Fails as looking up the buffers does, with `Error::InvalidUsage` for buffers
/// that hold no indices or no vertices, and with
/// `IrSubmitError::InvalidVertexData` for contents that were never written and
/// for indices or vertices that are missing or malformed.
pub fn decode_indexed_draw_vertices(
    resources: &IrResources,
    pending: &PendingBuffers,
    table: &ResourceTable,
    state: &DrawState,
    index_buffer: (BufferRef, u64, IndexFormat),
    first_index: u32,
    index_count: u32,
    base_vertex: i32,
    memory: Memory,
) -> (r: Result<Vec<IrVertex>, IrSubmitError>)
    ensures
        fulfilled(
            vertices_outcome(r),
            spec_decode_indexed(
                resources@,
                pending@,
                table@,
                *state,
                index_buffer,
                first_index,
                index_count,
                base_vertex,
            ),
            indexed_source(
                resources@,
                pending@,
                table@,
                *state,
                index_buffer,
                first_index,
                index_count,
                base_vertex,
            ) is Ok,
            memory,
        ),
{
    if index_count == 0 || index_count % 3 != 0 {
        return Err(IrSubmitError::InvalidVertexData);
    }
    let (indices_of, index_offset, format) = index_buffer;
    let index_descriptor: BufferDesc = match table.buffer(indices_of) {
        Ok(descriptor) => descriptor,
        Err(error) => {
            return Err(IrSubmitError::InvalidIr(error));
        },
    };
    if !index_descriptor.usage().contains(BufferUsage::index()) {
        return Err(IrSubmitError::InvalidIr(Error::InvalidUsage));
    }
    let index_bytes: &[u8] = match pending.bytes(resources, indices_of) {
        Some(bytes) => bytes,
        None => {
            return Err(IrSubmitError::InvalidVertexData);
        },
    };
    let descriptor: BufferDesc = match table.buffer(state.buffer) {
        Ok(descriptor) => descriptor,
        Err(error) => {
            return Err(IrSubmitError::InvalidIr(error));
        },
    };
    let bytes: &[u8] = match pending.bytes(resources, state.buffer) {
        Some(bytes) => bytes,
        None => {
            return Err(IrSubmitError::InvalidVertexData);
        },
    };
    let size: u64 = format.byte_size();
    proof {
        assert(0 <= first_index * size <= u32::MAX * 4) by (nonlinear_arith)
            requires
                0 <= first_index <= u32::MAX,
                0 <= size <= 4,
        ;
        assert(0 <= index_count * size <= u32::MAX * 4) by (nonlinear_arith)
            requires
                0 <= index_count <= u32::MAX,
                0 <= size <= 4,
        ;
    }
    let start: u128 = index_offset as u128 + first_index as u128 * size as u128;
    let end: u128 = start + index_count as u128 * size as u128;
    if end > index_bytes.len() as u128 {
        return Err(IrSubmitError::InvalidVertexData);
    }
    let ghost indices = resolved(index_bytes@, start as int, format, index_count, base_vertex);
    proof {
        assert(size <= index_count * size) by (nonlinear_arith)
            requires
                1 <= index_count,
                0 <= size,
        ;
    }
    let first_vertex: i64 = read_index(index_bytes, start as usize, format) as i64
        + base_vertex as i64;
    assert(indices[0] == first_vertex);
    if first_vertex < 0 {
        return Err(IrSubmitError::InvalidVertexData);
    }
    if !descriptor.usage().contains(BufferUsage::vertex()) {
        return Err(IrSubmitError::InvalidIr(Error::InvalidUsage));
    }
    let info: PipelineInfo = state.info;
    let offset: u64 = state.offset;
    let length: usize = index_bytes.len();
    let mut vertices: Vec<IrVertex> = Vec::new();
    if !memory.reserve(&mut vertices, index_count as usize) {
        return Err(IrSubmitError::OutOfMemory);
    }
    let mut i: u32 = 0;
    while i < index_count
        invariant
            i <= index_count,
            size == format.byte_size(),
            length == index_bytes@.len(),
            end == start + index_count * size,
            end <= length,
            indices == resolved(index_bytes@, start as int, format, index_count, base_vertex),
            vertices@.len() == i,
            forall|j: int|
                0 <= j < i ==> crate::ir_execute::decode::spec_decode_vertex(
                    bytes@,
                    offset,
                    #[trigger] indices[j],
                    info,
                ) == Some(vertices@[j]@),
        ensures
            i <= index_count,
            vertices@.len() == i,
            forall|j: int|
                0 <= j < i ==> crate::ir_execute::decode::spec_decode_vertex(
                    bytes@,
                    offset,
                    #[trigger] indices[j],
                    info,
                ) == Some(vertices@[j]@),
            i < index_count ==> crate::ir_execute::decode::spec_decode_vertex(
                bytes@,
                offset,
                indices[i as int],
                info,
            ) is None,
        decreases index_count - i,
    {
        proof {
            assert(0 <= i * size && i * size + size <= index_count * size) by (nonlinear_arith)
                requires
                    0 <= i,
                    i + 1 <= index_count,
                    0 <= size,
            ;
        }
        let at: usize = (start + i as u128 * size as u128) as usize;
        let vertex_index: i64 = read_index(index_bytes, at, format) as i64 + base_vertex as i64;
        assert(indices[i as int] == vertex_index);
        if vertex_index < 0 {
            break;
        }
        match decode_vertex(bytes, offset, vertex_index as u64, info) {
            Ok(vertex) => {
                vertices.push(vertex);
            },
            Err(_) => {
                break;
            },
        }
        i = i + 1;
    }
    if i < index_count {
        assert(decoded(bytes@, offset, indices, info) is None);
        return Err(IrSubmitError::InvalidVertexData);
    }
    proof {
        let whole = decoded(bytes@, offset, indices, info);
        assert(whole is Some);
        assert(crate::driver::vertex_views(vertices@) =~= whole->0);
    }
    Ok(vertices)
}

impl ActivePass {
    /// Return the bound state of a draw.
    ///
    /// Names what is not set, fails as looking up the bound resources does, and
    /// returns `Error::AttachmentFeedback` when the pass would sample its own
    /// attachment.
    pub fn draw_state(&self, table: &ResourceTable) -> (r: Result<DrawState, IrSubmitError>)
        ensures
            r == self@.draw_state(table@),
    {
        let pipeline: RenderPipelineRef = match self.pipeline {
            Some(pipeline) => pipeline,
            None => {
                return Err(IrSubmitError::InvalidIr(Error::PipelineNotSet));
            },
        };
        let info: PipelineInfo = match pipeline_info(table, pipeline) {
            Ok(info) => info,
            Err(error) => {
                return Err(error);
            },
        };
        let (buffer, offset) = match self.vertex_buffer {
            Some(bound) => bound,
            None => {
                return Err(IrSubmitError::InvalidIr(Error::VertexBufferNotSet));
            },
        };
        let uniforms: DrawUniforms = match self.uniforms {
            Some(uniforms) => uniforms,
            None => {
                return Err(IrSubmitError::InvalidIr(Error::UniformsNotSet));
            },
        };
        let (texture, sampler) = match texture_binding(table, info, self.texture, self.sampler) {
            Ok(binding) => binding,
            Err(error) => {
                return Err(error);
            },
        };
        match self.texture {
            Some(bound) => {
                if bound == self.attachment {
                    return Err(IrSubmitError::InvalidIr(Error::AttachmentFeedback));
                }
            },
            None => {},
        }
        Ok(DrawState { info, buffer, offset, uniforms, texture, sampler })
    }

    /// Return the area that a draw may change.
    fn draw_area(&self) -> (r: IrRect)
        ensures
            r == self@.draw_area(),
    {
        match self.scissor {
            Some(rectangle) => ir_rect(rectangle),
            None => self.submission.render_area,
        }
    }

    /// Append a draw of decoded vertices.
    ///
    /// Fails with `UnsupportedIrFeature::CommandStream` past the vertices that one
    /// pass may hold.
    pub fn append_draw(self, state: DrawState, decoded: Vec<IrVertex>, memory: Memory) -> (r:
        Result<Self, IrSubmitError>)
        ensures
            fulfilled(
                pass_outcome(r),
                self@.append_draw(state, crate::driver::vertex_views(decoded@)),
                self@.append_draw(state, crate::driver::vertex_views(decoded@)) is Ok,
                memory,
            ),
    {
        let mut pass: ActivePass = self;
        let scissor: IrRect = pass.draw_area();
        let start_vertex: usize = pass.submission.vertices.len();
        let vertex_count: usize = decoded.len();
        if start_vertex > MAX_IR_VERTICES || vertex_count > MAX_IR_VERTICES - start_vertex {
            return Err(IrSubmitError::Unsupported(UnsupportedIrFeature::CommandStream));
        }
        if !memory.reserve(&mut pass.submission.vertices, vertex_count) {
            return Err(IrSubmitError::OutOfMemory);
        }
        if !memory.reserve(&mut pass.submission.draws, 1) {
            return Err(IrSubmitError::OutOfMemory);
        }
        let ghost vertices_before = pass.submission.vertices@;
        let ghost draws_before = pass.submission.draws@;
        let mut i: usize = 0;
        let mut vertices: Vec<IrVertex> = pass.submission.vertices;
        while i < decoded.len()
            invariant
                i <= decoded@.len(),
                vertices@ == vertices_before + decoded@.take(i as int),
            decreases decoded.len() - i,
        {
            proof {
                assert(decoded@.take(i + 1) =~= decoded@.take(i as int).push(decoded@[i as int]));
                assert(vertices_before + decoded@.take(i + 1) =~= vertices@.push(
                    decoded@[i as int],
                ));
            }
            vertices.push(decoded[i]);
            i = i + 1;
        }
        assert(decoded@.take(i as int) =~= decoded@);
        pass.submission.vertices = vertices;
        let draw = IrDraw {
            start_vertex,
            vertex_count,
            pipeline: state.info.state,
            texture: state.texture,
            sampler: state.sampler,
            uniforms: uniform_state(state.uniforms),
            scissor,
        };
        pass.submission.draws.push(draw);
        proof {
            assert(crate::driver::vertex_views(pass.submission.vertices@)
                =~= crate::driver::vertex_views(vertices_before) + crate::driver::vertex_views(
                decoded@,
            ));
            assert(crate::driver::draw_views(pass.submission.draws@)
                =~= crate::driver::draw_views(draws_before).push(draw@));
        }
        Ok(pass)
    }

    /// Draw consecutive vertices.
    pub fn draw(
        self,
        resources: &IrResources,
        pending: &PendingBuffers,
        table: &ResourceTable,
        first_vertex: u32,
        vertex_count: u32,
        memory: Memory,
    ) -> (r: Result<Self, IrSubmitError>)
        ensures
            fulfilled(
                pass_outcome(r),
                self@.draw(resources@, pending@, table@, first_vertex, vertex_count),
                self@.draw_reserves(resources@, pending@, table@, first_vertex, vertex_count),
                memory,
            ),
    {
        let state: DrawState = match self.draw_state(table) {
            Ok(state) => state,
            Err(error) => {
                return Err(error);
            },
        };
        match decode_vertices(
            resources,
            pending,
            table,
            &state,
            first_vertex,
            vertex_count,
            memory,
        ) {
            Ok(vertices) => self.append_draw(state, vertices, memory),
            Err(error) => Err(error),
        }
    }

    /// Draw the vertices that the index buffer selects.
    pub fn draw_indexed(
        self,
        resources: &IrResources,
        pending: &PendingBuffers,
        table: &ResourceTable,
        first_index: u32,
        index_count: u32,
        base_vertex: i32,
        memory: Memory,
    ) -> (r: Result<Self, IrSubmitError>)
        ensures
            fulfilled(
                pass_outcome(r),
                self@.draw_indexed(
                    resources@,
                    pending@,
                    table@,
                    first_index,
                    index_count,
                    base_vertex,
                ),
                self@.draw_indexed_reserves(
                    resources@,
                    pending@,
                    table@,
                    first_index,
                    index_count,
                    base_vertex,
                ),
                memory,
            ),
    {
        if index_count == 0 || index_count % 3 != 0 {
            return Err(IrSubmitError::InvalidVertexData);
        }
        let state: DrawState = match self.draw_state(table) {
            Ok(state) => state,
            Err(error) => {
                return Err(error);
            },
        };
        let index_buffer: (BufferRef, u64, IndexFormat) = match self.index_buffer {
            Some(index_buffer) => index_buffer,
            None => {
                return Err(IrSubmitError::InvalidIr(Error::IndexBufferNotSet));
            },
        };
        match decode_indexed_draw_vertices(
            resources,
            pending,
            table,
            &state,
            index_buffer,
            first_index,
            index_count,
            base_vertex,
            memory,
        ) {
            Ok(vertices) => self.append_draw(state, vertices, memory),
            Err(error) => Err(error),
        }
    }
}

} // verus!
