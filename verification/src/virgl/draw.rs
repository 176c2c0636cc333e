//! The built-in pipeline of colored triangles in clip space.

use crate::driver::{HandleError, IrCullMode, IrFrontFace};
use crate::virgl::composition::{COMPOSITION_VERTEX_BYTES, MAX_COMPOSITION_OPERATIONS};
use crate::virgl::encoding::rasterizer_flags;
use crate::virgl::protocol::{
    push_bind_object, push_bind_shader, push_blend, push_clear, push_draw_vbo, push_framebuffer,
    push_inline_write, push_rasterizer, push_shader, push_surface, push_two_vertex_elements,
    push_vertex_buffer, push_viewport, push_words, FORMAT_R32G32B32_FLOAT, OBJECT_BLEND,
    OBJECT_RASTERIZER, OBJECT_VERTEX_ELEMENTS, SHADER_FRAGMENT, SHADER_VERTEX,
};
use crate::virgl::shaders::{FRAGMENT_SHADER, VERTEX_SHADER};
use crate::virgl::state::{resource_id_from_token, Context, Image, Queue};
use vstd::prelude::*;

verus! {

pub const SURFACE_HANDLE: u32 = 1;
pub const VERTEX_SHADER_HANDLE: u32 = 2;
pub const FRAGMENT_SHADER_HANDLE: u32 = 3;
pub const VERTEX_ELEMENTS_HANDLE: u32 = 4;
pub const BLEND_HANDLE: u32 = 5;
pub const RASTERIZER_HANDLE: u32 = 6;

/// Blend state that writes all channels without blending.
pub const OPAQUE_BLEND_STATE: u32 = 0x7800_0000;

/// Bytes of one vertex.
pub const VERTEX_BYTES: u32 = 28;

/// Words of one vertex.
pub const VERTEX_WORDS: usize = 7;

/// A vertex in clip space with a color.
#[derive(Debug, Clone, Copy, PartialEq, Eq)]
pub struct VertexClip4Color3 {
    /// Homogeneous clip position.
    pub clip_position: [u32; 4],
    /// Red, green, blue.
    pub color: [u32; 3],
}

/// The components of vertices, one vertex after the other.
pub open spec fn vertex_words(vertices: Seq<VertexClip4Color3>) -> Seq<u32>
    decreases vertices.len(),
{
    if vertices.len() == 0 {
        Seq::empty()
    } else {
        vertex_words(vertices.drop_last()) + vertices.last().clip_position@
            + vertices.last().color@
    }
}

/// The pipeline of an image.
#[derive(Debug, Clone, Copy, PartialEq, Eq, Structural)]
pub struct Pipeline {
    /// Image that it draws on.
    pub target_resource_id: u32,
    /// Buffer for its vertices.
    pub vertex_resource_id: u32,
    /// Context that it belongs to.
    pub context_handle: i32,
    /// Vertices that the buffer holds.
    pub max_vertices: usize,
    /// Culled faces.
    pub cull_mode: IrCullMode,
    /// Winding of front faces.
    pub front_face: IrFrontFace,
    /// Whether its objects exist.
    pub initialized: bool,
}

impl Context {
    /// Return the bytes of the vertex buffer of a pipeline on an image.
    ///
    /// Fails with `HandleError::InvalidParameter` for an image of another context,
    /// without vertices, and when the bytes cannot be counted.
    pub fn pipeline_buffer_bytes(&self, image: &Image, max_vertices: usize) -> (r: Result<
        u64,
        HandleError,
    >)
        ensures
            r == (if image.context_handle != self.handle || max_vertices == 0 || max_vertices
                * VERTEX_BYTES > usize::MAX {
                Err(HandleError::InvalidParameter)
            } else {
                Ok((max_vertices * VERTEX_BYTES) as u64)
            }),
    {
        if image.context_handle != self.handle || max_vertices == 0 || max_vertices > usize::MAX
            / VERTEX_BYTES as usize {
            return Err(HandleError::InvalidParameter);
        }
        Ok((max_vertices * VERTEX_BYTES as usize) as u64)
    }

    /// Describe a pipeline whose vertex buffer was attached under a token.
    pub fn register_pipeline(
        &self,
        image: &Image,
        token: u64,
        max_vertices: usize,
        cull_mode: IrCullMode,
        front_face: IrFrontFace,
    ) -> (r: Result<Pipeline, HandleError>)
        ensures
            r == (match crate::virgl::state::spec_resource_id(token) {
                Err(error) => Err(error),
                Ok(vertex_resource_id) => Ok(
                    Pipeline {
                        target_resource_id: image.resource_id,
                        vertex_resource_id,
                        context_handle: self.handle,
                        max_vertices,
                        cull_mode,
                        front_face,
                        initialized: false,
                    },
                ),
            }),
    {
        match resource_id_from_token(token) {
            Err(error) => Err(error),
            Ok(vertex_resource_id) => Ok(
                Pipeline {
                    target_resource_id: image.resource_id,
                    vertex_resource_id,
                    context_handle: self.handle,
                    max_vertices,
                    cull_mode,
                    front_face,
                    initialized: false,
                },
            ),
        }
    }

    /// Return the bytes of the vertex buffer of compositions.
    pub fn queue_buffer_bytes() -> (r: u64)
        ensures
            r == MAX_COMPOSITION_OPERATIONS * 6 * COMPOSITION_VERTEX_BYTES,
    {
        (MAX_COMPOSITION_OPERATIONS * 6) as u64 * COMPOSITION_VERTEX_BYTES as u64
    }

    /// Describe a queue whose vertex buffer was attached under a token.
    pub fn register_queue(&self, token: u64) -> (r: Result<Queue, HandleError>)
        ensures
            r == (match crate::virgl::state::spec_resource_id(token) {
                Err(error) => Err(error),
                Ok(composition_vertex_resource_id) => Ok(
                    Queue {
                        context_handle: self.handle,
                        composition_vertex_resource_id,
                        composition_initialized: false,
                    },
                ),
            }),
    {
        match resource_id_from_token(token) {
            Err(error) => Err(error),
            Ok(composition_vertex_resource_id) => Ok(
                Queue {
                    context_handle: self.handle,
                    composition_vertex_resource_id,
                    composition_initialized: false,
                },
            ),
        }
    }
}

/// Create and bind the objects of a pipeline.
pub open spec fn setup_words(pipeline: Pipeline) -> Seq<u32> {
    crate::virgl::protocol::surface_words(SURFACE_HANDLE, pipeline.target_resource_id)
        + crate::virgl::protocol::blend_words(BLEND_HANDLE, OPAQUE_BLEND_STATE)
        + crate::virgl::protocol::bind_object_words(OBJECT_BLEND, BLEND_HANDLE)
        + crate::virgl::protocol::rasterizer_words(
        RASTERIZER_HANDLE,
        rasterizer_flags(pipeline.cull_mode, pipeline.front_face),
    ) + crate::virgl::protocol::bind_object_words(OBJECT_RASTERIZER, RASTERIZER_HANDLE)
        + crate::virgl::protocol::shader_words(
        VERTEX_SHADER_HANDLE,
        SHADER_VERTEX,
        vstd::utf8::encode_utf8(VERTEX_SHADER@),
    ) + crate::virgl::protocol::bind_shader_words(VERTEX_SHADER_HANDLE, SHADER_VERTEX)
        + crate::virgl::protocol::shader_words(
        FRAGMENT_SHADER_HANDLE,
        SHADER_FRAGMENT,
        vstd::utf8::encode_utf8(FRAGMENT_SHADER@),
    ) + crate::virgl::protocol::bind_shader_words(FRAGMENT_SHADER_HANDLE, SHADER_FRAGMENT)
        + crate::virgl::protocol::two_vertex_elements_words(
        VERTEX_ELEMENTS_HANDLE,
        FORMAT_R32G32B32_FLOAT,
    ) + crate::virgl::protocol::bind_object_words(OBJECT_VERTEX_ELEMENTS, VERTEX_ELEMENTS_HANDLE)
        + crate::virgl::protocol::framebuffer_words(SURFACE_HANDLE)
        + crate::virgl::protocol::vertex_buffer_words(VERTEX_BYTES, pipeline.vertex_resource_id)
}

/// Encode the words that create and bind the objects of a pipeline.
pub fn build_setup_commands(pipeline: &Pipeline) -> (r: Vec<u32>)
    ensures
        r@ == setup_words(*pipeline),
{
    let mut commands: Vec<u32> = Vec::with_capacity(512);
    push_surface(&mut commands, SURFACE_HANDLE, pipeline.target_resource_id);
    push_blend(&mut commands, BLEND_HANDLE, OPAQUE_BLEND_STATE);
    push_bind_object(&mut commands, OBJECT_BLEND, BLEND_HANDLE);
    push_rasterizer(
        &mut commands,
        RASTERIZER_HANDLE,
        rasterizer_flags(pipeline.cull_mode, pipeline.front_face),
    );
    push_bind_object(&mut commands, OBJECT_RASTERIZER, RASTERIZER_HANDLE);
    push_shader(&mut commands, VERTEX_SHADER_HANDLE, SHADER_VERTEX, VERTEX_SHADER);
    push_bind_shader(&mut commands, VERTEX_SHADER_HANDLE, SHADER_VERTEX);
    push_shader(&mut commands, FRAGMENT_SHADER_HANDLE, SHADER_FRAGMENT, FRAGMENT_SHADER);
    push_bind_shader(&mut commands, FRAGMENT_SHADER_HANDLE, SHADER_FRAGMENT);
    push_two_vertex_elements(&mut commands, VERTEX_ELEMENTS_HANDLE, FORMAT_R32G32B32_FLOAT);
    push_bind_object(&mut commands, OBJECT_VERTEX_ELEMENTS, VERTEX_ELEMENTS_HANDLE);
    push_framebuffer(&mut commands, SURFACE_HANDLE);
    push_vertex_buffer(&mut commands, VERTEX_BYTES, pipeline.vertex_resource_id);
    assert(commands@ =~= setup_words(*pipeline));
    commands
}

/// Bind the objects of a pipeline.
pub open spec fn legacy_bind_words(vertex_resource_id: u32) -> Seq<u32> {
    crate::virgl::protocol::bind_object_words(OBJECT_BLEND, BLEND_HANDLE)
        + crate::virgl::protocol::bind_object_words(OBJECT_RASTERIZER, RASTERIZER_HANDLE)
        + crate::virgl::protocol::bind_shader_words(VERTEX_SHADER_HANDLE, SHADER_VERTEX)
        + crate::virgl::protocol::bind_shader_words(FRAGMENT_SHADER_HANDLE, SHADER_FRAGMENT)
        + crate::virgl::protocol::bind_object_words(OBJECT_VERTEX_ELEMENTS, VERTEX_ELEMENTS_HANDLE)
        + crate::virgl::protocol::framebuffer_words(SURFACE_HANDLE)
        + crate::virgl::protocol::vertex_buffer_words(VERTEX_BYTES, vertex_resource_id)
}

/// Append the words that bind the objects of a pipeline.
pub fn push_legacy_bind_state(commands: &mut Vec<u32>, vertex_resource_id: u32)
    ensures
        final(commands)@ == old(commands)@ + legacy_bind_words(vertex_resource_id),
{
    let ghost before = commands@;
    push_bind_object(commands, OBJECT_BLEND, BLEND_HANDLE);
    push_bind_object(commands, OBJECT_RASTERIZER, RASTERIZER_HANDLE);
    push_bind_shader(commands, VERTEX_SHADER_HANDLE, SHADER_VERTEX);
    push_bind_shader(commands, FRAGMENT_SHADER_HANDLE, SHADER_FRAGMENT);
    push_bind_object(commands, OBJECT_VERTEX_ELEMENTS, VERTEX_ELEMENTS_HANDLE);
    push_framebuffer(commands, SURFACE_HANDLE);
    push_vertex_buffer(commands, VERTEX_BYTES, vertex_resource_id);
    assert(commands@ =~= before + legacy_bind_words(vertex_resource_id));
}

/// Whether vertices can be drawn on an image with its pipeline.
pub open spec fn drawable(
    queue: Queue,
    image: Image,
    viewport_width: u32,
    viewport_height: u32,
    pipeline: Pipeline,
    vertex_count: nat,
) -> bool {
    &&& image.context_handle == queue.context_handle
    &&& pipeline.context_handle == queue.context_handle
    &&& pipeline.target_resource_id == image.resource_id
    &&& viewport_width != 0
    &&& viewport_height != 0
    &&& vertex_count != 0
    &&& vertex_count <= pipeline.max_vertices
    &&& vertex_count % 3 == 0
    &&& vertex_count * VERTEX_BYTES <= u32::MAX
}

/// The words that clear an image and draw vertices on it.
pub open spec fn submit_words(
    pipeline: Pipeline,
    viewport_width: u32,
    viewport_height: u32,
    clear_color: Seq<u32>,
    vertices: Seq<VertexClip4Color3>,
) -> Seq<u32> {
    (if pipeline.initialized {
        Seq::empty()
    } else {
        setup_words(pipeline)
    }) + legacy_bind_words(pipeline.vertex_resource_id) + crate::virgl::protocol::viewport_words(
        viewport_width,
        viewport_height,
    ) + crate::virgl::protocol::inline_write_words(
        pipeline.vertex_resource_id,
        vertex_words(vertices),
    ) + crate::virgl::protocol::clear_words(clear_color) + crate::virgl::protocol::draw_vbo_words(
        0,
        vertices.len() as u32,
    )
}

fn collect_vertices(vertices: &[VertexClip4Color3]) -> (r: Vec<u32>)
    ensures
        r@ == vertex_words(vertices@),
        r@.len() == VERTEX_WORDS * vertices@.len(),
{
    let mut words: Vec<u32> = Vec::new();
    let mut i: usize = 0;
    assert(vertices@.take(0) =~= Seq::<VertexClip4Color3>::empty());
    while i < vertices.len()
        invariant
            i <= vertices@.len(),
            words@ == vertex_words(vertices@.take(i as int)),
            words@.len() == VERTEX_WORDS * i,
        decreases vertices.len() - i,
    {
        let vertex: VertexClip4Color3 = vertices[i];
        proof {
            assert(vertices@.take(i + 1).drop_last() =~= vertices@.take(i as int));
            assert(vertices@.take(i + 1).last() == vertex);
        }
        push_words(&mut words, &vertex.clip_position);
        push_words(&mut words, &vertex.color);
        i = i + 1;
    }
    assert(vertices@.take(i as int) =~= vertices@);
    words
}

impl Queue {
    /// Encode a clear and a draw of colored triangles on an image.
    ///
    /// Fails with `HandleError::InvalidParameter` for an image or pipeline of
    /// another context, a pipeline of another image, an empty viewport, a partial
    /// triangle, and for none or too many vertices.
    pub fn submit(
        &self,
        image: &Image,
        viewport_width: u32,
        viewport_height: u32,
        clear_color: [u32; 4],
        pipeline: &Pipeline,
        vertices: &[VertexClip4Color3],
    ) -> (r: Result<Vec<u32>, HandleError>)
        ensures
            match r {
                Ok(words) => drawable(
                    *self,
                    *image,
                    viewport_width,
                    viewport_height,
                    *pipeline,
                    vertices@.len(),
                ) && words@ == submit_words(
                    *pipeline,
                    viewport_width,
                    viewport_height,
                    clear_color@,
                    vertices@,
                ),
                Err(error) => error == HandleError::InvalidParameter && !drawable(
                    *self,
                    *image,
                    viewport_width,
                    viewport_height,
                    *pipeline,
                    vertices@.len(),
                ),
            },
    {
        if image.context_handle != self.context_handle || pipeline.context_handle
            != self.context_handle || pipeline.target_resource_id != image.resource_id
            || viewport_width == 0 || viewport_height == 0 || vertices.len() == 0 || vertices.len()
            > pipeline.max_vertices || vertices.len() % 3 != 0 || vertices.len() as u64 > (u32::MAX
            / VERTEX_BYTES) as u64 {
            return Err(HandleError::InvalidParameter);
        }
        let mut commands: Vec<u32> = if !pipeline.initialized {
            build_setup_commands(pipeline)
        } else {
            Vec::with_capacity(512)
        };
        push_legacy_bind_state(&mut commands, pipeline.vertex_resource_id);
        push_viewport(&mut commands, viewport_width, viewport_height);
        let words: Vec<u32> = collect_vertices(vertices);
        let written: bool = push_inline_write(
            &mut commands,
            pipeline.vertex_resource_id,
            words.as_slice(),
        );
        assert(written);
        push_clear(&mut commands, clear_color);
        push_draw_vbo(&mut commands, 0, vertices.len() as u32);
        assert(commands@ =~= submit_words(
            *pipeline,
            viewport_width,
            viewport_height,
            clear_color@,
            vertices@,
        ));
        Ok(commands)
    }
}

} // verus!
