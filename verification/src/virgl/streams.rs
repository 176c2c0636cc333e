//! Streams as a whole: every encoded stream is a sequence of whole commands.

use crate::driver::{
    DrawView, IrSubmission, IrTextureCopy, IrTextureSpec, SubmissionView, UploadView, VertexView,
    MAX_IR_VERTICES,
};
use crate::virgl::composition::{
    CompositionOperation, SourceAlpha, COMPOSITION_BLEND_HANDLE, COMPOSITION_BLEND_STATE,
    COMPOSITION_RASTERIZER_FLAGS, COMPOSITION_RASTERIZER_HANDLE, COMPOSITION_SAMPLER_STATE,
    COMPOSITION_SAMPLER_STATE_HANDLE, COMPOSITION_SOLID_SHADER_HANDLE,
    COMPOSITION_TEXTURE_ALPHA_SHADER_HANDLE, COMPOSITION_TEXTURE_OPAQUE_SHADER_HANDLE,
    COMPOSITION_VERTEX_BYTES, COMPOSITION_VERTEX_ELEMENTS_HANDLE,
    COMPOSITION_VERTEX_SHADER_HANDLE, MAX_COMPOSITION_OPERATIONS,
};
use crate::virgl::draw::{
    Pipeline, VertexClip4Color3, BLEND_HANDLE, FRAGMENT_SHADER_HANDLE, OPAQUE_BLEND_STATE,
    RASTERIZER_HANDLE, SURFACE_HANDLE, VERTEX_BYTES, VERTEX_ELEMENTS_HANDLE, VERTEX_SHADER_HANDLE,
    VERTEX_WORDS,
};
use crate::virgl::protocol::{
    FORMAT_R32G32B32A32_FLOAT, FORMAT_R32G32B32_FLOAT, OBJECT_BLEND, OBJECT_RASTERIZER,
    OBJECT_VERTEX_ELEMENTS, SHADER_FRAGMENT, SHADER_VERTEX,
};
use crate::virgl::resources::{DeviceView, IrPipeline, ProgramHandles};
use crate::virgl::shaders::{
    COMPOSITION_SOLID_SHADER, COMPOSITION_TEXTURE_ALPHA_SHADER, COMPOSITION_TEXTURE_OPAQUE_SHADER,
    COMPOSITION_VERTEX_SHADER, FRAGMENT_SHADER, IR_SOLID_FRAGMENT_SHADER,
    IR_TEXTURE_ALPHA_MASK_FRAGMENT_SHADER, IR_TEXTURE_RGBA_FRAGMENT_SHADER,
    IR_TEXTURE_RGB_IGNORE_ALPHA_FRAGMENT_SHADER, IR_VERTEX_COLOR_FRAGMENT_SHADER, IR_VERTEX_SHADER,
    VERTEX_SHADER,
};
use crate::virgl::state::{Context, Image, Queue};
use crate::virgl::target::{IrPassTarget, PreparationView, IR_VERTEX_BYTES};
use vstd::prelude::*;

verus! {

/// Creating the objects of compositions is a sequence of whole commands.
proof fn lemma_composition_setup_framed()
    ensures
        crate::virgl::protocol::framed(crate::virgl::composition::composition_setup_words()),
{
    crate::virgl::protocol::lemma_blend_framed(COMPOSITION_BLEND_HANDLE, COMPOSITION_BLEND_STATE);
    let stream0 = crate::virgl::protocol::blend_words(
        COMPOSITION_BLEND_HANDLE,
        COMPOSITION_BLEND_STATE,
    );
    crate::virgl::protocol::lemma_rasterizer_framed(
        COMPOSITION_RASTERIZER_HANDLE,
        COMPOSITION_RASTERIZER_FLAGS,
    );
    let part1 = crate::virgl::protocol::rasterizer_words(
        COMPOSITION_RASTERIZER_HANDLE,
        COMPOSITION_RASTERIZER_FLAGS,
    );
    crate::virgl::protocol::law_framed_concatenation(stream0, part1);
    let stream1 = stream0 + part1;
    crate::virgl::shaders::lemma_composition_vertex_shader_length();
    crate::virgl::protocol::lemma_shader_framed(
        COMPOSITION_VERTEX_SHADER_HANDLE,
        SHADER_VERTEX,
        vstd::utf8::encode_utf8(COMPOSITION_VERTEX_SHADER@),
    );
    let part2 = crate::virgl::protocol::shader_words(
        COMPOSITION_VERTEX_SHADER_HANDLE,
        SHADER_VERTEX,
        vstd::utf8::encode_utf8(COMPOSITION_VERTEX_SHADER@),
    );
    crate::virgl::protocol::law_framed_concatenation(stream1, part2);
    let stream2 = stream1 + part2;
    crate::virgl::shaders::lemma_composition_texture_alpha_shader_length();
    crate::virgl::protocol::lemma_shader_framed(
        COMPOSITION_TEXTURE_ALPHA_SHADER_HANDLE,
        SHADER_FRAGMENT,
        vstd::utf8::encode_utf8(COMPOSITION_TEXTURE_ALPHA_SHADER@),
    );
    let part3 = crate::virgl::protocol::shader_words(
        COMPOSITION_TEXTURE_ALPHA_SHADER_HANDLE,
        SHADER_FRAGMENT,
        vstd::utf8::encode_utf8(COMPOSITION_TEXTURE_ALPHA_SHADER@),
    );
    crate::virgl::protocol::law_framed_concatenation(stream2, part3);
    let stream3 = stream2 + part3;
    crate::virgl::shaders::lemma_composition_texture_opaque_shader_length();
    crate::virgl::protocol::lemma_shader_framed(
        COMPOSITION_TEXTURE_OPAQUE_SHADER_HANDLE,
        SHADER_FRAGMENT,
        vstd::utf8::encode_utf8(COMPOSITION_TEXTURE_OPAQUE_SHADER@),
    );
    let part4 = crate::virgl::protocol::shader_words(
        COMPOSITION_TEXTURE_OPAQUE_SHADER_HANDLE,
        SHADER_FRAGMENT,
        vstd::utf8::encode_utf8(COMPOSITION_TEXTURE_OPAQUE_SHADER@),
    );
    crate::virgl::protocol::law_framed_concatenation(stream3, part4);
    let stream4 = stream3 + part4;
    crate::virgl::shaders::lemma_composition_solid_shader_length();
    crate::virgl::protocol::lemma_shader_framed(
        COMPOSITION_SOLID_SHADER_HANDLE,
        SHADER_FRAGMENT,
        vstd::utf8::encode_utf8(COMPOSITION_SOLID_SHADER@),
    );
    let part5 = crate::virgl::protocol::shader_words(
        COMPOSITION_SOLID_SHADER_HANDLE,
        SHADER_FRAGMENT,
        vstd::utf8::encode_utf8(COMPOSITION_SOLID_SHADER@),
    );
    crate::virgl::protocol::law_framed_concatenation(stream4, part5);
    let stream5 = stream4 + part5;
    crate::virgl::protocol::lemma_composition_vertex_elements_framed(
        COMPOSITION_VERTEX_ELEMENTS_HANDLE,
    );
    let part6 = crate::virgl::protocol::composition_vertex_elements_words(
        COMPOSITION_VERTEX_ELEMENTS_HANDLE,
    );
    crate::virgl::protocol::law_framed_concatenation(stream5, part6);
    let stream6 = stream5 + part6;
    crate::virgl::protocol::lemma_sampler_state_framed(
        COMPOSITION_SAMPLER_STATE_HANDLE,
        COMPOSITION_SAMPLER_STATE,
    );
    let part7 = crate::virgl::protocol::sampler_state_words(
        COMPOSITION_SAMPLER_STATE_HANDLE,
        COMPOSITION_SAMPLER_STATE,
    );
    crate::virgl::protocol::law_framed_concatenation(stream6, part7);
    let stream7 = stream6 + part7;
}

/// Binding the objects of compositions is a sequence of whole commands.
proof fn lemma_composition_bind_framed(surface_handle: u32, vertex_resource_id: u32)
    ensures
        crate::virgl::protocol::framed(
            crate::virgl::composition::composition_bind_words(surface_handle, vertex_resource_id),
        ),
{
    crate::virgl::protocol::lemma_bind_object_framed(OBJECT_BLEND, COMPOSITION_BLEND_HANDLE);
    let stream0 = crate::virgl::protocol::bind_object_words(OBJECT_BLEND, COMPOSITION_BLEND_HANDLE);
    crate::virgl::protocol::lemma_bind_object_framed(
        OBJECT_RASTERIZER,
        COMPOSITION_RASTERIZER_HANDLE,
    );
    let part1 = crate::virgl::protocol::bind_object_words(
        OBJECT_RASTERIZER,
        COMPOSITION_RASTERIZER_HANDLE,
    );
    crate::virgl::protocol::law_framed_concatenation(stream0, part1);
    let stream1 = stream0 + part1;
    crate::virgl::protocol::lemma_bind_shader_framed(
        COMPOSITION_VERTEX_SHADER_HANDLE,
        SHADER_VERTEX,
    );
    let part2 = crate::virgl::protocol::bind_shader_words(
        COMPOSITION_VERTEX_SHADER_HANDLE,
        SHADER_VERTEX,
    );
    crate::virgl::protocol::law_framed_concatenation(stream1, part2);
    let stream2 = stream1 + part2;
    crate::virgl::protocol::lemma_bind_object_framed(
        OBJECT_VERTEX_ELEMENTS,
        COMPOSITION_VERTEX_ELEMENTS_HANDLE,
    );
    let part3 = crate::virgl::protocol::bind_object_words(
        OBJECT_VERTEX_ELEMENTS,
        COMPOSITION_VERTEX_ELEMENTS_HANDLE,
    );
    crate::virgl::protocol::law_framed_concatenation(stream2, part3);
    let stream3 = stream2 + part3;
    crate::virgl::protocol::lemma_framebuffer_framed(surface_handle);
    let part4 = crate::virgl::protocol::framebuffer_words(surface_handle);
    crate::virgl::protocol::law_framed_concatenation(stream3, part4);
    let stream4 = stream3 + part4;
    crate::virgl::protocol::lemma_vertex_buffer_framed(
        COMPOSITION_VERTEX_BYTES,
        vertex_resource_id,
    );
    let part5 = crate::virgl::protocol::vertex_buffer_words(
        COMPOSITION_VERTEX_BYTES,
        vertex_resource_id,
    );
    crate::virgl::protocol::law_framed_concatenation(stream4, part5);
    let stream5 = stream4 + part5;
    crate::virgl::protocol::lemma_sampler_state_binding_framed(COMPOSITION_SAMPLER_STATE_HANDLE);
    let part6 = crate::virgl::protocol::sampler_state_binding_words(
        COMPOSITION_SAMPLER_STATE_HANDLE,
    );
    crate::virgl::protocol::law_framed_concatenation(stream5, part6);
    let stream6 = stream5 + part6;
}

/// Drawing an operation is a sequence of whole commands.
proof fn lemma_operation_framed(
    operation: CompositionOperation,
    image: Image,
    created: Seq<u32>,
    start_vertex: u32,
)
    ensures
        crate::virgl::protocol::framed(
            crate::virgl::composition::operation_words(operation, image, created, start_vertex),
        ),
{
    let clip = crate::virgl::protocol::scissor_words(operation.clip_area(image));
    let drawn = crate::virgl::protocol::draw_vbo_words(start_vertex, 6);
    crate::virgl::protocol::lemma_scissor_framed(operation.clip_area(image));
    crate::virgl::protocol::lemma_draw_vbo_framed(start_vertex, 6);
    match operation {
        CompositionOperation::Textured { texture, source_alpha, .. } => {
            let view = if texture.sampler_view_initialized || created.contains(
                texture.sampler_view_handle,
            ) {
                Seq::<u32>::empty()
            } else {
                crate::virgl::protocol::sampler_view_words(
                    texture.sampler_view_handle,
                    texture.resource_id,
                )
            };
            let shader = match source_alpha {
                SourceAlpha::Respect => COMPOSITION_TEXTURE_ALPHA_SHADER_HANDLE,
                SourceAlpha::Ignore => COMPOSITION_TEXTURE_OPAQUE_SHADER_HANDLE,
            };
            let program = crate::virgl::protocol::bind_shader_words(shader, SHADER_FRAGMENT);
            let binding = crate::virgl::protocol::sampler_view_binding_words(
                texture.sampler_view_handle,
            );
            crate::virgl::protocol::lemma_sampler_view_framed(
                texture.sampler_view_handle,
                texture.resource_id,
            );
            crate::virgl::protocol::lemma_bind_shader_framed(shader, SHADER_FRAGMENT);
            crate::virgl::protocol::lemma_sampler_view_binding_framed(texture.sampler_view_handle);
            assert(crate::virgl::protocol::framed(view));
            crate::virgl::protocol::law_framed_concatenation(view, program);
            crate::virgl::protocol::law_framed_concatenation(view + program, binding);
            crate::virgl::protocol::law_framed_concatenation(clip, view + program + binding);
            crate::virgl::protocol::law_framed_concatenation(
                clip + (view + program + binding),
                drawn,
            );
        },
        CompositionOperation::Solid { .. } => {
            let program = crate::virgl::protocol::bind_shader_words(
                COMPOSITION_SOLID_SHADER_HANDLE,
                SHADER_FRAGMENT,
            );
            crate::virgl::protocol::lemma_bind_shader_framed(
                COMPOSITION_SOLID_SHADER_HANDLE,
                SHADER_FRAGMENT,
            );
            crate::virgl::protocol::law_framed_concatenation(clip, program);
            crate::virgl::protocol::law_framed_concatenation(clip + program, drawn);
        },
    }
}

proof fn lemma_operations_framed(operations: Seq<CompositionOperation>, image: Image)
    ensures
        crate::virgl::protocol::framed(crate::virgl::composition::draw_words(operations, image)),
    decreases operations.len(),
{
    if operations.len() > 0 {
        let earlier = operations.drop_last();
        let created = crate::virgl::composition::new_views(earlier);
        let start_vertex = (6 * earlier.len()) as u32;
        lemma_operations_framed(earlier, image);
        lemma_operation_framed(operations.last(), image, created, start_vertex);
        crate::virgl::protocol::law_framed_concatenation(
            crate::virgl::composition::draw_words(earlier, image),
            crate::virgl::composition::operation_words(
                operations.last(),
                image,
                created,
                start_vertex,
            ),
        );
    }
}

/// The stream of a composition is a sequence of whole commands.
pub proof fn law_composition_streams_are_framed(
    queue: Queue,
    image: Image,
    clear_color: Seq<u32>,
    operations: Seq<CompositionOperation>,
)
    requires
        operations.len() <= MAX_COMPOSITION_OPERATIONS,
    ensures
        crate::virgl::protocol::framed(
            crate::virgl::composition::composition_words(queue, image, clear_color, operations),
        ),
{
    lemma_composition_setup_framed();
    lemma_composition_bind_framed(
        image.composition_surface_handle,
        queue.composition_vertex_resource_id,
    );
    lemma_operations_framed(operations, image);
    crate::virgl::composition::lemma_quads_length(operations, image);
    crate::virgl::protocol::lemma_surface_framed(
        image.composition_surface_handle,
        image.resource_id,
    );
    let stream0 = if queue.composition_initialized {
        Seq::<u32>::empty()
    } else {
        crate::virgl::composition::composition_setup_words()
    };
    let part1 = if image.composition_surface_initialized {
        Seq::<u32>::empty()
    } else {
        crate::virgl::protocol::surface_words(image.composition_surface_handle, image.resource_id)
    };
    crate::virgl::protocol::law_framed_concatenation(stream0, part1);
    let stream1 = stream0 + part1;
    let part2 = crate::virgl::composition::composition_bind_words(
        image.composition_surface_handle,
        queue.composition_vertex_resource_id,
    );
    crate::virgl::protocol::law_framed_concatenation(stream1, part2);
    let stream2 = stream1 + part2;
    crate::virgl::protocol::lemma_viewport_framed(image.width, image.height);
    let part3 = crate::virgl::protocol::viewport_words(image.width, image.height);
    crate::virgl::protocol::law_framed_concatenation(stream2, part3);
    let stream3 = stream2 + part3;
    crate::virgl::protocol::lemma_clear_framed(clear_color);
    let part4 = crate::virgl::protocol::clear_words(clear_color);
    crate::virgl::protocol::law_framed_concatenation(stream3, part4);
    let stream4 = stream3 + part4;
    crate::virgl::protocol::lemma_inline_write_framed(
        queue.composition_vertex_resource_id,
        crate::virgl::composition::quads(operations, image),
    );
    let part5 = if operations.len() == 0 {
        Seq::<u32>::empty()
    } else {
        crate::virgl::protocol::inline_write_words(
            queue.composition_vertex_resource_id,
            crate::virgl::composition::quads(operations, image),
        )
    };
    crate::virgl::protocol::law_framed_concatenation(stream4, part5);
    let stream5 = stream4 + part5;
    let part6 = crate::virgl::composition::draw_words(operations, image);
    crate::virgl::protocol::law_framed_concatenation(stream5, part6);
    let stream6 = stream5 + part6;
}

proof fn lemma_setup_framed(pipeline: Pipeline)
    ensures
        crate::virgl::protocol::framed(crate::virgl::draw::setup_words(pipeline)),
{
    let flags = crate::virgl::encoding::spec_rasterizer_flags(
        pipeline.cull_mode,
        pipeline.front_face,
    );
    crate::virgl::protocol::lemma_surface_framed(SURFACE_HANDLE, pipeline.target_resource_id);
    let stream0 = crate::virgl::protocol::surface_words(
        SURFACE_HANDLE,
        pipeline.target_resource_id,
    );
    crate::virgl::protocol::lemma_blend_framed(BLEND_HANDLE, OPAQUE_BLEND_STATE);
    let part1 = crate::virgl::protocol::blend_words(BLEND_HANDLE, OPAQUE_BLEND_STATE);
    crate::virgl::protocol::law_framed_concatenation(stream0, part1);
    let stream1 = stream0 + part1;
    crate::virgl::protocol::lemma_bind_object_framed(OBJECT_BLEND, BLEND_HANDLE);
    let part2 = crate::virgl::protocol::bind_object_words(OBJECT_BLEND, BLEND_HANDLE);
    crate::virgl::protocol::law_framed_concatenation(stream1, part2);
    let stream2 = stream1 + part2;
    crate::virgl::protocol::lemma_rasterizer_framed(RASTERIZER_HANDLE, flags);
    let part3 = crate::virgl::protocol::rasterizer_words(RASTERIZER_HANDLE, flags);
    crate::virgl::protocol::law_framed_concatenation(stream2, part3);
    let stream3 = stream2 + part3;
    crate::virgl::protocol::lemma_bind_object_framed(OBJECT_RASTERIZER, RASTERIZER_HANDLE);
    let part4 = crate::virgl::protocol::bind_object_words(OBJECT_RASTERIZER, RASTERIZER_HANDLE);
    crate::virgl::protocol::law_framed_concatenation(stream3, part4);
    let stream4 = stream3 + part4;
    crate::virgl::shaders::lemma_vertex_shader_length();
    crate::virgl::protocol::lemma_shader_framed(
        VERTEX_SHADER_HANDLE,
        SHADER_VERTEX,
        vstd::utf8::encode_utf8(VERTEX_SHADER@),
    );
    let part5 = crate::virgl::protocol::shader_words(
        VERTEX_SHADER_HANDLE,
        SHADER_VERTEX,
        vstd::utf8::encode_utf8(VERTEX_SHADER@),
    );
    crate::virgl::protocol::law_framed_concatenation(stream4, part5);
    let stream5 = stream4 + part5;
    crate::virgl::protocol::lemma_bind_shader_framed(VERTEX_SHADER_HANDLE, SHADER_VERTEX);
    let part6 = crate::virgl::protocol::bind_shader_words(VERTEX_SHADER_HANDLE, SHADER_VERTEX);
    crate::virgl::protocol::law_framed_concatenation(stream5, part6);
    let stream6 = stream5 + part6;
    crate::virgl::shaders::lemma_fragment_shader_length();
    crate::virgl::protocol::lemma_shader_framed(
        FRAGMENT_SHADER_HANDLE,
        SHADER_FRAGMENT,
        vstd::utf8::encode_utf8(FRAGMENT_SHADER@),
    );
    let part7 = crate::virgl::protocol::shader_words(
        FRAGMENT_SHADER_HANDLE,
        SHADER_FRAGMENT,
        vstd::utf8::encode_utf8(FRAGMENT_SHADER@),
    );
    crate::virgl::protocol::law_framed_concatenation(stream6, part7);
    let stream7 = stream6 + part7;
    crate::virgl::protocol::lemma_bind_shader_framed(FRAGMENT_SHADER_HANDLE, SHADER_FRAGMENT);
    let part8 = crate::virgl::protocol::bind_shader_words(FRAGMENT_SHADER_HANDLE, SHADER_FRAGMENT);
    crate::virgl::protocol::law_framed_concatenation(stream7, part8);
    let stream8 = stream7 + part8;
    crate::virgl::protocol::lemma_two_vertex_elements_framed(
        VERTEX_ELEMENTS_HANDLE,
        FORMAT_R32G32B32_FLOAT,
    );
    let part9 = crate::virgl::protocol::two_vertex_elements_words(
        VERTEX_ELEMENTS_HANDLE,
        FORMAT_R32G32B32_FLOAT,
    );
    crate::virgl::protocol::law_framed_concatenation(stream8, part9);
    let stream9 = stream8 + part9;
    crate::virgl::protocol::lemma_bind_object_framed(
        OBJECT_VERTEX_ELEMENTS,
        VERTEX_ELEMENTS_HANDLE,
    );
    let part10 = crate::virgl::protocol::bind_object_words(
        OBJECT_VERTEX_ELEMENTS,
        VERTEX_ELEMENTS_HANDLE,
    );
    crate::virgl::protocol::law_framed_concatenation(stream9, part10);
    let stream10 = stream9 + part10;
    crate::virgl::protocol::lemma_framebuffer_framed(SURFACE_HANDLE);
    let part11 = crate::virgl::protocol::framebuffer_words(SURFACE_HANDLE);
    crate::virgl::protocol::law_framed_concatenation(stream10, part11);
    let stream11 = stream10 + part11;
    crate::virgl::protocol::lemma_vertex_buffer_framed(VERTEX_BYTES, pipeline.vertex_resource_id);
    let part12 = crate::virgl::protocol::vertex_buffer_words(
        VERTEX_BYTES,
        pipeline.vertex_resource_id,
    );
    crate::virgl::protocol::law_framed_concatenation(stream11, part12);
    let stream12 = stream11 + part12;
}

proof fn lemma_bind_state_framed(vertex_resource_id: u32)
    ensures
        crate::virgl::protocol::framed(crate::virgl::draw::legacy_bind_words(vertex_resource_id)),
{
    crate::virgl::protocol::lemma_bind_object_framed(OBJECT_BLEND, BLEND_HANDLE);
    let stream0 = crate::virgl::protocol::bind_object_words(OBJECT_BLEND, BLEND_HANDLE);
    crate::virgl::protocol::lemma_bind_object_framed(OBJECT_RASTERIZER, RASTERIZER_HANDLE);
    let part1 = crate::virgl::protocol::bind_object_words(OBJECT_RASTERIZER, RASTERIZER_HANDLE);
    crate::virgl::protocol::law_framed_concatenation(stream0, part1);
    let stream1 = stream0 + part1;
    crate::virgl::protocol::lemma_bind_shader_framed(VERTEX_SHADER_HANDLE, SHADER_VERTEX);
    let part2 = crate::virgl::protocol::bind_shader_words(VERTEX_SHADER_HANDLE, SHADER_VERTEX);
    crate::virgl::protocol::law_framed_concatenation(stream1, part2);
    let stream2 = stream1 + part2;
    crate::virgl::protocol::lemma_bind_shader_framed(FRAGMENT_SHADER_HANDLE, SHADER_FRAGMENT);
    let part3 = crate::virgl::protocol::bind_shader_words(FRAGMENT_SHADER_HANDLE, SHADER_FRAGMENT);
    crate::virgl::protocol::law_framed_concatenation(stream2, part3);
    let stream3 = stream2 + part3;
    crate::virgl::protocol::lemma_bind_object_framed(
        OBJECT_VERTEX_ELEMENTS,
        VERTEX_ELEMENTS_HANDLE,
    );
    let part4 = crate::virgl::protocol::bind_object_words(
        OBJECT_VERTEX_ELEMENTS,
        VERTEX_ELEMENTS_HANDLE,
    );
    crate::virgl::protocol::law_framed_concatenation(stream3, part4);
    let stream4 = stream3 + part4;
    crate::virgl::protocol::lemma_framebuffer_framed(SURFACE_HANDLE);
    let part5 = crate::virgl::protocol::framebuffer_words(SURFACE_HANDLE);
    crate::virgl::protocol::law_framed_concatenation(stream4, part5);
    let stream5 = stream4 + part5;
    crate::virgl::protocol::lemma_vertex_buffer_framed(VERTEX_BYTES, vertex_resource_id);
    let part6 = crate::virgl::protocol::vertex_buffer_words(VERTEX_BYTES, vertex_resource_id);
    crate::virgl::protocol::law_framed_concatenation(stream5, part6);
    let stream6 = stream5 + part6;
}

proof fn lemma_colored_vertices_length(vertices: Seq<VertexClip4Color3>)
    ensures
        crate::virgl::draw::vertex_words(vertices).len() == VERTEX_WORDS * vertices.len(),
    decreases vertices.len(),
{
    if vertices.len() > 0 {
        lemma_colored_vertices_length(vertices.drop_last());
    }
}

/// The stream that clears an image and draws colored triangles on it is a sequence
/// of whole commands, where a header can count the words of the vertices.
pub proof fn law_triangle_streams_are_framed(
    pipeline: Pipeline,
    viewport_width: u32,
    viewport_height: u32,
    clear_color: Seq<u32>,
    vertices: Seq<VertexClip4Color3>,
)
    requires
        VERTEX_WORDS * vertices.len() <= 0xfff4,
    ensures
        crate::virgl::protocol::framed(
            crate::virgl::draw::submit_words(
                pipeline,
                viewport_width,
                viewport_height,
                clear_color,
                vertices,
            ),
        ),
{
    lemma_setup_framed(pipeline);
    lemma_bind_state_framed(pipeline.vertex_resource_id);
    lemma_colored_vertices_length(vertices);
    let stream0 = if pipeline.initialized {
        Seq::<u32>::empty()
    } else {
        crate::virgl::draw::setup_words(pipeline)
    };
    let part1 = crate::virgl::draw::legacy_bind_words(pipeline.vertex_resource_id);
    crate::virgl::protocol::law_framed_concatenation(stream0, part1);
    let stream1 = stream0 + part1;
    crate::virgl::protocol::lemma_viewport_framed(viewport_width, viewport_height);
    let part2 = crate::virgl::protocol::viewport_words(viewport_width, viewport_height);
    crate::virgl::protocol::law_framed_concatenation(stream1, part2);
    let stream2 = stream1 + part2;
    crate::virgl::protocol::lemma_inline_write_framed(
        pipeline.vertex_resource_id,
        crate::virgl::draw::vertex_words(vertices),
    );
    let part3 = crate::virgl::protocol::inline_write_words(
        pipeline.vertex_resource_id,
        crate::virgl::draw::vertex_words(vertices),
    );
    crate::virgl::protocol::law_framed_concatenation(stream2, part3);
    let stream3 = stream2 + part3;
    crate::virgl::protocol::lemma_clear_framed(clear_color);
    let part4 = crate::virgl::protocol::clear_words(clear_color);
    crate::virgl::protocol::law_framed_concatenation(stream3, part4);
    let stream4 = stream3 + part4;
    crate::virgl::protocol::lemma_draw_vbo_framed(0, vertices.len() as u32);
    let part5 = crate::virgl::protocol::draw_vbo_words(0, vertices.len() as u32);
    crate::virgl::protocol::law_framed_concatenation(stream4, part5);
    let stream5 = stream4 + part5;
}

proof fn lemma_ir_setup_framed(programs: ProgramHandles)
    ensures
        crate::virgl::protocol::framed(crate::virgl::target::ir_setup_words(programs)),
{
    crate::virgl::shaders::lemma_ir_vertex_shader_length();
    crate::virgl::protocol::lemma_shader_framed(
        programs.vertex_shader,
        SHADER_VERTEX,
        vstd::utf8::encode_utf8(IR_VERTEX_SHADER@),
    );
    let stream0 = crate::virgl::protocol::shader_words(
        programs.vertex_shader,
        SHADER_VERTEX,
        vstd::utf8::encode_utf8(IR_VERTEX_SHADER@),
    );
    crate::virgl::shaders::lemma_ir_solid_fragment_shader_length();
    crate::virgl::protocol::lemma_shader_framed(
        programs.solid_fragment_shader,
        SHADER_FRAGMENT,
        vstd::utf8::encode_utf8(IR_SOLID_FRAGMENT_SHADER@),
    );
    let part1 = crate::virgl::protocol::shader_words(
        programs.solid_fragment_shader,
        SHADER_FRAGMENT,
        vstd::utf8::encode_utf8(IR_SOLID_FRAGMENT_SHADER@),
    );
    crate::virgl::protocol::law_framed_concatenation(stream0, part1);
    let stream1 = stream0 + part1;
    crate::virgl::shaders::lemma_ir_vertex_color_fragment_shader_length();
    crate::virgl::protocol::lemma_shader_framed(
        programs.vertex_color_fragment_shader,
        SHADER_FRAGMENT,
        vstd::utf8::encode_utf8(IR_VERTEX_COLOR_FRAGMENT_SHADER@),
    );
    let part2 = crate::virgl::protocol::shader_words(
        programs.vertex_color_fragment_shader,
        SHADER_FRAGMENT,
        vstd::utf8::encode_utf8(IR_VERTEX_COLOR_FRAGMENT_SHADER@),
    );
    crate::virgl::protocol::law_framed_concatenation(stream1, part2);
    let stream2 = stream1 + part2;
    crate::virgl::shaders::lemma_ir_texture_rgba_fragment_shader_length();
    crate::virgl::protocol::lemma_shader_framed(
        programs.texture_rgba_fragment_shader,
        SHADER_FRAGMENT,
        vstd::utf8::encode_utf8(IR_TEXTURE_RGBA_FRAGMENT_SHADER@),
    );
    let part3 = crate::virgl::protocol::shader_words(
        programs.texture_rgba_fragment_shader,
        SHADER_FRAGMENT,
        vstd::utf8::encode_utf8(IR_TEXTURE_RGBA_FRAGMENT_SHADER@),
    );
    crate::virgl::protocol::law_framed_concatenation(stream2, part3);
    let stream3 = stream2 + part3;
    crate::virgl::shaders::lemma_ir_texture_rgb_ignore_alpha_fragment_shader_length();
    crate::virgl::protocol::lemma_shader_framed(
        programs.texture_rgb_ignore_alpha_fragment_shader,
        SHADER_FRAGMENT,
        vstd::utf8::encode_utf8(IR_TEXTURE_RGB_IGNORE_ALPHA_FRAGMENT_SHADER@),
    );
    let part4 = crate::virgl::protocol::shader_words(
        programs.texture_rgb_ignore_alpha_fragment_shader,
        SHADER_FRAGMENT,
        vstd::utf8::encode_utf8(IR_TEXTURE_RGB_IGNORE_ALPHA_FRAGMENT_SHADER@),
    );
    crate::virgl::protocol::law_framed_concatenation(stream3, part4);
    let stream4 = stream3 + part4;
    crate::virgl::shaders::lemma_ir_texture_alpha_mask_fragment_shader_length();
    crate::virgl::protocol::lemma_shader_framed(
        programs.texture_alpha_mask_fragment_shader,
        SHADER_FRAGMENT,
        vstd::utf8::encode_utf8(IR_TEXTURE_ALPHA_MASK_FRAGMENT_SHADER@),
    );
    let part5 = crate::virgl::protocol::shader_words(
        programs.texture_alpha_mask_fragment_shader,
        SHADER_FRAGMENT,
        vstd::utf8::encode_utf8(IR_TEXTURE_ALPHA_MASK_FRAGMENT_SHADER@),
    );
    crate::virgl::protocol::law_framed_concatenation(stream4, part5);
    let stream5 = stream4 + part5;
    crate::virgl::protocol::lemma_two_vertex_elements_framed(
        programs.vertex_elements,
        FORMAT_R32G32B32A32_FLOAT,
    );
    let part6 = crate::virgl::protocol::two_vertex_elements_words(
        programs.vertex_elements,
        FORMAT_R32G32B32A32_FLOAT,
    );
    crate::virgl::protocol::law_framed_concatenation(stream5, part6);
    let stream6 = stream5 + part6;
}

proof fn lemma_ir_bind_framed(target: IrPassTarget, resources: DeviceView)
    ensures
        crate::virgl::protocol::framed(crate::virgl::target::ir_bind_words(target, resources)),
{
    crate::virgl::protocol::lemma_bind_shader_framed(
        resources.programs.vertex_shader,
        SHADER_VERTEX,
    );
    let stream0 = crate::virgl::protocol::bind_shader_words(
        resources.programs.vertex_shader,
        SHADER_VERTEX,
    );
    crate::virgl::protocol::lemma_bind_object_framed(
        OBJECT_VERTEX_ELEMENTS,
        resources.programs.vertex_elements,
    );
    let part1 = crate::virgl::protocol::bind_object_words(
        OBJECT_VERTEX_ELEMENTS,
        resources.programs.vertex_elements,
    );
    crate::virgl::protocol::law_framed_concatenation(stream0, part1);
    let stream1 = stream0 + part1;
    crate::virgl::protocol::lemma_framebuffer_framed(target.surface_handle);
    let part2 = crate::virgl::protocol::framebuffer_words(target.surface_handle);
    crate::virgl::protocol::law_framed_concatenation(stream1, part2);
    let stream2 = stream1 + part2;
    crate::virgl::protocol::lemma_vertex_buffer_framed(
        IR_VERTEX_BYTES,
        resources.vertex_resource_id,
    );
    let part3 = crate::virgl::protocol::vertex_buffer_words(
        IR_VERTEX_BYTES,
        resources.vertex_resource_id,
    );
    crate::virgl::protocol::law_framed_concatenation(stream2, part3);
    let stream3 = stream2 + part3;
    crate::virgl::protocol::lemma_viewport_framed(target.width, target.height);
    let part4 = crate::virgl::protocol::viewport_words(target.width, target.height);
    crate::virgl::protocol::law_framed_concatenation(stream3, part4);
    let stream4 = stream3 + part4;
}

/// Whether vertices have four components each and uniforms a matrix and a color.
pub open spec fn shaped(submission: SubmissionView) -> bool {
    &&& forall|i: int|
        0 <= i < submission.vertices.len() ==> (#[trigger] submission.vertices[i]).position.len()
            == 4 && submission.vertices[i].secondary.len() == 4
    &&& forall|i: int|
        0 <= i < submission.draws.len() ==> (
        #[trigger] submission.draws[i]).uniforms.transform.len() == 16
            && submission.draws[i].uniforms.color.len() == 4
}

/// Every submission is shaped.
pub proof fn law_submissions_are_shaped(submission: IrSubmission)
    ensures
        shaped(submission@),
{
}

proof fn lemma_vertices_length(vertices: Seq<VertexView>)
    requires
        forall|i: int|
            0 <= i < vertices.len() ==> (#[trigger] vertices[i]).position.len() == 4
                && vertices[i].secondary.len() == 4,
    ensures
        crate::virgl::target::vertex_words(vertices).len() == 8 * vertices.len(),
    decreases vertices.len(),
{
    if vertices.len() > 0 {
        assert(vertices.last() == vertices[vertices.len() - 1]);
        assert forall|i: int| 0 <= i < vertices.drop_last().len() implies (
        #[trigger] vertices.drop_last()[i]).position.len() == 4
            && vertices.drop_last()[i].secondary.len() == 4 by {
            assert(vertices.drop_last()[i] == vertices[i]);
        }
        lemma_vertices_length(vertices.drop_last());
    }
}

proof fn lemma_ir_draw_framed(resources: DeviceView, draw: DrawView)
    requires
        draw.uniforms.transform.len() == 16,
        draw.uniforms.color.len() == 4,
    ensures
        crate::virgl::protocol::framed(crate::virgl::target::ir_draw_words(resources, draw)),
{
    let pipeline = crate::virgl::resources::in_slot(resources.pipelines, draw.pipeline.slot)->0;
    let shader = crate::virgl::target::spec_ir_fragment_shader_handle(
        resources.programs,
        draw.pipeline.fragment,
    );
    let texture = crate::virgl::resources::in_slot(resources.textures, draw.texture->0.slot)->0;
    let sampler = crate::virgl::resources::in_slot(resources.samplers, draw.sampler->0.slot)->0;
    let sampled = crate::virgl::protocol::sampler_view_binding_words(
        texture.sampler_view_handle(),
    ) + crate::virgl::protocol::sampler_state_binding_words(sampler.handle);
    crate::virgl::protocol::lemma_sampler_view_binding_framed(texture.sampler_view_handle());
    crate::virgl::protocol::lemma_sampler_state_binding_framed(sampler.handle);
    crate::virgl::protocol::law_framed_concatenation(
        crate::virgl::protocol::sampler_view_binding_words(texture.sampler_view_handle()),
        crate::virgl::protocol::sampler_state_binding_words(sampler.handle),
    );
    crate::virgl::protocol::lemma_bind_object_framed(OBJECT_BLEND, pipeline.blend_handle);
    let stream0 = crate::virgl::protocol::bind_object_words(OBJECT_BLEND, pipeline.blend_handle);
    crate::virgl::protocol::lemma_bind_object_framed(OBJECT_RASTERIZER, pipeline.rasterizer_handle);
    let part1 = crate::virgl::protocol::bind_object_words(
        OBJECT_RASTERIZER,
        pipeline.rasterizer_handle,
    );
    crate::virgl::protocol::law_framed_concatenation(stream0, part1);
    let stream1 = stream0 + part1;
    crate::virgl::protocol::lemma_bind_shader_framed(shader, SHADER_FRAGMENT);
    let part2 = crate::virgl::protocol::bind_shader_words(shader, SHADER_FRAGMENT);
    crate::virgl::protocol::law_framed_concatenation(stream1, part2);
    let stream2 = stream1 + part2;
    crate::virgl::protocol::lemma_constant_buffer_framed(SHADER_VERTEX, draw.uniforms.transform);
    let part3 = crate::virgl::protocol::constant_buffer_words(
        SHADER_VERTEX,
        draw.uniforms.transform,
    );
    crate::virgl::protocol::law_framed_concatenation(stream2, part3);
    let stream3 = stream2 + part3;
    crate::virgl::protocol::lemma_constant_buffer_framed(SHADER_FRAGMENT, draw.uniforms.color);
    let part4 = crate::virgl::protocol::constant_buffer_words(SHADER_FRAGMENT, draw.uniforms.color);
    crate::virgl::protocol::law_framed_concatenation(stream3, part4);
    let stream4 = stream3 + part4;
    crate::virgl::protocol::lemma_scissor_framed(draw.scissor);
    let part5 = crate::virgl::protocol::scissor_words(draw.scissor);
    crate::virgl::protocol::law_framed_concatenation(stream4, part5);
    let stream5 = stream4 + part5;
    let part6 = if draw.texture is Some && draw.sampler is Some {
        sampled
    } else {
        Seq::<u32>::empty()
    };
    crate::virgl::protocol::law_framed_concatenation(stream5, part6);
    let stream6 = stream5 + part6;
    crate::virgl::protocol::lemma_draw_vbo_framed(
        draw.start_vertex as u32,
        draw.vertex_count as u32,
    );
    let part7 = crate::virgl::protocol::draw_vbo_words(
        draw.start_vertex as u32,
        draw.vertex_count as u32,
    );
    crate::virgl::protocol::law_framed_concatenation(stream6, part7);
    let stream7 = stream6 + part7;
}

proof fn lemma_ir_draws_framed(resources: DeviceView, draws: Seq<DrawView>)
    requires
        forall|i: int|
            0 <= i < draws.len() ==> (#[trigger] draws[i]).uniforms.transform.len() == 16
                && draws[i].uniforms.color.len() == 4,
    ensures
        crate::virgl::protocol::framed(crate::virgl::target::ir_draws_words(resources, draws)),
    decreases draws.len(),
{
    if draws.len() > 0 {
        assert forall|i: int| 0 <= i < draws.drop_last().len() implies (
        #[trigger] draws.drop_last()[i]).uniforms.transform.len() == 16
            && draws.drop_last()[i].uniforms.color.len() == 4 by {
            assert(draws.drop_last()[i] == draws[i]);
        }
        assert(draws.last() == draws[draws.len() - 1]);
        lemma_ir_draws_framed(resources, draws.drop_last());
        lemma_ir_draw_framed(resources, draws.last());
        crate::virgl::protocol::law_framed_concatenation(
            crate::virgl::target::ir_draws_words(resources, draws.drop_last()),
            crate::virgl::target::ir_draw_words(resources, draws.last()),
        );
    }
}

proof fn lemma_ir_pipeline_framed(pipeline: IrPipeline)
    ensures
        crate::virgl::protocol::framed(crate::virgl::target::ir_pipeline_words(pipeline)),
{
    let state = crate::virgl::encoding::spec_blend_word(pipeline.state.blend);
    let flags = crate::virgl::encoding::spec_ir_rasterizer_flags(
        pipeline.state.cull_mode,
        pipeline.state.front_face,
    );
    crate::virgl::protocol::lemma_blend_framed(pipeline.blend_handle, state);
    let stream0 = crate::virgl::protocol::blend_words(pipeline.blend_handle, state);
    crate::virgl::protocol::lemma_rasterizer_framed(pipeline.rasterizer_handle, flags);
    let part1 = crate::virgl::protocol::rasterizer_words(pipeline.rasterizer_handle, flags);
    crate::virgl::protocol::law_framed_concatenation(stream0, part1);
    let stream1 = stream0 + part1;
}

proof fn lemma_texture_preparation_framed(preparation: PreparationView, spec: IrTextureSpec)
    requires
        crate::virgl::protocol::framed(preparation.words),
    ensures
        crate::virgl::protocol::framed(preparation.texture(spec).0.words),
{
    let found = preparation.resources.ir_texture(spec);
    if found.1 is Ok {
        let texture = found.1->Ok_0;
        crate::virgl::protocol::lemma_sampler_view_framed(
            texture.sampler_view_handle(),
            texture.resource_id(),
        );
        crate::virgl::protocol::law_framed_concatenation(
            preparation.words,
            crate::virgl::protocol::sampler_view_words(
                texture.sampler_view_handle(),
                texture.resource_id(),
            ),
        );
    }
}

proof fn lemma_draw_preparation_framed(
    preparation: PreparationView,
    target_width: u32,
    target_height: u32,
    draw: DrawView,
    vertex_count: nat,
)
    requires
        crate::virgl::protocol::framed(preparation.words),
    ensures
        crate::virgl::protocol::framed(
            preparation.draw(target_width, target_height, draw, vertex_count).0.words,
        ),
{
    let found = preparation.resources.ir_pipeline(preparation.context, draw.pipeline);
    if found.2 is Ok {
        lemma_ir_pipeline_framed(found.2->Ok_0);
        crate::virgl::protocol::law_framed_concatenation(
            preparation.words,
            crate::virgl::target::ir_pipeline_words(found.2->Ok_0),
        );
    }
    let first = preparation.pipeline(draw.pipeline).0;
    assert(crate::virgl::protocol::framed(first.words));
    if draw.texture is Some && draw.sampler is Some {
        lemma_texture_preparation_framed(first, draw.texture->0);
        let second = first.texture(draw.texture->0).0;
        let sampling = second.resources.ir_sampler(second.context, draw.sampler->0);
        if sampling.2 is Ok {
            let sampler = sampling.2->Ok_0;
            let word = crate::virgl::encoding::spec_sampler_word(sampler.state);
            crate::virgl::protocol::lemma_sampler_state_framed(sampler.handle, word);
            crate::virgl::protocol::law_framed_concatenation(
                second.words,
                crate::virgl::protocol::sampler_state_words(sampler.handle, word),
            );
        }
    }
}

proof fn lemma_upload_preparations_framed(preparation: PreparationView, uploads: Seq<UploadView>)
    requires
        crate::virgl::protocol::framed(preparation.words),
    ensures
        crate::virgl::protocol::framed(preparation.uploads(uploads).0.words),
    decreases uploads.len(),
{
    if uploads.len() > 0 {
        lemma_upload_preparations_framed(preparation, uploads.drop_last());
        lemma_texture_preparation_framed(
            preparation.uploads(uploads.drop_last()).0,
            uploads.last().texture,
        );
    }
}

proof fn lemma_draw_preparations_framed(
    preparation: PreparationView,
    target_width: u32,
    target_height: u32,
    draws: Seq<DrawView>,
    vertex_count: nat,
)
    requires
        crate::virgl::protocol::framed(preparation.words),
    ensures
        crate::virgl::protocol::framed(
            preparation.draws(target_width, target_height, draws, vertex_count).0.words,
        ),
    decreases draws.len(),
{
    if draws.len() > 0 {
        lemma_draw_preparations_framed(
            preparation,
            target_width,
            target_height,
            draws.drop_last(),
            vertex_count,
        );
        lemma_draw_preparation_framed(
            preparation.draws(target_width, target_height, draws.drop_last(), vertex_count).0,
            target_width,
            target_height,
            draws.last(),
            vertex_count,
        );
    }
}

proof fn lemma_prepared_pass_framed(
    context: Context,
    resources: DeviceView,
    target: IrPassTarget,
    submission: SubmissionView,
)
    ensures
        crate::virgl::protocol::framed(
            crate::virgl::target::prepared_pass(context, resources, target, submission).0.words,
        ),
{
    let setup = if resources.initialized {
        Seq::<u32>::empty()
    } else {
        crate::virgl::target::ir_setup_words(resources.programs)
    };
    let surface = if target.surface_initialized {
        Seq::<u32>::empty()
    } else {
        crate::virgl::protocol::surface_words(target.surface_handle, target.resource_id)
    };
    lemma_ir_setup_framed(resources.programs);
    crate::virgl::protocol::lemma_surface_framed(target.surface_handle, target.resource_id);
    crate::virgl::protocol::law_framed_concatenation(setup, surface);
    let start = crate::virgl::target::preparation(context, resources, target);
    lemma_upload_preparations_framed(start, submission.texture_uploads);
    let middle = start.uploads(submission.texture_uploads).0;
    lemma_draw_preparations_framed(
        middle,
        target.width,
        target.height,
        submission.draws,
        submission.vertices.len(),
    );
}

proof fn lemma_ir_pass_framed(
    resources: DeviceView,
    target: IrPassTarget,
    submission: SubmissionView,
)
    requires
        shaped(submission),
        submission.vertices.len() <= MAX_IR_VERTICES,
    ensures
        crate::virgl::protocol::framed(
            crate::virgl::target::ir_pass_words(resources, target, submission),
        ),
{
    lemma_ir_bind_framed(target, resources);
    lemma_ir_draws_framed(resources, submission.draws);
    lemma_vertices_length(submission.vertices);
    if submission.clear_color is Some {
        crate::virgl::protocol::lemma_clear_framed(submission.clear_color->0);
        crate::virgl::protocol::lemma_clear_surface_framed(
            target.surface_handle,
            submission.render_area,
            submission.clear_color->0,
        );
    }
    let stream0 = crate::virgl::target::ir_bind_words(target, resources);
    crate::virgl::protocol::lemma_scissor_framed(submission.render_area);
    let part1 = crate::virgl::protocol::scissor_words(submission.render_area);
    crate::virgl::protocol::law_framed_concatenation(stream0, part1);
    let stream1 = stream0 + part1;
    let part2 = crate::virgl::target::ir_clear_words(target, submission);
    crate::virgl::protocol::law_framed_concatenation(stream1, part2);
    let stream2 = stream1 + part2;
    crate::virgl::protocol::lemma_inline_write_framed(
        resources.vertex_resource_id,
        crate::virgl::target::vertex_words(submission.vertices),
    );
    let part3 = crate::virgl::protocol::inline_write_words(
        resources.vertex_resource_id,
        crate::virgl::target::vertex_words(submission.vertices),
    );
    crate::virgl::protocol::law_framed_concatenation(stream2, part3);
    let stream3 = stream2 + part3;
    let part4 = crate::virgl::target::ir_draws_words(resources, submission.draws);
    crate::virgl::protocol::law_framed_concatenation(stream3, part4);
    let stream4 = stream3 + part4;
}

/// The stream of a pass, with all that it creates first, is a sequence of whole
/// commands.
pub proof fn law_pass_streams_are_framed(
    context: Context,
    resources: DeviceView,
    target: IrPassTarget,
    submission: SubmissionView,
)
    requires
        shaped(submission),
        submission.vertices.len() <= MAX_IR_VERTICES,
    ensures
        ({
            let prepared = crate::virgl::target::prepared_pass(
                context,
                resources,
                target,
                submission,
            ).0;
            crate::virgl::protocol::framed(
                prepared.words + crate::virgl::target::ir_pass_words(
                    prepared.resources,
                    target,
                    submission,
                ),
            )
        }),
{
    let prepared = crate::virgl::target::prepared_pass(context, resources, target, submission).0;
    lemma_prepared_pass_framed(context, resources, target, submission);
    lemma_ir_pass_framed(prepared.resources, target, submission);
    crate::virgl::protocol::law_framed_concatenation(
        prepared.words,
        crate::virgl::target::ir_pass_words(prepared.resources, target, submission),
    );
}

/// The stream of a copy between textures is a sequence of whole commands.
pub proof fn law_copy_streams_are_framed(
    queue: Queue,
    context: Context,
    resources: DeviceView,
    copy: IrTextureCopy,
)
    ensures
        crate::virgl::resources::spec_copy_ir_texture(
            queue,
            context,
            resources,
            copy,
        ).1 matches Ok(words) ==> crate::virgl::protocol::framed(words),
{
    let from = resources.ir_texture(copy.source);
    if from.1 is Ok {
        let to = from.0.ir_texture(copy.destination);
        if to.1 is Ok {
            crate::virgl::protocol::lemma_resource_copy_framed(
                to.1->Ok_0.resource_id(),
                copy.destination_rect,
                from.1->Ok_0.resource_id(),
                copy.source_rect,
            );
        }
    }
}

} // verus!
