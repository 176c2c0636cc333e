//! What a device draws for a pass.

use crate::driver::{DrawView, IrFragmentProgram, SubmissionView, VertexView, MAX_IR_VERTICES};
use crate::virgl::device::{Bound, Device, Drawn, Work};
use crate::virgl::protocol::{
    FORMAT_R32G32B32A32_FLOAT, OBJECT_BLEND, OBJECT_RASTERIZER, OBJECT_VERTEX_ELEMENTS,
    SHADER_FRAGMENT, SHADER_VERTEX,
};
use crate::virgl::resources::{DeviceView, ProgramHandles};
use crate::virgl::shaders::{
    IR_SOLID_FRAGMENT_SHADER, IR_TEXTURE_ALPHA_MASK_FRAGMENT_SHADER,
    IR_TEXTURE_RGBA_FRAGMENT_SHADER, IR_TEXTURE_RGB_IGNORE_ALPHA_FRAGMENT_SHADER,
    IR_VERTEX_COLOR_FRAGMENT_SHADER, IR_VERTEX_SHADER,
};
use crate::virgl::state::Context;
use crate::virgl::target::{IrPassTarget, IR_VERTEX_BYTES};
use vstd::prelude::*;

verus! {

/// Whether the shaders of passes have handles of their own.
pub open spec fn programs_distinct(programs: ProgramHandles) -> bool {
    &&& programs.vertex_shader != programs.solid_fragment_shader
    &&& programs.vertex_shader != programs.vertex_color_fragment_shader
    &&& programs.vertex_shader != programs.texture_rgba_fragment_shader
    &&& programs.vertex_shader != programs.texture_rgb_ignore_alpha_fragment_shader
    &&& programs.vertex_shader != programs.texture_alpha_mask_fragment_shader
    &&& programs.solid_fragment_shader != programs.vertex_color_fragment_shader
    &&& programs.solid_fragment_shader != programs.texture_rgba_fragment_shader
    &&& programs.solid_fragment_shader != programs.texture_rgb_ignore_alpha_fragment_shader
    &&& programs.solid_fragment_shader != programs.texture_alpha_mask_fragment_shader
    &&& programs.vertex_color_fragment_shader != programs.texture_rgba_fragment_shader
    &&& programs.vertex_color_fragment_shader != programs.texture_rgb_ignore_alpha_fragment_shader
    &&& programs.vertex_color_fragment_shader != programs.texture_alpha_mask_fragment_shader
    &&& programs.texture_rgba_fragment_shader != programs.texture_rgb_ignore_alpha_fragment_shader
    &&& programs.texture_rgba_fragment_shader != programs.texture_alpha_mask_fragment_shader
    &&& programs.texture_rgb_ignore_alpha_fragment_shader != programs.texture_alpha_mask_fragment_shader
}

/// Whether a device has the programs of passes: the vertex shader, the shader of each
/// fragment program, and the layout of two four-component inputs.
pub open spec fn programs_exist(device: Device, programs: ProgramHandles) -> bool {
    &&& device.shaders[programs.vertex_shader].1 == vstd::utf8::encode_utf8(IR_VERTEX_SHADER@)
    &&& device.shaders[programs.solid_fragment_shader].1 == vstd::utf8::encode_utf8(
        crate::virgl::programs::fragment_source(IrFragmentProgram::Solid),
    )
    &&& device.shaders[programs.vertex_color_fragment_shader].1 == vstd::utf8::encode_utf8(
        crate::virgl::programs::fragment_source(IrFragmentProgram::VertexColor),
    )
    &&& device.shaders[programs.texture_rgba_fragment_shader].1 == vstd::utf8::encode_utf8(
        crate::virgl::programs::fragment_source(IrFragmentProgram::TextureRgba),
    )
    &&& device.shaders[programs.texture_rgb_ignore_alpha_fragment_shader].1 == vstd::utf8::encode_utf8(
        crate::virgl::programs::fragment_source(IrFragmentProgram::TextureRgbIgnoreAlpha),
    )
    &&& device.shaders[programs.texture_alpha_mask_fragment_shader].1 == vstd::utf8::encode_utf8(
        crate::virgl::programs::fragment_source(IrFragmentProgram::TextureAlphaMask),
    )
    &&& device.elements[programs.vertex_elements] == seq![(0u32, 31u32), (16, 31)]
}

/// The first pass creates the programs of passes, and leaves everything else of the
/// device as it is.
pub proof fn law_passes_create_their_programs(device: Device, programs: ProgramHandles)
    requires
        programs_distinct(programs),
    ensures
        programs_exist(device.run(crate::virgl::target::ir_setup_words(programs)), programs),
        device.run(crate::virgl::target::ir_setup_words(programs)) == (Device {
            shaders: device.run(crate::virgl::target::ir_setup_words(programs)).shaders,
            elements: device.run(crate::virgl::target::ir_setup_words(programs)).elements,
            ..device
        }),
        crate::virgl::protocol::framed(crate::virgl::target::ir_setup_words(programs)),
{
    let part0 = crate::virgl::protocol::shader_words(
        programs.vertex_shader,
        SHADER_VERTEX,
        vstd::utf8::encode_utf8(IR_VERTEX_SHADER@),
    );
    crate::virgl::shaders::lemma_ir_vertex_shader_length();
    crate::virgl::device::lemma_shader(
        device,
        programs.vertex_shader,
        SHADER_VERTEX,
        vstd::utf8::encode_utf8(IR_VERTEX_SHADER@),
    );
    let stream0 = part0;
    let device0 = device.run(part0);
    let part1 = crate::virgl::protocol::shader_words(
        programs.solid_fragment_shader,
        SHADER_FRAGMENT,
        vstd::utf8::encode_utf8(IR_SOLID_FRAGMENT_SHADER@),
    );
    crate::virgl::shaders::lemma_ir_solid_fragment_shader_length();
    crate::virgl::device::lemma_shader(
        device0,
        programs.solid_fragment_shader,
        SHADER_FRAGMENT,
        vstd::utf8::encode_utf8(IR_SOLID_FRAGMENT_SHADER@),
    );
    crate::virgl::device::lemma_in_order(device, stream0, part1);
    let stream1 = stream0 + part1;
    let device1 = device0.run(part1);
    let part2 = crate::virgl::protocol::shader_words(
        programs.vertex_color_fragment_shader,
        SHADER_FRAGMENT,
        vstd::utf8::encode_utf8(IR_VERTEX_COLOR_FRAGMENT_SHADER@),
    );
    crate::virgl::shaders::lemma_ir_vertex_color_fragment_shader_length();
    crate::virgl::device::lemma_shader(
        device1,
        programs.vertex_color_fragment_shader,
        SHADER_FRAGMENT,
        vstd::utf8::encode_utf8(IR_VERTEX_COLOR_FRAGMENT_SHADER@),
    );
    crate::virgl::device::lemma_in_order(device, stream1, part2);
    let stream2 = stream1 + part2;
    let device2 = device1.run(part2);
    let part3 = crate::virgl::protocol::shader_words(
        programs.texture_rgba_fragment_shader,
        SHADER_FRAGMENT,
        vstd::utf8::encode_utf8(IR_TEXTURE_RGBA_FRAGMENT_SHADER@),
    );
    crate::virgl::shaders::lemma_ir_texture_rgba_fragment_shader_length();
    crate::virgl::device::lemma_shader(
        device2,
        programs.texture_rgba_fragment_shader,
        SHADER_FRAGMENT,
        vstd::utf8::encode_utf8(IR_TEXTURE_RGBA_FRAGMENT_SHADER@),
    );
    crate::virgl::device::lemma_in_order(device, stream2, part3);
    let stream3 = stream2 + part3;
    let device3 = device2.run(part3);
    let part4 = crate::virgl::protocol::shader_words(
        programs.texture_rgb_ignore_alpha_fragment_shader,
        SHADER_FRAGMENT,
        vstd::utf8::encode_utf8(IR_TEXTURE_RGB_IGNORE_ALPHA_FRAGMENT_SHADER@),
    );
    crate::virgl::shaders::lemma_ir_texture_rgb_ignore_alpha_fragment_shader_length();
    crate::virgl::device::lemma_shader(
        device3,
        programs.texture_rgb_ignore_alpha_fragment_shader,
        SHADER_FRAGMENT,
        vstd::utf8::encode_utf8(IR_TEXTURE_RGB_IGNORE_ALPHA_FRAGMENT_SHADER@),
    );
    crate::virgl::device::lemma_in_order(device, stream3, part4);
    let stream4 = stream3 + part4;
    let device4 = device3.run(part4);
    let part5 = crate::virgl::protocol::shader_words(
        programs.texture_alpha_mask_fragment_shader,
        SHADER_FRAGMENT,
        vstd::utf8::encode_utf8(IR_TEXTURE_ALPHA_MASK_FRAGMENT_SHADER@),
    );
    crate::virgl::shaders::lemma_ir_texture_alpha_mask_fragment_shader_length();
    crate::virgl::device::lemma_shader(
        device4,
        programs.texture_alpha_mask_fragment_shader,
        SHADER_FRAGMENT,
        vstd::utf8::encode_utf8(IR_TEXTURE_ALPHA_MASK_FRAGMENT_SHADER@),
    );
    crate::virgl::device::lemma_in_order(device, stream4, part5);
    let stream5 = stream4 + part5;
    let device5 = device4.run(part5);
    let part6 = crate::virgl::protocol::two_vertex_elements_words(
        programs.vertex_elements,
        FORMAT_R32G32B32A32_FLOAT,
    );
    crate::virgl::device::lemma_two_elements(
        device5,
        programs.vertex_elements,
        FORMAT_R32G32B32A32_FLOAT,
    );
    crate::virgl::device::lemma_in_order(device, stream5, part6);
    let stream6 = stream5 + part6;
    let device6 = device5.run(part6);
    assert(stream6 == crate::virgl::target::ir_setup_words(programs));
    assert(device.run(stream6) == device6);
}

/// For every fragment program, the shader that a draw binds is the one whose source the
/// setup of passes creates for that program. Different programs have different shaders.
pub proof fn law_fragment_programs_have_their_shader(
    device: Device,
    programs: ProgramHandles,
    fragment: IrFragmentProgram,
    other: IrFragmentProgram,
)
    requires
        programs_distinct(programs),
    ensures
        device.run(crate::virgl::target::ir_setup_words(programs)).shaders[
            crate::virgl::target::ir_fragment_shader_handle(programs, fragment)
        ].1 == vstd::utf8::encode_utf8(crate::virgl::programs::fragment_source(fragment)),
        fragment != other ==> crate::virgl::target::ir_fragment_shader_handle(programs, fragment)
            != crate::virgl::target::ir_fragment_shader_handle(programs, other),
{
    law_passes_create_their_programs(device, programs);
}

/// Whether the resources that a context creates for a table give the programs of passes
/// handles of their own.
pub proof fn law_created_programs_are_distinct(context: Context, vertex_resource_id: u32)
    requires
        crate::virgl::resources::has_program_handles(context),
    ensures
        programs_distinct(
            crate::virgl::resources::spec_create_ir_resources(context, vertex_resource_id).programs,
        ),
{
}

proof fn lemma_bound(device: Device, target: IrPassTarget, resources: DeviceView)
    ensures
        device.run(crate::virgl::target::ir_bind_words(target, resources)) == (Device {
            bound: Bound {
                vertex_shader: resources.programs.vertex_shader,
                elements: resources.programs.vertex_elements,
                surface: target.surface_handle,
                stride: 32,
                vertex_buffer: resources.vertex_resource_id,
                viewport: crate::virgl::protocol::viewport_words(
                    target.width,
                    target.height,
                ).skip(2),
                ..device.bound
            },
            ..device
        }),
        crate::virgl::protocol::framed(crate::virgl::target::ir_bind_words(target, resources)),
{
    let part0 = crate::virgl::protocol::bind_shader_words(
        resources.programs.vertex_shader,
        SHADER_VERTEX,
    );
    crate::virgl::device::lemma_bind_shader(
        device,
        resources.programs.vertex_shader,
        SHADER_VERTEX,
    );
    let stream0 = part0;
    let device0 = device.run(part0);
    let part1 = crate::virgl::protocol::bind_object_words(
        OBJECT_VERTEX_ELEMENTS,
        resources.programs.vertex_elements,
    );
    crate::virgl::device::lemma_bind_elements(device0, resources.programs.vertex_elements);
    crate::virgl::device::lemma_in_order(device, stream0, part1);
    let stream1 = stream0 + part1;
    let device1 = device0.run(part1);
    let part2 = crate::virgl::protocol::framebuffer_words(target.surface_handle);
    crate::virgl::device::lemma_framebuffer(device1, target.surface_handle);
    crate::virgl::device::lemma_in_order(device, stream1, part2);
    let stream2 = stream1 + part2;
    let device2 = device1.run(part2);
    let part3 = crate::virgl::protocol::vertex_buffer_words(
        IR_VERTEX_BYTES,
        resources.vertex_resource_id,
    );
    crate::virgl::device::lemma_vertex_buffer(
        device2,
        IR_VERTEX_BYTES,
        resources.vertex_resource_id,
    );
    crate::virgl::device::lemma_in_order(device, stream2, part3);
    let stream3 = stream2 + part3;
    let device3 = device2.run(part3);
    let part4 = crate::virgl::protocol::viewport_words(target.width, target.height);
    crate::virgl::device::lemma_viewport(device3, target.width, target.height);
    crate::virgl::device::lemma_in_order(device, stream3, part4);
    let stream4 = stream3 + part4;
    let device4 = device3.run(part4);
    assert(stream4 == crate::virgl::target::ir_bind_words(target, resources));
    assert(device.run(stream4) == device4);
}

/// Whether a device has what a draw uses: the blending and rasterizer of its pipeline,
/// and, where it samples, the view of its texture and its sampler.
pub open spec fn draw_objects(
    device: Device,
    resources: DeviceView,
    draw: DrawView,
) -> bool {
    &&& crate::virgl::resources::in_slot(
        resources.pipelines,
        draw.pipeline.slot,
    ) matches Some(pipeline) && {
        &&& device.blends[pipeline.blend_handle] == crate::virgl::encoding::blend_word(
            draw.pipeline.blend,
        )
        &&& device.rasterizers[pipeline.rasterizer_handle]
            == crate::virgl::encoding::ir_rasterizer_flags(
            draw.pipeline.cull_mode,
            draw.pipeline.front_face,
        )
    }
    &&& draw.texture is Some && draw.sampler is Some ==> {
        &&& crate::virgl::resources::in_slot(
            resources.textures,
            draw.texture->0.slot,
        ) matches Some(texture)
            && device.views[texture.sampler_view_handle()] == texture.resource_id()
        &&& crate::virgl::resources::in_slot(
            resources.samplers,
            draw.sampler->0.slot,
        ) matches Some(sampler)
            && device.samplers[sampler.handle] == crate::virgl::encoding::sampler_word(
            draw.sampler->0,
        )
    }
}

/// Whether a device draw is a planned one: its range with the program, blending and
/// rasterizer of its pipeline, its transform and color, within its scissor, sampling its
/// own texture as its sampler says.
pub open spec fn draws_planned(drawn: Drawn, resources: DeviceView, draw: DrawView) -> bool {
    &&& drawn.fragment_shader == vstd::utf8::encode_utf8(
        crate::virgl::programs::fragment_source(draw.pipeline.fragment),
    )
    &&& drawn.vertex_shader == vstd::utf8::encode_utf8(IR_VERTEX_SHADER@)
    &&& drawn.elements == seq![(0u32, 31u32), (16, 31)]
    &&& drawn.stride == 32
    &&& drawn.blend == crate::virgl::encoding::blend_word(draw.pipeline.blend)
    &&& drawn.rasterizer == crate::virgl::encoding::ir_rasterizer_flags(
        draw.pipeline.cull_mode,
        draw.pipeline.front_face,
    )
    &&& drawn.transform == draw.uniforms.transform
    &&& drawn.color == draw.uniforms.color
    &&& drawn.scissor.left == draw.scissor.x
    &&& drawn.scissor.top == draw.scissor.y
    &&& drawn.scissor.right == draw.scissor.x + draw.scissor.width
    &&& drawn.scissor.bottom == draw.scissor.y + draw.scissor.height
    &&& drawn.first == draw.start_vertex
    &&& drawn.count == draw.vertex_count
    &&& draw.texture is Some && draw.sampler is Some ==> {
        &&& crate::virgl::resources::in_slot(
            resources.textures,
            draw.texture->0.slot,
        ) matches Some(texture)
            && drawn.sampled == texture.resource_id()
        &&& drawn.sampler == crate::virgl::encoding::sampler_word(draw.sampler->0)
    }
}

/// What draws leave of a device: everything but the work and what each draw binds.
spec fn between(base: Device, device: Device) -> bool {
    device == (Device {
        bound: Bound {
            blend: device.bound.blend,
            rasterizer: device.bound.rasterizer,
            fragment_shader: device.bound.fragment_shader,
            transform: device.bound.transform,
            color: device.bound.color,
            scissor: device.bound.scissor,
            view: device.bound.view,
            sampler: device.bound.sampler,
            ..base.bound
        },
        work: device.work,
        ..base
    })
}

/// What a device is bound to before the draws of a pass.
spec fn pass_bound(base: Device, resources: DeviceView) -> bool {
    &&& programs_exist(base, resources.programs)
    &&& base.bound.vertex_shader == resources.programs.vertex_shader
    &&& base.bound.elements == resources.programs.vertex_elements
    &&& base.bound.stride == 32
}

/// Whether the numbers of a draw fit their commands.
pub open spec fn draw_shaped(draw: DrawView) -> bool {
    &&& draw.uniforms.transform.len() == 16
    &&& draw.uniforms.color.len() == 4
    &&& draw.start_vertex <= u32::MAX
    &&& draw.vertex_count <= u32::MAX
}

#[verifier::rlimit(40)]
proof fn lemma_draw(base: Device, device: Device, resources: DeviceView, draw: DrawView)
    requires
        between(base, device),
        pass_bound(base, resources),
        draw_objects(base, resources, draw),
        draw_shaped(draw),
        crate::virgl::protocol::scissor_fits(draw.scissor),
    ensures
        ({
            let words = crate::virgl::target::ir_draw_words(resources, draw);
            let after = device.run(words);
            &&& crate::virgl::protocol::framed(words)
            &&& between(base, after)
            &&& after.work.len() == device.work.len() + 1
            &&& after.work.take(device.work.len() as int) == device.work
            &&& after.work.last() matches Work::Draw(drawn) && draws_planned(drawn, resources, draw)
                && drawn.target == base.surfaces[base.bound.surface] && drawn.vertices
                == base.buffers[base.bound.vertex_buffer] && drawn.viewport == base.bound.viewport
        }),
{
    let pipeline = crate::virgl::resources::in_slot(resources.pipelines, draw.pipeline.slot)->0;
    let shader = crate::virgl::target::ir_fragment_shader_handle(
        resources.programs,
        draw.pipeline.fragment,
    );
    let part0 = crate::virgl::protocol::bind_object_words(OBJECT_BLEND, pipeline.blend_handle);
    crate::virgl::device::lemma_bind_blend(device, pipeline.blend_handle);
    let stream0 = part0;
    let device0 = device.run(part0);
    let part1 = crate::virgl::protocol::bind_object_words(
        OBJECT_RASTERIZER,
        pipeline.rasterizer_handle,
    );
    crate::virgl::device::lemma_bind_rasterizer(device0, pipeline.rasterizer_handle);
    crate::virgl::device::lemma_in_order(device, stream0, part1);
    let stream1 = stream0 + part1;
    let device1 = device0.run(part1);
    let part2 = crate::virgl::protocol::bind_shader_words(shader, SHADER_FRAGMENT);
    crate::virgl::device::lemma_bind_shader(device1, shader, SHADER_FRAGMENT);
    crate::virgl::device::lemma_in_order(device, stream1, part2);
    let stream2 = stream1 + part2;
    let device2 = device1.run(part2);
    let part3 = crate::virgl::protocol::constant_buffer_words(
        SHADER_VERTEX,
        draw.uniforms.transform,
    );
    crate::virgl::device::lemma_constants(device2, SHADER_VERTEX, draw.uniforms.transform);
    crate::virgl::device::lemma_in_order(device, stream2, part3);
    let stream3 = stream2 + part3;
    let device3 = device2.run(part3);
    let part4 = crate::virgl::protocol::constant_buffer_words(SHADER_FRAGMENT, draw.uniforms.color);
    crate::virgl::device::lemma_constants(device3, SHADER_FRAGMENT, draw.uniforms.color);
    crate::virgl::device::lemma_in_order(device, stream3, part4);
    let stream4 = stream3 + part4;
    let device4 = device3.run(part4);
    let part5 = crate::virgl::protocol::scissor_words(draw.scissor);
    crate::virgl::device::lemma_scissor(device4, draw.scissor);
    crate::virgl::device::lemma_in_order(device, stream4, part5);
    let stream5 = stream4 + part5;
    let device5 = device4.run(part5);
    let first = draw.start_vertex as u32;
    let count = draw.vertex_count as u32;
    let last = crate::virgl::protocol::draw_vbo_words(first, count);
    if draw.texture is Some && draw.sampler is Some {
        let texture = crate::virgl::resources::in_slot(resources.textures, draw.texture->0.slot)->0;
        let sampler = crate::virgl::resources::in_slot(resources.samplers, draw.sampler->0.slot)->0;
        let view = crate::virgl::protocol::sampler_view_binding_words(
            texture.sampler_view_handle(),
        );
        let state = crate::virgl::protocol::sampler_state_binding_words(sampler.handle);
        crate::virgl::device::lemma_view_binding(device5, texture.sampler_view_handle());
        let device6 = device5.run(view);
        crate::virgl::device::lemma_sampler_binding(device6, sampler.handle);
        let device7 = device6.run(state);
        crate::virgl::device::lemma_draw(device7, first, count);
        let device8 = device7.run(last);
        crate::virgl::device::lemma_in_order(device5, view, state);
        crate::virgl::device::lemma_in_order(device, stream5, view + state);
        crate::virgl::device::lemma_in_order(device, stream5 + (view + state), last);
        assert(crate::virgl::target::ir_draw_words(
            resources,
            draw,
        ) == stream5 + (view + state) + last);
        assert(device8.work.take(device.work.len() as int) =~= device.work);
        assert(device.run(crate::virgl::target::ir_draw_words(resources, draw)) == device8);
    } else {
        let nothing = Seq::<u32>::empty();
        assert(stream5 + nothing =~= stream5);
        crate::virgl::device::lemma_draw(device5, first, count);
        let device6 = device5.run(last);
        crate::virgl::device::lemma_in_order(device, stream5, last);
        assert(crate::virgl::target::ir_draw_words(resources, draw) == stream5 + nothing + last);
        assert(device6.work.take(device.work.len() as int) =~= device.work);
        assert(device.run(crate::virgl::target::ir_draw_words(resources, draw)) == device6);
    }
}

proof fn lemma_draws(
    base: Device,
    resources: DeviceView,
    draws: Seq<DrawView>,
)
    requires
        pass_bound(base, resources),
        forall|i: int|
            0 <= i < draws.len() ==> draw_objects(base, resources, #[trigger] draws[i])
                && draw_shaped(draws[i]) && crate::virgl::protocol::scissor_fits(draws[i].scissor),
    ensures
        ({
            let words = crate::virgl::target::ir_draws_words(resources, draws);
            let after = base.run(words);
            &&& crate::virgl::protocol::framed(words)
            &&& between(base, after)
            &&& after.work.len() == base.work.len() + draws.len()
            &&& after.work.take(base.work.len() as int) == base.work
            &&& forall|i: int|
                0 <= i < draws.len() ==> ((
                #[trigger] after.work[base.work.len() + i]) matches Work::Draw(drawn)
                    && draws_planned(drawn, resources, draws[i]) && drawn.target
                    == base.surfaces[base.bound.surface] && drawn.vertices
                    == base.buffers[base.bound.vertex_buffer] && drawn.viewport
                    == base.bound.viewport)
        }),
    decreases draws.len(),
{
    if draws.len() == 0 {
        assert(base.work.take(base.work.len() as int) =~= base.work);
    } else {
        let earlier = draws.drop_last();
        let count = earlier.len() as int;
        assert forall|i: int| 0 <= i < earlier.len() implies draw_objects(
            base,
            resources,
            #[trigger] earlier[i],
        ) && draw_shaped(earlier[i]) && crate::virgl::protocol::scissor_fits(
            earlier[i].scissor,
        ) by {
            assert(earlier[i] == draws[i]);
        }
        lemma_draws(base, resources, earlier);
        let words = crate::virgl::target::ir_draws_words(resources, earlier);
        let device = base.run(words);
        let draw = draws[count];
        lemma_draw(base, device, resources, draw);
        let more = crate::virgl::target::ir_draw_words(resources, draw);
        crate::virgl::device::lemma_in_order(base, words, more);
        let after = device.run(more);
        assert(crate::virgl::target::ir_draws_words(resources, draws) == words + more);
        assert forall|i: int| 0 <= i < draws.len() implies ((
        #[trigger] after.work[base.work.len() + i]) matches Work::Draw(drawn) && draws_planned(
            drawn,
            resources,
            draws[i],
        ) && drawn.target == base.surfaces[base.bound.surface] && drawn.vertices
            == base.buffers[base.bound.vertex_buffer] && drawn.viewport == base.bound.viewport) by {
            if i < count {
                assert(after.work[base.work.len() + i] == after.work.take(
                    device.work.len() as int,
                )[base.work.len() + i]);
                assert(device.work[base.work.len() + i] is Draw);
                assert(earlier[i] == draws[i]);
            }
        }
        assert(after.work.take(base.work.len() as int) =~= device.work.take(
            base.work.len() as int,
        ));
    }
}

/// One word of a vertex in a buffer: position, then the second input.
pub open spec fn vertex_word(vertex: VertexView, component: int) -> u32 {
    if component < 4 {
        vertex.position[component]
    } else {
        vertex.secondary[component - 4]
    }
}

/// Whether vertices have four components twice.
pub open spec fn vertices_shaped(vertices: Seq<VertexView>) -> bool {
    forall|i: int|
        0 <= i < vertices.len() ==> (#[trigger] vertices[i]).position.len() == 4
            && vertices[i].secondary.len() == 4
}

/// A buffer of vertices holds their components in order, eight words for each.
pub proof fn law_vertex_buffers_hold_their_vertices(
    vertices: Seq<VertexView>,
    place: int,
    component: int,
)
    requires
        vertices_shaped(vertices),
        0 <= place < vertices.len(),
        0 <= component < 8,
    ensures
        crate::virgl::target::vertex_words(vertices).len() == 8 * vertices.len(),
        crate::virgl::target::vertex_words(vertices)[8 * place + component] == vertex_word(
            vertices[place],
            component,
        ),
    decreases vertices.len(),
{
    let earlier = vertices.drop_last();
    assert(vertices_shaped(earlier)) by {
        assert forall|i: int| 0 <= i < earlier.len() implies (
        #[trigger] earlier[i]).position.len() == 4 && earlier[i].secondary.len() == 4 by {
            assert(earlier[i] == vertices[i]);
        }
    }
    lemma_vertex_words_length(vertices);
    lemma_vertex_words_length(earlier);
    assert(vertices.last() == vertices[vertices.len() - 1]);
    if place < earlier.len() {
        law_vertex_buffers_hold_their_vertices(earlier, place, component);
        assert(crate::virgl::target::vertex_words(
            vertices,
        )[8 * place + component] == crate::virgl::target::vertex_words(
            earlier,
        )[8 * place + component]);
    }
}

proof fn lemma_vertex_words_length(vertices: Seq<VertexView>)
    requires
        vertices_shaped(vertices),
    ensures
        crate::virgl::target::vertex_words(vertices).len() == 8 * vertices.len(),
    decreases vertices.len(),
{
    if vertices.len() > 0 {
        let earlier = vertices.drop_last();
        assert(vertices_shaped(earlier)) by {
            assert forall|i: int| 0 <= i < earlier.len() implies (
            #[trigger] earlier[i]).position.len() == 4 && earlier[i].secondary.len() == 4 by {
                assert(earlier[i] == vertices[i]);
            }
        }
        assert(vertices.last() == vertices[vertices.len() - 1]);
        lemma_vertex_words_length(earlier);
    }
}

/// The work that clears the render area of a pass, where it is cleared: the whole target
/// or an area of it.
pub open spec fn clear_work(target: IrPassTarget, submission: SubmissionView) -> Seq<Work> {
    match submission.clear_color {
        None => Seq::empty(),
        Some(color) => if submission.render_area.x == 0 && submission.render_area.y == 0
            && submission.render_area.width == target.width && submission.render_area.height
            == target.height {
            seq![Work::Clear { target: target.resource_id, color }]
        } else {
            seq![
                Work::ClearArea {
                    target: target.resource_id,
                    area: submission.render_area,
                    color,
                },
            ]
        },
    }
}

/// Whether a submission has the sizes of its commands.
pub open spec fn submission_shaped(submission: SubmissionView) -> bool {
    &&& submission.vertices.len() <= MAX_IR_VERTICES
    &&& vertices_shaped(submission.vertices)
    &&& submission.clear_color matches Some(color) ==> color.len() == 4
    &&& forall|i: int|
        0 <= i < submission.draws.len() ==> draw_shaped(#[trigger] submission.draws[i])
}

/// Whether the work of a device since some earlier work is that of a pass: the clear of
/// the render area, then every planned draw in order, over the vertices of the pass and
/// onto its target.
pub open spec fn performs_pass(
    before: Seq<Work>,
    after: Seq<Work>,
    resources: DeviceView,
    target: IrPassTarget,
    submission: SubmissionView,
) -> bool {
    let clear = clear_work(target, submission);
    let first = before.len() + clear.len();
    &&& after.len() == first + submission.draws.len()
    &&& after.take(before.len() as int) == before
    &&& after.subrange(before.len() as int, first as int) == clear
    &&& forall|i: int|
        0 <= i < submission.draws.len() ==> ((#[trigger] after[first + i]) matches Work::Draw(drawn)
            && draws_planned(drawn, resources, submission.draws[i]) && drawn.target
            == target.resource_id && drawn.vertices == crate::virgl::target::vertex_words(
                submission.vertices,
            )
            && drawn.viewport == crate::virgl::protocol::viewport_words(
                target.width,
                target.height,
            ).skip(2))
}

/// On a device that has the programs of passes, the surface of the target and what each
/// draw uses, the words of a pass clear and draw what was planned.
pub proof fn law_pass_words_draw_what_was_planned(
    device: Device,
    resources: DeviceView,
    target: IrPassTarget,
    submission: SubmissionView,
)
    requires
        programs_exist(device, resources.programs),
        device.surfaces[target.surface_handle] == target.resource_id,
        submission_shaped(submission),
        crate::virgl::protocol::scissor_fits(submission.render_area),
        forall|i: int|
            0 <= i < submission.draws.len() ==> draw_objects(
                device,
                resources,
                #[trigger] submission.draws[i],
            ) && crate::virgl::protocol::scissor_fits(submission.draws[i].scissor),
    ensures
        performs_pass(
            device.work,
            device.run(crate::virgl::target::ir_pass_words(resources, target, submission)).work,
            resources,
            target,
            submission,
        ),
        crate::virgl::protocol::framed(
            crate::virgl::target::ir_pass_words(resources, target, submission),
        ),
        ({
            let after = device.run(
                crate::virgl::target::ir_pass_words(resources, target, submission),
            );
            after == (Device {
                bound: after.bound,
                buffers: after.buffers,
                work: after.work,
                ..device
            })
        }),
{
    let part0 = crate::virgl::target::ir_bind_words(target, resources);
    lemma_bound(device, target, resources);
    let device0 = device.run(part0);
    let part1 = crate::virgl::protocol::scissor_words(submission.render_area);
    crate::virgl::device::lemma_scissor(device0, submission.render_area);
    crate::virgl::device::lemma_in_order(device, part0, part1);
    let device1 = device0.run(part1);
    let part2 = crate::virgl::target::ir_clear_words(target, submission);
    let clear = clear_work(target, submission);
    let device2 = device1.run(part2);
    if let Some(color) = submission.clear_color {
        crate::virgl::device::lemma_clear(device1, color);
        crate::virgl::device::lemma_clear_area(
            device1,
            target.surface_handle,
            submission.render_area,
            color,
        );
    } else {
        assert(device1.run(Seq::<u32>::empty()) == device1);
    }
    assert(crate::virgl::protocol::framed(part2));
    assert(device2 == (Device { work: device2.work, ..device1 }));
    assert(device2.work =~= device.work + clear);
    crate::virgl::device::lemma_in_order(device, part0 + part1, part2);
    let data = crate::virgl::target::vertex_words(submission.vertices);
    let part3 = crate::virgl::protocol::inline_write_words(resources.vertex_resource_id, data);
    lemma_vertex_words_length(submission.vertices);
    crate::virgl::device::lemma_inline_write(device2, resources.vertex_resource_id, data);
    crate::virgl::device::lemma_in_order(device, part0 + part1 + part2, part3);
    let device3 = device2.run(part3);
    let part4 = crate::virgl::target::ir_draws_words(resources, submission.draws);
    assert forall|i: int| 0 <= i < submission.draws.len() implies draw_objects(
        device3,
        resources,
        #[trigger] submission.draws[i],
    ) && draw_shaped(submission.draws[i]) && crate::virgl::protocol::scissor_fits(
        submission.draws[i].scissor,
    ) by {
        assert(draw_objects(device, resources, submission.draws[i]));
    }
    lemma_draws(device3, resources, submission.draws);
    crate::virgl::device::lemma_in_order(device, part0 + part1 + part2 + part3, part4);
    let after = device3.run(part4);
    let before = device.work.len() as int;
    let first = before + clear.len();
    assert(after.work.take(before) =~= device3.work.take(before));
    assert(device3.work.take(before) =~= device.work);
    assert(after.work.subrange(before, first) =~= after.work.take(first).skip(before));
    assert(device3.work.skip(before) =~= clear);
    assert forall|i: int| 0 <= i < submission.draws.len() implies ((
    #[trigger] after.work[first + i]) matches Work::Draw(drawn) && draws_planned(
        drawn,
        resources,
        submission.draws[i],
    ) && drawn.target == target.resource_id && drawn.vertices == data && drawn.viewport
        == crate::virgl::protocol::viewport_words(target.width, target.height).skip(2)) by {
        assert(after.work[device3.work.len() + i] is Draw);
    }
}

} // verus!
