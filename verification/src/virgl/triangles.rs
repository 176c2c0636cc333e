//! What a device does for colored triangles, for copies, and on which target.

use crate::driver::{IrRect, IrTextureCopy, IrTextureSpec, UploadView};
use crate::virgl::composition::CompositionOperation;
use crate::virgl::device::{Bound, Device, Work};
use crate::virgl::draw::{
    Pipeline, VertexClip4Color3, BLEND_HANDLE, FRAGMENT_SHADER_HANDLE, OPAQUE_BLEND_STATE,
    RASTERIZER_HANDLE, SURFACE_HANDLE, VERTEX_BYTES, VERTEX_ELEMENTS_HANDLE, VERTEX_SHADER_HANDLE,
};
use crate::virgl::protocol::{
    FORMAT_R32G32B32_FLOAT, OBJECT_BLEND, OBJECT_RASTERIZER, OBJECT_VERTEX_ELEMENTS,
    SHADER_FRAGMENT, SHADER_VERTEX,
};
use crate::virgl::resources::{DeviceView, IrTexture};
use crate::virgl::shaders::{FRAGMENT_SHADER, VERTEX_SHADER};
use crate::virgl::state::{Context, Image, Queue};
use vstd::prelude::*;

verus! {

/// Whether a device has the objects of the pipeline of an image.
pub open spec fn triangle_objects(device: Device, pipeline: Pipeline) -> bool {
    &&& device.surfaces[SURFACE_HANDLE] == pipeline.target_resource_id
    &&& device.blends[BLEND_HANDLE] == OPAQUE_BLEND_STATE
    &&& device.rasterizers[RASTERIZER_HANDLE] == crate::virgl::encoding::rasterizer_flags(
        pipeline.cull_mode,
        pipeline.front_face,
    )
    &&& device.shaders[VERTEX_SHADER_HANDLE].1 == vstd::utf8::encode_utf8(VERTEX_SHADER@)
    &&& device.shaders[FRAGMENT_SHADER_HANDLE].1 == vstd::utf8::encode_utf8(FRAGMENT_SHADER@)
    &&& device.elements[VERTEX_ELEMENTS_HANDLE] == seq![(0u32, 31u32), (16, 30)]
}

#[verifier::rlimit(60)]
proof fn lemma_setup(device: Device, pipeline: Pipeline)
    ensures
        triangle_objects(device.run(crate::virgl::draw::setup_words(pipeline)), pipeline),
        device.run(crate::virgl::draw::setup_words(pipeline)).work == device.work,
        crate::virgl::protocol::framed(crate::virgl::draw::setup_words(pipeline)),
{
    let flags = crate::virgl::encoding::rasterizer_flags(pipeline.cull_mode, pipeline.front_face);
    let part0 = crate::virgl::protocol::surface_words(SURFACE_HANDLE, pipeline.target_resource_id);
    crate::virgl::device::lemma_surface(device, SURFACE_HANDLE, pipeline.target_resource_id);
    let stream0 = part0;
    let device0 = device.run(part0);
    let part1 = crate::virgl::protocol::blend_words(BLEND_HANDLE, OPAQUE_BLEND_STATE);
    crate::virgl::device::lemma_blend(device0, BLEND_HANDLE, OPAQUE_BLEND_STATE);
    crate::virgl::device::lemma_in_order(device, stream0, part1);
    let stream1 = stream0 + part1;
    let device1 = device0.run(part1);
    let part2 = crate::virgl::protocol::bind_object_words(OBJECT_BLEND, BLEND_HANDLE);
    crate::virgl::device::lemma_bind_blend(device1, BLEND_HANDLE);
    crate::virgl::device::lemma_in_order(device, stream1, part2);
    let stream2 = stream1 + part2;
    let device2 = device1.run(part2);
    let part3 = crate::virgl::protocol::rasterizer_words(RASTERIZER_HANDLE, flags);
    crate::virgl::device::lemma_rasterizer(device2, RASTERIZER_HANDLE, flags);
    crate::virgl::device::lemma_in_order(device, stream2, part3);
    let stream3 = stream2 + part3;
    let device3 = device2.run(part3);
    let part4 = crate::virgl::protocol::bind_object_words(OBJECT_RASTERIZER, RASTERIZER_HANDLE);
    crate::virgl::device::lemma_bind_rasterizer(device3, RASTERIZER_HANDLE);
    crate::virgl::device::lemma_in_order(device, stream3, part4);
    let stream4 = stream3 + part4;
    let device4 = device3.run(part4);
    let part5 = crate::virgl::protocol::shader_words(
        VERTEX_SHADER_HANDLE,
        SHADER_VERTEX,
        vstd::utf8::encode_utf8(VERTEX_SHADER@),
    );
    crate::virgl::shaders::lemma_vertex_shader_length();
    crate::virgl::device::lemma_shader(
        device4,
        VERTEX_SHADER_HANDLE,
        SHADER_VERTEX,
        vstd::utf8::encode_utf8(VERTEX_SHADER@),
    );
    crate::virgl::device::lemma_in_order(device, stream4, part5);
    let stream5 = stream4 + part5;
    let device5 = device4.run(part5);
    let part6 = crate::virgl::protocol::bind_shader_words(VERTEX_SHADER_HANDLE, SHADER_VERTEX);
    crate::virgl::device::lemma_bind_shader(device5, VERTEX_SHADER_HANDLE, SHADER_VERTEX);
    crate::virgl::device::lemma_in_order(device, stream5, part6);
    let stream6 = stream5 + part6;
    let device6 = device5.run(part6);
    let part7 = crate::virgl::protocol::shader_words(
        FRAGMENT_SHADER_HANDLE,
        SHADER_FRAGMENT,
        vstd::utf8::encode_utf8(FRAGMENT_SHADER@),
    );
    crate::virgl::shaders::lemma_fragment_shader_length();
    crate::virgl::device::lemma_shader(
        device6,
        FRAGMENT_SHADER_HANDLE,
        SHADER_FRAGMENT,
        vstd::utf8::encode_utf8(FRAGMENT_SHADER@),
    );
    crate::virgl::device::lemma_in_order(device, stream6, part7);
    let stream7 = stream6 + part7;
    let device7 = device6.run(part7);
    let part8 = crate::virgl::protocol::bind_shader_words(FRAGMENT_SHADER_HANDLE, SHADER_FRAGMENT);
    crate::virgl::device::lemma_bind_shader(device7, FRAGMENT_SHADER_HANDLE, SHADER_FRAGMENT);
    crate::virgl::device::lemma_in_order(device, stream7, part8);
    let stream8 = stream7 + part8;
    let device8 = device7.run(part8);
    let part9 = crate::virgl::protocol::two_vertex_elements_words(
        VERTEX_ELEMENTS_HANDLE,
        FORMAT_R32G32B32_FLOAT,
    );
    crate::virgl::device::lemma_two_elements(
        device8,
        VERTEX_ELEMENTS_HANDLE,
        FORMAT_R32G32B32_FLOAT,
    );
    crate::virgl::device::lemma_in_order(device, stream8, part9);
    let stream9 = stream8 + part9;
    let device9 = device8.run(part9);
    let part10 = crate::virgl::protocol::bind_object_words(
        OBJECT_VERTEX_ELEMENTS,
        VERTEX_ELEMENTS_HANDLE,
    );
    crate::virgl::device::lemma_bind_elements(device9, VERTEX_ELEMENTS_HANDLE);
    crate::virgl::device::lemma_in_order(device, stream9, part10);
    let stream10 = stream9 + part10;
    let device10 = device9.run(part10);
    let part11 = crate::virgl::protocol::framebuffer_words(SURFACE_HANDLE);
    crate::virgl::device::lemma_framebuffer(device10, SURFACE_HANDLE);
    crate::virgl::device::lemma_in_order(device, stream10, part11);
    let stream11 = stream10 + part11;
    let device11 = device10.run(part11);
    let part12 = crate::virgl::protocol::vertex_buffer_words(
        VERTEX_BYTES,
        pipeline.vertex_resource_id,
    );
    crate::virgl::device::lemma_vertex_buffer(device11, VERTEX_BYTES, pipeline.vertex_resource_id);
    crate::virgl::device::lemma_in_order(device, stream11, part12);
    let stream12 = stream11 + part12;
    let device12 = device11.run(part12);
    assert(stream12 == crate::virgl::draw::setup_words(pipeline));
    assert(device.run(stream12) == device12);
}

proof fn lemma_bind(device: Device, vertex_resource_id: u32)
    ensures
        device.run(crate::virgl::draw::legacy_bind_words(vertex_resource_id)) == (Device {
            bound: Bound {
                blend: BLEND_HANDLE,
                rasterizer: RASTERIZER_HANDLE,
                vertex_shader: VERTEX_SHADER_HANDLE,
                fragment_shader: FRAGMENT_SHADER_HANDLE,
                elements: VERTEX_ELEMENTS_HANDLE,
                surface: SURFACE_HANDLE,
                stride: 28,
                vertex_buffer: vertex_resource_id,
                ..device.bound
            },
            ..device
        }),
        crate::virgl::protocol::framed(crate::virgl::draw::legacy_bind_words(vertex_resource_id)),
{
    let part0 = crate::virgl::protocol::bind_object_words(OBJECT_BLEND, BLEND_HANDLE);
    crate::virgl::device::lemma_bind_blend(device, BLEND_HANDLE);
    let stream0 = part0;
    let device0 = device.run(part0);
    let part1 = crate::virgl::protocol::bind_object_words(OBJECT_RASTERIZER, RASTERIZER_HANDLE);
    crate::virgl::device::lemma_bind_rasterizer(device0, RASTERIZER_HANDLE);
    crate::virgl::device::lemma_in_order(device, stream0, part1);
    let stream1 = stream0 + part1;
    let device1 = device0.run(part1);
    let part2 = crate::virgl::protocol::bind_shader_words(VERTEX_SHADER_HANDLE, SHADER_VERTEX);
    crate::virgl::device::lemma_bind_shader(device1, VERTEX_SHADER_HANDLE, SHADER_VERTEX);
    crate::virgl::device::lemma_in_order(device, stream1, part2);
    let stream2 = stream1 + part2;
    let device2 = device1.run(part2);
    let part3 = crate::virgl::protocol::bind_shader_words(FRAGMENT_SHADER_HANDLE, SHADER_FRAGMENT);
    crate::virgl::device::lemma_bind_shader(device2, FRAGMENT_SHADER_HANDLE, SHADER_FRAGMENT);
    crate::virgl::device::lemma_in_order(device, stream2, part3);
    let stream3 = stream2 + part3;
    let device3 = device2.run(part3);
    let part4 = crate::virgl::protocol::bind_object_words(
        OBJECT_VERTEX_ELEMENTS,
        VERTEX_ELEMENTS_HANDLE,
    );
    crate::virgl::device::lemma_bind_elements(device3, VERTEX_ELEMENTS_HANDLE);
    crate::virgl::device::lemma_in_order(device, stream3, part4);
    let stream4 = stream3 + part4;
    let device4 = device3.run(part4);
    let part5 = crate::virgl::protocol::framebuffer_words(SURFACE_HANDLE);
    crate::virgl::device::lemma_framebuffer(device4, SURFACE_HANDLE);
    crate::virgl::device::lemma_in_order(device, stream4, part5);
    let stream5 = stream4 + part5;
    let device5 = device4.run(part5);
    let part6 = crate::virgl::protocol::vertex_buffer_words(VERTEX_BYTES, vertex_resource_id);
    crate::virgl::device::lemma_vertex_buffer(device5, VERTEX_BYTES, vertex_resource_id);
    crate::virgl::device::lemma_in_order(device, stream5, part6);
    let stream6 = stream5 + part6;
    let device6 = device5.run(part6);
    assert(stream6 == crate::virgl::draw::legacy_bind_words(vertex_resource_id));
    assert(device.run(stream6) == device6);
}

/// One word of a vertex: position, then color.
pub open spec fn vertex_word(vertex: VertexClip4Color3, component: int) -> u32 {
    if component < 4 {
        vertex.clip_position@[component]
    } else {
        vertex.color@[component - 4]
    }
}

/// A buffer of vertices holds their components in order, seven words for each.
pub proof fn law_triangle_buffers_hold_their_vertices(
    vertices: Seq<VertexClip4Color3>,
    place: int,
    component: int,
)
    requires
        0 <= place < vertices.len(),
        0 <= component < 7,
    ensures
        crate::virgl::draw::vertex_words(vertices).len() == 7 * vertices.len(),
        crate::virgl::draw::vertex_words(vertices)[7 * place + component] == vertex_word(
            vertices[place],
            component,
        ),
    decreases vertices.len(),
{
    let earlier = vertices.drop_last();
    lemma_length(vertices);
    lemma_length(earlier);
    assert(vertices.last() == vertices[vertices.len() - 1]);
    if place < earlier.len() {
        law_triangle_buffers_hold_their_vertices(earlier, place, component);
        assert(crate::virgl::draw::vertex_words(
            vertices,
        )[7 * place + component] == crate::virgl::draw::vertex_words(
            earlier,
        )[7 * place + component]);
    }
}

proof fn lemma_length(vertices: Seq<VertexClip4Color3>)
    ensures
        crate::virgl::draw::vertex_words(vertices).len() == 7 * vertices.len(),
    decreases vertices.len(),
{
    if vertices.len() > 0 {
        lemma_length(vertices.drop_last());
    }
}

/// A submission of colored triangles clears the image and draws all vertices over it
/// with their colors, culled as the pipeline says. It leaves the objects of the pipeline
/// in place.
pub proof fn law_triangles_are_drawn_over_a_clear(
    device: Device,
    pipeline: Pipeline,
    viewport_width: u32,
    viewport_height: u32,
    clear_color: Seq<u32>,
    vertices: Seq<VertexClip4Color3>,
)
    requires
        clear_color.len() == 4,
        7 * vertices.len() <= 0xfff4,
        pipeline.initialized ==> triangle_objects(device, pipeline),
    ensures
        ({
            let after = device.run(
                crate::virgl::draw::submit_words(
                    pipeline,
                    viewport_width,
                    viewport_height,
                    clear_color,
                    vertices,
                ),
            );
            let before = device.work.len() as int;
            &&& triangle_objects(after, pipeline)
            &&& after.work.len() == before + 2
            &&& after.work.take(before) == device.work
            &&& after.work[before] == (Work::Clear {
                target: pipeline.target_resource_id,
                color: clear_color,
            })
            &&& after.work[before + 1] matches Work::Draw(drawn) && {
                &&& drawn.target == pipeline.target_resource_id
                &&& drawn.vertices == crate::virgl::draw::vertex_words(vertices)
                &&& drawn.first == 0
                &&& drawn.count == vertices.len()
                &&& drawn.stride == 28
                &&& drawn.elements == seq![(0u32, 31u32), (16, 30)]
                &&& drawn.vertex_shader == vstd::utf8::encode_utf8(VERTEX_SHADER@)
                &&& drawn.fragment_shader == vstd::utf8::encode_utf8(FRAGMENT_SHADER@)
                &&& drawn.blend == OPAQUE_BLEND_STATE
                &&& drawn.rasterizer == crate::virgl::encoding::rasterizer_flags(
                    pipeline.cull_mode,
                    pipeline.front_face,
                )
                &&& drawn.viewport == crate::virgl::protocol::viewport_words(
                    viewport_width,
                    viewport_height,
                ).skip(2)
            }
        }),
{
    let nothing = Seq::<u32>::empty();
    let part0 = if pipeline.initialized {
        nothing
    } else {
        crate::virgl::draw::setup_words(pipeline)
    };
    lemma_setup(device, pipeline);
    assert(device.run(nothing) == device);
    let device0 = device.run(part0);
    assert(crate::virgl::protocol::framed(part0));
    let part1 = crate::virgl::draw::legacy_bind_words(pipeline.vertex_resource_id);
    lemma_bind(device0, pipeline.vertex_resource_id);
    let device1 = device0.run(part1);
    crate::virgl::device::lemma_in_order(device, part0, part1);
    let part2 = crate::virgl::protocol::viewport_words(viewport_width, viewport_height);
    crate::virgl::device::lemma_viewport(device1, viewport_width, viewport_height);
    let device2 = device1.run(part2);
    crate::virgl::device::lemma_in_order(device, part0 + part1, part2);
    let data = crate::virgl::draw::vertex_words(vertices);
    let part3 = crate::virgl::protocol::inline_write_words(pipeline.vertex_resource_id, data);
    lemma_length(vertices);
    crate::virgl::device::lemma_inline_write(device2, pipeline.vertex_resource_id, data);
    let device3 = device2.run(part3);
    crate::virgl::device::lemma_in_order(device, part0 + part1 + part2, part3);
    let part4 = crate::virgl::protocol::clear_words(clear_color);
    crate::virgl::device::lemma_clear(device3, clear_color);
    let device4 = device3.run(part4);
    crate::virgl::device::lemma_in_order(device, part0 + part1 + part2 + part3, part4);
    let part5 = crate::virgl::protocol::draw_vbo_words(0, vertices.len() as u32);
    crate::virgl::device::lemma_draw(device4, 0, vertices.len() as u32);
    let device5 = device4.run(part5);
    crate::virgl::device::lemma_in_order(device, part0 + part1 + part2 + part3 + part4, part5);
    assert(device5.work.take(device.work.len() as int) =~= device.work);
}

/// A copy between textures copies the source region of the source to the place of the
/// destination region in the destination.
pub proof fn law_copies_copy_between_their_textures(
    device: Device,
    queue: Queue,
    context: Context,
    resources: DeviceView,
    copy: IrTextureCopy,
)
    ensures
        crate::virgl::resources::spec_copy_ir_texture(
            queue,
            context,
            resources,
            copy,
        ).1 matches Ok(words) ==> {
            &&& crate::virgl::resources::in_slot(
                resources.textures,
                copy.source.slot,
            ) matches Some(from)
            && crate::virgl::resources::in_slot(
                resources.textures,
                copy.destination.slot,
            ) matches Some(to)
            && device.run(words).work == device.work.push(
                Work::Copy {
                    source: from.resource_id(),
                    area: copy.source_rect,
                    destination: to.resource_id(),
                    x: copy.destination_rect.x,
                    y: copy.destination_rect.y,
                },
            )
            &&& copy.source_rect.width == copy.destination_rect.width
            &&& copy.source_rect.height == copy.destination_rect.height
        },
{
    if crate::virgl::resources::spec_copy_ir_texture(queue, context, resources, copy).1 is Ok {
        let from = resources.ir_texture(copy.source);
        let to = from.0.ir_texture(copy.destination);
        crate::virgl::device::lemma_copy(
            device,
            to.1->Ok_0.resource_id(),
            copy.destination_rect,
            from.1->Ok_0.resource_id(),
            copy.source_rect,
        );
    }
}

/// An upload goes to the texture of the table at its place, in rows of four bytes for
/// each pixel of its region.
pub proof fn law_uploads_go_to_their_texture(
    queue: Queue,
    context: Context,
    resources: DeviceView,
    spec: IrTextureSpec,
    upload: UploadView,
)
    ensures
        crate::virgl::resources::spec_upload_ir_texture(
            queue,
            context,
            resources,
            spec,
            upload,
        ).1 matches Ok(destination)
            ==> {
            &&& upload.texture.slot == spec.slot
            &&& crate::virgl::resources::in_slot(resources.textures, spec.slot) == Some(
                IrTexture::Internal(destination.0),
            )
            &&& destination.0.width == spec.width
            &&& destination.0.height == spec.height
            &&& destination.1 == 4 * upload.destination.width
            &&& upload.destination.width != 0 && upload.destination.height != 0
        },
{
}

/// The image that is found for a resource has it, and none is found only where no image
/// has it.
pub proof fn law_found_images_have_their_resource(images: Seq<Image>, resource_id: u32)
    ensures
        ({
            let at = crate::virgl::execute::find_image(images, resource_id);
            &&& 0 <= at <= images.len()
            &&& at < images.len() ==> images[at].resource_id == resource_id
            &&& at == images.len() ==> forall|i: int|
                0 <= i < images.len() ==> (#[trigger] images[i]).resource_id != resource_id
        }),
    decreases images.len(),
{
    if images.len() > 0 && images[0].resource_id != resource_id {
        law_found_images_have_their_resource(images.skip(1), resource_id);
        let at = crate::virgl::execute::find_image(images, resource_id);
        if at == images.len() {
            assert forall|i: int| 0 <= i < images.len() implies (#[trigger] images[i]).resource_id
                != resource_id by {
                if i > 0 {
                    assert(images.skip(1)[i - 1] == images[i]);
                }
            }
        }
    }
}

/// A pass into a texture renders into the texture of the table at its place, whole and
/// through its own surface.
pub proof fn law_internal_targets_are_their_texture(
    queue: Queue,
    context: Context,
    resources: DeviceView,
    target: IrTextureSpec,
)
    ensures
        crate::virgl::pass::spec_internal_target(
            queue,
            context,
            resources,
            target,
        ).1 matches Ok(found) ==> {
            &&& crate::virgl::resources::in_slot(
                resources.textures,
                target.slot,
            ) matches Some(IrTexture::Internal(texture))
            && {
                &&& found.resource_id == texture.resource_id
                &&& found.surface_handle == texture.ir_surface_handle
                &&& found.surface_initialized == texture.ir_surface_initialized
                &&& found.width == texture.width
                &&& found.height == texture.height
            }
            &&& target.render_attachment
        },
{
}

/// Whether a vertex of a rectangle is at its right edge. The two triangles run upper
/// left, lower left, lower right, then upper left, lower right, upper right.
pub open spec fn at_right(vertex: int) -> bool {
    vertex == 2 || vertex == 4 || vertex == 5
}

/// Whether a vertex of a rectangle is at its lower edge.
pub open spec fn at_bottom(vertex: int) -> bool {
    vertex == 1 || vertex == 2 || vertex == 4
}

proof fn lemma_sixths(
    a: Seq<u32>,
    b: Seq<u32>,
    c: Seq<u32>,
    d: Seq<u32>,
    e: Seq<u32>,
    f: Seq<u32>,
)
    requires
        a.len() == 10,
        b.len() == 10,
        c.len() == 10,
        d.len() == 10,
        e.len() == 10,
        f.len() == 10,
    ensures
        (a + b + c + d + e + f).len() == 60,
        (a + b + c + d + e + f).subrange(0, 10) == a,
        (a + b + c + d + e + f).subrange(10, 20) == b,
        (a + b + c + d + e + f).subrange(20, 30) == c,
        (a + b + c + d + e + f).subrange(30, 40) == d,
        (a + b + c + d + e + f).subrange(40, 50) == e,
        (a + b + c + d + e + f).subrange(50, 60) == f,
{
    let all = a + b + c + d + e + f;
    assert(all.subrange(0, 10) =~= a);
    assert(all.subrange(10, 20) =~= b);
    assert(all.subrange(20, 30) =~= c);
    assert(all.subrange(30, 40) =~= d);
    assert(all.subrange(40, 50) =~= e);
    assert(all.subrange(50, 60) =~= f);
}

proof fn lemma_vertex_fields(x: u32, y: u32, u: u32, v: u32, color: Seq<u32>)
    requires
        color.len() == 4,
    ensures
        ({
            let words = crate::virgl::composition::vertex_words(x, y, u, v, color);
            &&& words.len() == 10
            &&& words[0] == x
            &&& words[1] == y
            &&& words[2] == 0
            &&& words[3] == 0x3f80_0000
            &&& words[4] == u
            &&& words[5] == v
            &&& words.subrange(6, 10) == color
        }),
{
    let words = crate::virgl::composition::vertex_words(x, y, u, v, color);
    assert(words.subrange(6, 10) =~= color);
}

proof fn lemma_corner(
    target_width: u32,
    target_height: u32,
    destination: IrRect,
    source: IrRect,
    source_width: u32,
    source_height: u32,
    color: Seq<u32>,
    vertex: int,
)
    requires
        0 <= vertex < 6,
        color.len() == 4,
    ensures
        ({
            let quad = crate::virgl::composition::quad_words(
                target_width,
                target_height,
                destination,
                source,
                source_width,
                source_height,
                color,
            );
            let words = quad.subrange(10 * vertex, 10 * vertex + 10);
            let right = at_right(vertex);
            let bottom = at_bottom(vertex);
            &&& quad.len() == 60
            &&& words[0] == crate::ir::rounding::clip_x(
                (destination.x + (if right {
                    destination.width as int
                } else {
                    0
                })) as u32,
                target_width,
            )
            &&& words[1] == crate::ir::rounding::clip_y(
                (destination.y + (if bottom {
                    destination.height as int
                } else {
                    0
                })) as u32,
                target_height,
            )
            &&& words[2] == 0
            &&& words[3] == 0x3f80_0000
            &&& words[4] == crate::ir::rounding::texture_coordinate(
                (source.x + (if right {
                    source.width as int
                } else {
                    0
                })) as u32,
                source_width,
            )
            &&& words[5] == crate::ir::rounding::texture_coordinate(
                (source.y + (if bottom {
                    source.height as int
                } else {
                    0
                })) as u32,
                source_height,
            )
            &&& words.subrange(6, 10) == color
        }),
{
    let left = crate::ir::rounding::clip_x(destination.x, target_width);
    let right = crate::ir::rounding::clip_x(
        (destination.x + destination.width) as u32,
        target_width,
    );
    let top = crate::ir::rounding::clip_y(destination.y, target_height);
    let bottom = crate::ir::rounding::clip_y(
        (destination.y + destination.height) as u32,
        target_height,
    );
    let u0 = crate::ir::rounding::texture_coordinate(source.x, source_width);
    let u1 = crate::ir::rounding::texture_coordinate(
        (source.x + source.width) as u32,
        source_width,
    );
    let v0 = crate::ir::rounding::texture_coordinate(source.y, source_height);
    let v1 = crate::ir::rounding::texture_coordinate(
        (source.y + source.height) as u32,
        source_height,
    );
    lemma_vertex_fields(left, top, u0, v0, color);
    lemma_vertex_fields(left, bottom, u0, v1, color);
    lemma_vertex_fields(right, bottom, u1, v1, color);
    lemma_vertex_fields(right, top, u1, v0, color);
    let a = crate::virgl::composition::vertex_words(left, top, u0, v0, color);
    let b = crate::virgl::composition::vertex_words(left, bottom, u0, v1, color);
    let c = crate::virgl::composition::vertex_words(right, bottom, u1, v1, color);
    let d = crate::virgl::composition::vertex_words(right, top, u1, v0, color);
    lemma_sixths(a, b, c, a, c, d);
    assert(vertex == 0 || vertex == 1 || vertex == 2 || vertex == 3 || vertex == 4 || vertex == 5);
}

/// The vertices of an operation lie at the corners of its destination, with the texture
/// coordinates of the same corners of its source. They carry the opacity of a textured
/// operation over white, or the color of a solid one.
pub proof fn law_quads_cover_their_rectangle(
    operation: CompositionOperation,
    image: Image,
    vertex: int,
)
    requires
        0 <= vertex < 6,
    ensures
        ({
            let words = operation.quad(image).subrange(10 * vertex, 10 * vertex + 10);
            let destination = match operation {
                CompositionOperation::Textured { destination, .. } => destination,
                CompositionOperation::Solid { destination, .. } => destination,
            };
            let column = destination.x + (if at_right(vertex) {
                destination.width as int
            } else {
                0
            });
            let row = destination.y + (if at_bottom(vertex) {
                destination.height as int
            } else {
                0
            });
            &&& operation.quad(image).len() == 60
            &&& words[0] == crate::ir::rounding::clip_x(column as u32, image.width)
            &&& words[1] == crate::ir::rounding::clip_y(row as u32, image.height)
            &&& words[2] == 0
            &&& words[3] == 0x3f80_0000
            &&& match operation {
                CompositionOperation::Textured { texture, source, opacity, .. } => {
                    &&& words[4] == crate::ir::rounding::texture_coordinate(
                        (source.x + (if at_right(vertex) {
                            source.width as int
                        } else {
                            0
                        })) as u32,
                        texture.width,
                    )
                    &&& words[5] == crate::ir::rounding::texture_coordinate(
                        (source.y + (if at_bottom(vertex) {
                            source.height as int
                        } else {
                            0
                        })) as u32,
                        texture.height,
                    )
                    &&& words.subrange(6, 10) == seq![
                        0x3f80_0000u32,
                        0x3f80_0000u32,
                        0x3f80_0000u32,
                        opacity,
                    ]
                },
                CompositionOperation::Solid { color, .. } => words.subrange(6, 10) == color@,
            }
        }),
{
    match operation {
        CompositionOperation::Textured { texture, destination, source, opacity, .. } => {
            lemma_corner(
                image.width,
                image.height,
                destination,
                source,
                texture.width,
                texture.height,
                seq![0x3f80_0000u32, 0x3f80_0000u32, 0x3f80_0000u32, opacity],
                vertex,
            );
        },
        CompositionOperation::Solid { destination, color, .. } => {
            lemma_corner(
                image.width,
                image.height,
                destination,
                IrRect { x: 0, y: 0, width: 1, height: 1 },
                1,
                1,
                color@,
                vertex,
            );
        },
    }
}

} // verus!
