//! What a device draws for a composition.

use crate::virgl::composition::{
    CompositionOperation, SourceAlpha, COMPOSITION_BLEND_HANDLE, COMPOSITION_BLEND_STATE,
    COMPOSITION_RASTERIZER_FLAGS, COMPOSITION_RASTERIZER_HANDLE, COMPOSITION_SAMPLER_STATE,
    COMPOSITION_SAMPLER_STATE_HANDLE, COMPOSITION_SOLID_SHADER_HANDLE,
    COMPOSITION_TEXTURE_ALPHA_SHADER_HANDLE, COMPOSITION_TEXTURE_OPAQUE_SHADER_HANDLE,
    COMPOSITION_VERTEX_BYTES, COMPOSITION_VERTEX_ELEMENTS_HANDLE,
    COMPOSITION_VERTEX_SHADER_HANDLE,
};
use crate::virgl::device::{Bound, Device, Drawn, Edges, Work};
use crate::virgl::protocol::{
    OBJECT_BLEND, OBJECT_RASTERIZER, OBJECT_VERTEX_ELEMENTS, SHADER_FRAGMENT, SHADER_VERTEX,
};
use crate::virgl::shaders::{
    COMPOSITION_SOLID_SHADER, COMPOSITION_TEXTURE_ALPHA_SHADER, COMPOSITION_TEXTURE_OPAQUE_SHADER,
    COMPOSITION_VERTEX_SHADER,
};
use crate::virgl::state::{Image, Queue, Texture};
use vstd::prelude::*;

verus! {

/// Whether a device has the objects of compositions: the blending that puts a source
/// over the destination, the rasterizer that applies the scissor, the programs, the
/// vertex layout and the sampler.
pub open spec fn composition_objects(device: Device) -> bool {
    &&& device.blends[COMPOSITION_BLEND_HANDLE] == COMPOSITION_BLEND_STATE
    &&& device.rasterizers[COMPOSITION_RASTERIZER_HANDLE] == COMPOSITION_RASTERIZER_FLAGS
    &&& device.shaders[COMPOSITION_VERTEX_SHADER_HANDLE].1 == vstd::utf8::encode_utf8(
        COMPOSITION_VERTEX_SHADER@,
    )
    &&& device.shaders[COMPOSITION_TEXTURE_ALPHA_SHADER_HANDLE].1 == vstd::utf8::encode_utf8(
        COMPOSITION_TEXTURE_ALPHA_SHADER@,
    )
    &&& device.shaders[COMPOSITION_TEXTURE_OPAQUE_SHADER_HANDLE].1 == vstd::utf8::encode_utf8(
        COMPOSITION_TEXTURE_OPAQUE_SHADER@,
    )
    &&& device.shaders[COMPOSITION_SOLID_SHADER_HANDLE].1 == vstd::utf8::encode_utf8(
        COMPOSITION_SOLID_SHADER@,
    )
    &&& device.elements[COMPOSITION_VERTEX_ELEMENTS_HANDLE] == seq![
        (0u32, 31u32),
        (16, 29),
        (24, 31),
    ]
    &&& device.samplers[COMPOSITION_SAMPLER_STATE_HANDLE] == COMPOSITION_SAMPLER_STATE
}

/// The first composition creates the objects of compositions, and leaves everything else
/// of the device as it is.
pub proof fn law_compositions_create_their_objects(device: Device)
    ensures
        composition_objects(device.run(crate::virgl::composition::composition_setup_words())),
        device.run(crate::virgl::composition::composition_setup_words()) == (Device {
            blends: device.run(crate::virgl::composition::composition_setup_words()).blends,
            rasterizers: device.run(
                crate::virgl::composition::composition_setup_words(),
            ).rasterizers,
            shaders: device.run(crate::virgl::composition::composition_setup_words()).shaders,
            elements: device.run(crate::virgl::composition::composition_setup_words()).elements,
            samplers: device.run(crate::virgl::composition::composition_setup_words()).samplers,
            ..device
        }),
        crate::virgl::protocol::framed(crate::virgl::composition::composition_setup_words()),
{
    let part0 = crate::virgl::protocol::blend_words(
        COMPOSITION_BLEND_HANDLE,
        COMPOSITION_BLEND_STATE,
    );
    crate::virgl::device::lemma_blend(device, COMPOSITION_BLEND_HANDLE, COMPOSITION_BLEND_STATE);
    let stream0 = part0;
    let device0 = device.run(part0);
    let part1 = crate::virgl::protocol::rasterizer_words(
        COMPOSITION_RASTERIZER_HANDLE,
        COMPOSITION_RASTERIZER_FLAGS,
    );
    crate::virgl::device::lemma_rasterizer(
        device0,
        COMPOSITION_RASTERIZER_HANDLE,
        COMPOSITION_RASTERIZER_FLAGS,
    );
    crate::virgl::device::lemma_in_order(device, stream0, part1);
    let stream1 = stream0 + part1;
    let device1 = device0.run(part1);
    let part2 = crate::virgl::protocol::shader_words(
        COMPOSITION_VERTEX_SHADER_HANDLE,
        SHADER_VERTEX,
        vstd::utf8::encode_utf8(COMPOSITION_VERTEX_SHADER@),
    );
    crate::virgl::shaders::lemma_composition_vertex_shader_length();
    crate::virgl::device::lemma_shader(
        device1,
        COMPOSITION_VERTEX_SHADER_HANDLE,
        SHADER_VERTEX,
        vstd::utf8::encode_utf8(COMPOSITION_VERTEX_SHADER@),
    );
    crate::virgl::device::lemma_in_order(device, stream1, part2);
    let stream2 = stream1 + part2;
    let device2 = device1.run(part2);
    let part3 = crate::virgl::protocol::shader_words(
        COMPOSITION_TEXTURE_ALPHA_SHADER_HANDLE,
        SHADER_FRAGMENT,
        vstd::utf8::encode_utf8(COMPOSITION_TEXTURE_ALPHA_SHADER@),
    );
    crate::virgl::shaders::lemma_composition_texture_alpha_shader_length();
    crate::virgl::device::lemma_shader(
        device2,
        COMPOSITION_TEXTURE_ALPHA_SHADER_HANDLE,
        SHADER_FRAGMENT,
        vstd::utf8::encode_utf8(COMPOSITION_TEXTURE_ALPHA_SHADER@),
    );
    crate::virgl::device::lemma_in_order(device, stream2, part3);
    let stream3 = stream2 + part3;
    let device3 = device2.run(part3);
    let part4 = crate::virgl::protocol::shader_words(
        COMPOSITION_TEXTURE_OPAQUE_SHADER_HANDLE,
        SHADER_FRAGMENT,
        vstd::utf8::encode_utf8(COMPOSITION_TEXTURE_OPAQUE_SHADER@),
    );
    crate::virgl::shaders::lemma_composition_texture_opaque_shader_length();
    crate::virgl::device::lemma_shader(
        device3,
        COMPOSITION_TEXTURE_OPAQUE_SHADER_HANDLE,
        SHADER_FRAGMENT,
        vstd::utf8::encode_utf8(COMPOSITION_TEXTURE_OPAQUE_SHADER@),
    );
    crate::virgl::device::lemma_in_order(device, stream3, part4);
    let stream4 = stream3 + part4;
    let device4 = device3.run(part4);
    let part5 = crate::virgl::protocol::shader_words(
        COMPOSITION_SOLID_SHADER_HANDLE,
        SHADER_FRAGMENT,
        vstd::utf8::encode_utf8(COMPOSITION_SOLID_SHADER@),
    );
    crate::virgl::shaders::lemma_composition_solid_shader_length();
    crate::virgl::device::lemma_shader(
        device4,
        COMPOSITION_SOLID_SHADER_HANDLE,
        SHADER_FRAGMENT,
        vstd::utf8::encode_utf8(COMPOSITION_SOLID_SHADER@),
    );
    crate::virgl::device::lemma_in_order(device, stream4, part5);
    let stream5 = stream4 + part5;
    let device5 = device4.run(part5);
    let part6 = crate::virgl::protocol::composition_vertex_elements_words(
        COMPOSITION_VERTEX_ELEMENTS_HANDLE,
    );
    crate::virgl::device::lemma_composition_elements(device5, COMPOSITION_VERTEX_ELEMENTS_HANDLE);
    crate::virgl::device::lemma_in_order(device, stream5, part6);
    let stream6 = stream5 + part6;
    let device6 = device5.run(part6);
    let part7 = crate::virgl::protocol::sampler_state_words(
        COMPOSITION_SAMPLER_STATE_HANDLE,
        COMPOSITION_SAMPLER_STATE,
    );
    crate::virgl::device::lemma_sampler_state(
        device6,
        COMPOSITION_SAMPLER_STATE_HANDLE,
        COMPOSITION_SAMPLER_STATE,
    );
    crate::virgl::device::lemma_in_order(device, stream6, part7);
    let stream7 = stream6 + part7;
    let device7 = device6.run(part7);
    assert(stream7 == crate::virgl::composition::composition_setup_words());
    assert(device.run(stream7) == device7);
}

proof fn lemma_bound(device: Device, surface_handle: u32, vertex_resource_id: u32)
    ensures
        device.run(
            crate::virgl::composition::composition_bind_words(surface_handle, vertex_resource_id),
        ) == (Device {
            bound: Bound {
                blend: COMPOSITION_BLEND_HANDLE,
                rasterizer: COMPOSITION_RASTERIZER_HANDLE,
                vertex_shader: COMPOSITION_VERTEX_SHADER_HANDLE,
                elements: COMPOSITION_VERTEX_ELEMENTS_HANDLE,
                surface: surface_handle,
                stride: COMPOSITION_VERTEX_BYTES,
                vertex_buffer: vertex_resource_id,
                sampler: COMPOSITION_SAMPLER_STATE_HANDLE,
                ..device.bound
            },
            ..device
        }),
        crate::virgl::protocol::framed(
            crate::virgl::composition::composition_bind_words(surface_handle, vertex_resource_id),
        ),
{
    let part0 = crate::virgl::protocol::bind_object_words(OBJECT_BLEND, COMPOSITION_BLEND_HANDLE);
    crate::virgl::device::lemma_bind_blend(device, COMPOSITION_BLEND_HANDLE);
    let stream0 = part0;
    let device0 = device.run(part0);
    let part1 = crate::virgl::protocol::bind_object_words(
        OBJECT_RASTERIZER,
        COMPOSITION_RASTERIZER_HANDLE,
    );
    crate::virgl::device::lemma_bind_rasterizer(device0, COMPOSITION_RASTERIZER_HANDLE);
    crate::virgl::device::lemma_in_order(device, stream0, part1);
    let stream1 = stream0 + part1;
    let device1 = device0.run(part1);
    let part2 = crate::virgl::protocol::bind_shader_words(
        COMPOSITION_VERTEX_SHADER_HANDLE,
        SHADER_VERTEX,
    );
    crate::virgl::device::lemma_bind_shader(
        device1,
        COMPOSITION_VERTEX_SHADER_HANDLE,
        SHADER_VERTEX,
    );
    crate::virgl::device::lemma_in_order(device, stream1, part2);
    let stream2 = stream1 + part2;
    let device2 = device1.run(part2);
    let part3 = crate::virgl::protocol::bind_object_words(
        OBJECT_VERTEX_ELEMENTS,
        COMPOSITION_VERTEX_ELEMENTS_HANDLE,
    );
    crate::virgl::device::lemma_bind_elements(device2, COMPOSITION_VERTEX_ELEMENTS_HANDLE);
    crate::virgl::device::lemma_in_order(device, stream2, part3);
    let stream3 = stream2 + part3;
    let device3 = device2.run(part3);
    let part4 = crate::virgl::protocol::framebuffer_words(surface_handle);
    crate::virgl::device::lemma_framebuffer(device3, surface_handle);
    crate::virgl::device::lemma_in_order(device, stream3, part4);
    let stream4 = stream3 + part4;
    let device4 = device3.run(part4);
    let part5 = crate::virgl::protocol::vertex_buffer_words(
        COMPOSITION_VERTEX_BYTES,
        vertex_resource_id,
    );
    crate::virgl::device::lemma_vertex_buffer(
        device4,
        COMPOSITION_VERTEX_BYTES,
        vertex_resource_id,
    );
    crate::virgl::device::lemma_in_order(device, stream4, part5);
    let stream5 = stream4 + part5;
    let device5 = device4.run(part5);
    let part6 = crate::virgl::protocol::sampler_state_binding_words(
        COMPOSITION_SAMPLER_STATE_HANDLE,
    );
    crate::virgl::device::lemma_sampler_binding(device5, COMPOSITION_SAMPLER_STATE_HANDLE);
    crate::virgl::device::lemma_in_order(device, stream5, part6);
    let stream6 = stream5 + part6;
    let device6 = device5.run(part6);
    assert(stream6 == crate::virgl::composition::composition_bind_words(
        surface_handle,
        vertex_resource_id,
    ));
    assert(device.run(stream6) == device6);
}

/// The area that an operation may change: its clip, or the whole image.
pub open spec fn clip_edges(operation: CompositionOperation, image: Image) -> Edges {
    let clip = match operation {
        CompositionOperation::Textured { clip, .. } => clip,
        CompositionOperation::Solid { clip, .. } => clip,
    };
    match clip {
        Some(area) => Edges {
            left: area.x,
            top: area.y,
            right: (area.x + area.width) as u32,
            bottom: (area.y + area.height) as u32,
        },
        None => Edges { left: 0, top: 0, right: image.width, bottom: image.height },
    }
}

/// Whether a draw is that of an operation at a place: six vertices of the operation over
/// the image, within its clip, blended over it. A textured operation samples its own
/// texture, with the program that scales by the alpha of the texture exactly where it is
/// respected.
pub open spec fn draws_operation(
    drawn: Drawn,
    operation: CompositionOperation,
    image: Image,
    place: int,
) -> bool {
    &&& drawn.target == image.resource_id
    &&& drawn.vertex_shader == vstd::utf8::encode_utf8(COMPOSITION_VERTEX_SHADER@)
    &&& drawn.elements == seq![(0u32, 31u32), (16, 29), (24, 31)]
    &&& drawn.stride == 40
    &&& drawn.blend == COMPOSITION_BLEND_STATE
    &&& drawn.rasterizer == COMPOSITION_RASTERIZER_FLAGS
    &&& drawn.viewport == crate::virgl::protocol::viewport_words(image.width, image.height).skip(2)
    &&& drawn.first == 6 * place
    &&& drawn.count == 6
    &&& drawn.vertices.subrange(60 * place, 60 * place + 60) == operation.quad(image)
    &&& drawn.scissor == clip_edges(operation, image)
    &&& match operation {
        CompositionOperation::Textured { texture, source_alpha, .. } => {
            &&& drawn.sampled == texture.resource_id
            &&& drawn.sampler == COMPOSITION_SAMPLER_STATE
            &&& source_alpha is Respect ==> drawn.fragment_shader == vstd::utf8::encode_utf8(
                COMPOSITION_TEXTURE_ALPHA_SHADER@,
            )
            &&& source_alpha is Ignore ==> drawn.fragment_shader == vstd::utf8::encode_utf8(
                COMPOSITION_TEXTURE_OPAQUE_SHADER@,
            )
        },
        CompositionOperation::Solid { .. } => drawn.fragment_shader == vstd::utf8::encode_utf8(
            COMPOSITION_SOLID_SHADER@,
        ),
    }
}

/// The texture of an operation.
pub open spec fn texture_of(operation: CompositionOperation) -> Option<Texture> {
    match operation {
        CompositionOperation::Textured { texture, .. } => Some(texture),
        CompositionOperation::Solid { .. } => None,
    }
}

/// Whether operations name each view for one resource only.
pub open spec fn views_agree(operations: Seq<CompositionOperation>) -> bool {
    forall|i: int, j: int|
        0 <= i < operations.len() && 0 <= j < operations.len() && #[trigger] texture_of(
            operations[i],
        ) is Some && #[trigger] texture_of(operations[j]) is Some && texture_of(
            operations[i],
        )->0.sampler_view_handle == texture_of(operations[j])->0.sampler_view_handle
            ==> texture_of(operations[i])->0.resource_id == texture_of(operations[j])->0.resource_id
}

/// Whether a device has the views that textures already have, and some created ones.
pub open spec fn views_exist(
    device: Device,
    operations: Seq<CompositionOperation>,
    created: Seq<u32>,
) -> bool {
    forall|i: int|
        0 <= i < operations.len() && (#[trigger] texture_of(operations[i])) is Some && (texture_of(
            operations[i],
        )->0.sampler_view_initialized || created.contains(
            texture_of(operations[i])->0.sampler_view_handle,
        )) ==> device.views[texture_of(operations[i])->0.sampler_view_handle] == texture_of(
            operations[i],
        )->0.resource_id
}

/// What the draws of operations leave of a device: everything but the views, the work,
/// and three bindings.
spec fn between(base: Device, device: Device) -> bool {
    device == (Device {
        bound: Bound {
            scissor: device.bound.scissor,
            fragment_shader: device.bound.fragment_shader,
            view: device.bound.view,
            ..base.bound
        },
        views: device.views,
        work: device.work,
        ..base
    })
}

/// What a device is bound to before the operations of a composition are drawn.
spec fn prepared(
    base: Device,
    image: Image,
    operations: Seq<CompositionOperation>,
    vertex_resource_id: u32,
) -> bool {
    &&& composition_objects(base)
    &&& base.surfaces[base.bound.surface] == image.resource_id
    &&& base.bound.blend == COMPOSITION_BLEND_HANDLE
    &&& base.bound.rasterizer == COMPOSITION_RASTERIZER_HANDLE
    &&& base.bound.vertex_shader == COMPOSITION_VERTEX_SHADER_HANDLE
    &&& base.bound.elements == COMPOSITION_VERTEX_ELEMENTS_HANDLE
    &&& base.bound.stride == 40
    &&& base.bound.vertex_buffer == vertex_resource_id
    &&& base.bound.sampler == COMPOSITION_SAMPLER_STATE_HANDLE
    &&& base.bound.viewport == crate::virgl::protocol::viewport_words(
        image.width,
        image.height,
    ).skip(2)
    &&& base.buffers[vertex_resource_id] == crate::virgl::composition::quads(operations, image)
}

/// The vertices of an operation are at its place.
proof fn lemma_quad_at(operations: Seq<CompositionOperation>, image: Image, place: int)
    requires
        0 <= place < operations.len(),
    ensures
        crate::virgl::composition::quads(operations, image).len() == 60 * operations.len(),
        crate::virgl::composition::quads(operations, image).subrange(60 * place, 60 * place + 60)
            == operations[place].quad(image),
    decreases operations.len(),
{
    crate::virgl::composition::lemma_quads_length(operations, image);
    let earlier = operations.drop_last();
    crate::virgl::composition::lemma_quads_length(earlier, image);
    let all = crate::virgl::composition::quads(operations, image);
    let before = crate::virgl::composition::quads(earlier, image);
    if place == operations.len() - 1 {
        assert(all.subrange(60 * place, 60 * place + 60) =~= operations.last().quad(image));
    } else {
        lemma_quad_at(earlier, image, place);
        assert(all.subrange(60 * place, 60 * place + 60) =~= before.subrange(
            60 * place,
            60 * place + 60,
        ));
    }
}

proof fn lemma_operation(
    base: Device,
    device: Device,
    operations: Seq<CompositionOperation>,
    image: Image,
    created: Seq<u32>,
    place: int,
    vertex_resource_id: u32,
)
    requires
        0 <= place < operations.len() <= 64,
        prepared(base, image, operations, vertex_resource_id),
        between(base, device),
        views_agree(operations),
        views_exist(device, operations, created),
        crate::virgl::protocol::scissor_fits(operations[place].clip_area(image)),
    ensures
        ({
            let words = crate::virgl::composition::operation_words(
                operations[place],
                image,
                created,
                (6 * place) as u32,
            );
            let after = device.run(words);
            let next = match texture_of(operations[place]) {
                Some(texture) => if texture.sampler_view_initialized || created.contains(
                    texture.sampler_view_handle,
                ) {
                    created
                } else {
                    created.push(texture.sampler_view_handle)
                },
                None => created,
            };
            &&& crate::virgl::protocol::framed(words)
            &&& between(base, after)
            &&& views_exist(after, operations, next)
            &&& after.work.len() == device.work.len() + 1
            &&& after.work.take(device.work.len() as int) == device.work
            &&& after.work.last() matches Work::Draw(drawn) && draws_operation(
                drawn,
                operations[place],
                image,
                place,
            )
        }),
{
    let operation = operations[place];
    let clip = operation.clip_area(image);
    let first = crate::virgl::protocol::scissor_words(clip);
    let last = crate::virgl::protocol::draw_vbo_words((6 * place) as u32, 6);
    crate::virgl::device::lemma_scissor(device, clip);
    let device1 = device.run(first);
    assert(device1.bound.scissor == clip_edges(operation, image));
    lemma_quad_at(operations, image, place);
    match operation {
        CompositionOperation::Textured { texture, source_alpha, .. } => {
            let known = texture.sampler_view_initialized || created.contains(
                texture.sampler_view_handle,
            );
            let view = if known {
                Seq::<u32>::empty()
            } else {
                crate::virgl::protocol::sampler_view_words(
                    texture.sampler_view_handle,
                    texture.resource_id,
                )
            };
            let shader = match source_alpha {
                SourceAlpha::Respect => COMPOSITION_TEXTURE_ALPHA_SHADER_HANDLE,
                SourceAlpha::Ignore => COMPOSITION_TEXTURE_OPAQUE_SHADER_HANDLE,
            };
            let program = crate::virgl::protocol::bind_shader_words(shader, SHADER_FRAGMENT);
            let binding = crate::virgl::protocol::sampler_view_binding_words(
                texture.sampler_view_handle,
            );
            crate::virgl::device::lemma_sampler_view(
                device1,
                texture.sampler_view_handle,
                texture.resource_id,
            );
            assert(crate::virgl::protocol::framed(view));
            let device2 = device1.run(view);
            assert(device1.run(Seq::<u32>::empty()) == device1);
            crate::virgl::device::lemma_bind_shader(device2, shader, SHADER_FRAGMENT);
            let device3 = device2.run(program);
            crate::virgl::device::lemma_view_binding(device3, texture.sampler_view_handle);
            let device4 = device3.run(binding);
            crate::virgl::device::lemma_draw(device4, (6 * place) as u32, 6);
            let device5 = device4.run(last);
            crate::virgl::device::lemma_in_order(device1, view, program);
            crate::virgl::device::lemma_in_order(device1, view + program, binding);
            crate::virgl::device::lemma_in_order(device, first, view + program + binding);
            crate::virgl::device::lemma_in_order(device, first + (view + program + binding), last);
            assert(crate::virgl::composition::operation_words(
                operation,
                image,
                created,
                (6 * place) as u32,
            ) == first + (
            view + program + binding) + last);
            assert(texture_of(operations[place]) == Some(texture));
            let next = if known {
                created
            } else {
                created.push(texture.sampler_view_handle)
            };
            assert forall|i: int|
                0 <= i < operations.len() && (#[trigger] texture_of(operations[i])) is Some && (
                texture_of(operations[i])->0.sampler_view_initialized || next.contains(
                    texture_of(operations[i])->0.sampler_view_handle,
                )) implies device5.views[texture_of(operations[i])->0.sampler_view_handle]
                == texture_of(operations[i])->0.resource_id by {
                let other = texture_of(operations[i])->0;
                if other.sampler_view_handle != texture.sampler_view_handle {
                    if next.contains(other.sampler_view_handle) {
                        let k = choose|k: int|
                            0 <= k < next.len() && next[k] == other.sampler_view_handle;
                        assert(created[k] == other.sampler_view_handle);
                    }
                } else {
                    assert(texture_of(operations[place]) is Some);
                }
            }
            assert(views_exist(device5, operations, next));
            assert(device5.views[texture.sampler_view_handle] == texture.resource_id);
            assert(device5.work.take(device.work.len() as int) =~= device.work);
        },
        CompositionOperation::Solid { .. } => {
            let program = crate::virgl::protocol::bind_shader_words(
                COMPOSITION_SOLID_SHADER_HANDLE,
                SHADER_FRAGMENT,
            );
            crate::virgl::device::lemma_bind_shader(
                device1,
                COMPOSITION_SOLID_SHADER_HANDLE,
                SHADER_FRAGMENT,
            );
            let device2 = device1.run(program);
            crate::virgl::device::lemma_draw(device2, (6 * place) as u32, 6);
            let device3 = device2.run(last);
            crate::virgl::device::lemma_in_order(device, first, program);
            crate::virgl::device::lemma_in_order(device, first + program, last);
            assert(crate::virgl::composition::operation_words(
                operation,
                image,
                created,
                (6 * place) as u32,
            ) == first
                + program + last);
            assert(views_exist(device3, operations, created));
            assert(device3.work.take(device.work.len() as int) =~= device.work);
        },
    }
}

proof fn lemma_operations(
    base: Device,
    operations: Seq<CompositionOperation>,
    image: Image,
    count: int,
    vertex_resource_id: u32,
)
    requires
        0 <= count <= operations.len() <= 64,
        prepared(base, image, operations, vertex_resource_id),
        views_agree(operations),
        views_exist(base, operations, Seq::empty()),
        forall|i: int|
            0 <= i < operations.len() ==> crate::virgl::protocol::scissor_fits(
                (#[trigger] operations[i]).clip_area(image),
            ),
    ensures
        ({
            let words = crate::virgl::composition::draw_words(operations.take(count), image);
            let after = base.run(words);
            &&& crate::virgl::protocol::framed(words)
            &&& between(base, after)
            &&& views_exist(
                after,
                operations,
                crate::virgl::composition::new_views(operations.take(count)),
            )
            &&& after.work.len() == base.work.len() + count
            &&& after.work.take(base.work.len() as int) == base.work
            &&& forall|i: int|
                0 <= i < count ==> ((#[trigger] after.work[base.work.len() + i]) matches Work::Draw(
                    drawn,
                ) && draws_operation(drawn, operations[i], image, i))
        }),
    decreases count,
{
    if count == 0 {
        assert(operations.take(0) =~= Seq::<CompositionOperation>::empty());
        assert(base.work.take(base.work.len() as int) =~= base.work);
    } else {
        let earlier = operations.take(count - 1);
        lemma_operations(base, operations, image, count - 1, vertex_resource_id);
        assert(operations.take(count).drop_last() =~= earlier);
        assert(operations.take(count).last() == operations[count - 1]);
        let words = crate::virgl::composition::draw_words(earlier, image);
        let created = crate::virgl::composition::new_views(earlier);
        let device = base.run(words);
        lemma_operation(
            base,
            device,
            operations,
            image,
            created,
            count - 1,
            vertex_resource_id,
        );
        let more = crate::virgl::composition::operation_words(
            operations[count - 1],
            image,
            created,
            (6 * (count - 1)) as u32,
        );
        crate::virgl::device::lemma_in_order(base, words, more);
        let after = device.run(more);
        assert(crate::virgl::composition::draw_words(
            operations.take(count),
            image,
        ) == words + more);
        assert forall|i: int| 0 <= i < count implies ((
        #[trigger] after.work[base.work.len() + i]) matches Work::Draw(drawn) && draws_operation(
            drawn,
            operations[i],
            image,
            i,
        )) by {
            if i < count - 1 {
                assert(after.work[base.work.len() + i] == after.work.take(
                    device.work.len() as int,
                )[base.work.len() + i]);
                assert(device.work[base.work.len() + i] is Draw);
            }
        }
        assert(after.work.take(base.work.len() as int) =~= device.work.take(
            base.work.len() as int,
        ));
    }
}

/// A composition clears the image to its color and draws every operation once, in order.
/// Objects that exist already are used as they are.
pub proof fn law_compositions_draw_their_operations(
    device: Device,
    queue: Queue,
    image: Image,
    clear_color: Seq<u32>,
    operations: Seq<CompositionOperation>,
    max_command_bytes: u32,
)
    requires
        crate::virgl::composition::composable(
            queue,
            image,
            clear_color,
            operations,
            max_command_bytes,
        ),
        clear_color.len() == 4,
        queue.composition_initialized ==> composition_objects(device),
        image.composition_surface_initialized
            ==> device.surfaces[image.composition_surface_handle] == image.resource_id,
        views_agree(operations),
        views_exist(device, operations, Seq::empty()),
    ensures
        ({
            let after = device.run(
                crate::virgl::composition::composition_words(queue, image, clear_color, operations),
            );
            let before = device.work.len() as int;
            &&& after.work.len() == before + 1 + operations.len()
            &&& after.work.take(before) == device.work
            &&& after.work[before] == (Work::Clear { target: image.resource_id, color: clear_color })
            &&& forall|i: int|
                0 <= i < operations.len() ==> ((
                #[trigger] after.work[before + 1 + i]) matches Work::Draw(drawn) && draws_operation(
                    drawn,
                    operations[i],
                    image,
                    i,
                ))
            &&& composition_objects(after)
            &&& after.surfaces[image.composition_surface_handle] == image.resource_id
        }),
{
    let vertex_resource_id = queue.composition_vertex_resource_id;
    let surface_handle = image.composition_surface_handle;
    let nothing = Seq::<u32>::empty();
    let part0 = if queue.composition_initialized {
        nothing
    } else {
        crate::virgl::composition::composition_setup_words()
    };
    law_compositions_create_their_objects(device);
    assert(device.run(nothing) == device);
    let device0 = device.run(part0);
    assert(crate::virgl::protocol::framed(part0));
    let part1 = if image.composition_surface_initialized {
        nothing
    } else {
        crate::virgl::protocol::surface_words(surface_handle, image.resource_id)
    };
    crate::virgl::device::lemma_surface(device0, surface_handle, image.resource_id);
    assert(device0.run(nothing) == device0);
    let device1 = device0.run(part1);
    assert(crate::virgl::protocol::framed(part1));
    crate::virgl::device::lemma_in_order(device, part0, part1);
    let part2 = crate::virgl::composition::composition_bind_words(
        surface_handle,
        vertex_resource_id,
    );
    lemma_bound(device1, surface_handle, vertex_resource_id);
    let device2 = device1.run(part2);
    crate::virgl::device::lemma_in_order(device, part0 + part1, part2);
    let part3 = crate::virgl::protocol::viewport_words(image.width, image.height);
    crate::virgl::device::lemma_viewport(device2, image.width, image.height);
    let device3 = device2.run(part3);
    crate::virgl::device::lemma_in_order(device, part0 + part1 + part2, part3);
    let part4 = crate::virgl::protocol::clear_words(clear_color);
    crate::virgl::device::lemma_clear(device3, clear_color);
    let device4 = device3.run(part4);
    crate::virgl::device::lemma_in_order(device, part0 + part1 + part2 + part3, part4);
    let data = crate::virgl::composition::quads(operations, image);
    let part5 = if operations.len() == 0 {
        nothing
    } else {
        crate::virgl::protocol::inline_write_words(vertex_resource_id, data)
    };
    crate::virgl::composition::lemma_quads_length(operations, image);
    crate::virgl::device::lemma_inline_write(device4, vertex_resource_id, data);
    assert(device4.run(nothing) == device4);
    let device5 = device4.run(part5);
    assert(crate::virgl::protocol::framed(part5));
    let head = part0 + part1 + part2 + part3 + part4;
    crate::virgl::device::lemma_in_order(device, head, part5);
    let part6 = crate::virgl::composition::draw_words(operations, image);
    assert(operations.take(operations.len() as int) =~= operations);
    if operations.len() == 0 {
        assert(part6 =~= nothing);
        assert(device5.run(nothing) == device5);
        assert(head + part5 + part6 =~= head + part5);
        assert(device5.work.take(device.work.len() as int) =~= device.work);
    } else {
        assert(views_exist(device5, operations, Seq::empty()));
        lemma_operations(
            device5,
            operations,
            image,
            operations.len() as int,
            vertex_resource_id,
        );
        crate::virgl::device::lemma_in_order(device, head + part5, part6);
        let after = device5.run(part6);
        assert(after.work.take(device.work.len() as int) =~= device5.work.take(
            device.work.len() as int,
        ));
        assert(device5.work.take(device.work.len() as int) =~= device.work);
        assert(after.work[device.work.len() as int] == after.work.take(
            device5.work.len() as int,
        )[device.work.len() as int]);
        assert forall|i: int| 0 <= i < operations.len() implies ((
        #[trigger] after.work[device.work.len() + 1 + i]) matches Work::Draw(drawn)
            && draws_operation(drawn, operations[i], image, i)) by {
            assert(after.work[device5.work.len() + i] is Draw);
        }
    }
    assert(crate::virgl::composition::composition_words(
        queue,
        image,
        clear_color,
        operations,
    ) == head + part5 + part6);
}

} // verus!
