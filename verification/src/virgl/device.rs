//! What a device does with a stream.
//!
//! A device reads commands one after the other. Commands create objects under handles,
//! bind them, write buffers, and do work. The numbers here are those of the protocol.

use crate::driver::IrRect;
use crate::virgl::protocol::{
    CCMD_BIND_OBJECT, CCMD_BIND_SAMPLER_STATES, CCMD_BIND_SHADER, CCMD_CLEAR, CCMD_CLEAR_SURFACE,
    CCMD_CREATE_OBJECT, CCMD_DRAW_VBO, CCMD_RESOURCE_COPY_REGION, CCMD_RESOURCE_INLINE_WRITE,
    CCMD_SET_CONSTANT_BUFFER, CCMD_SET_FRAMEBUFFER_STATE, CCMD_SET_SAMPLER_VIEWS,
    CCMD_SET_SCISSOR_STATE, CCMD_SET_VERTEX_BUFFERS, CCMD_SET_VIEWPORT_STATE, OBJECT_BLEND,
    OBJECT_NONE, OBJECT_RASTERIZER, OBJECT_SAMPLER_STATE, OBJECT_SAMPLER_VIEW, OBJECT_SHADER,
    OBJECT_SURFACE, OBJECT_VERTEX_ELEMENTS,
};
use vstd::prelude::*;

verus! {

/// The edges of an area: its first column and row, and those behind its last.
#[verifier::ext_equal]
pub struct Edges {
    pub left: u32,
    pub top: u32,
    pub right: u32,
    pub bottom: u32,
}

/// What is bound.
#[verifier::ext_equal]
pub struct Bound {
    pub vertex_shader: u32,
    pub fragment_shader: u32,
    pub blend: u32,
    pub rasterizer: u32,
    pub elements: u32,
    pub sampler: u32,
    pub view: u32,
    pub surface: u32,
    pub stride: u32,
    pub vertex_buffer: u32,
    pub scissor: Edges,
    pub viewport: Seq<u32>,
    pub transform: Seq<u32>,
    pub color: Seq<u32>,
}

/// A draw of triangles, with everything that it uses.
#[verifier::ext_equal]
pub struct Drawn {
    /// Source of the vertex shader.
    pub vertex_shader: Seq<u8>,
    /// Source of the fragment shader.
    pub fragment_shader: Seq<u8>,
    /// Blend state.
    pub blend: u32,
    /// Rasterizer flags.
    pub rasterizer: u32,
    /// Byte and format of each vertex input.
    pub elements: Seq<(u32, u32)>,
    /// Sampler state.
    pub sampler: u32,
    /// Sampled resource.
    pub sampled: u32,
    /// Resource that is drawn on.
    pub target: u32,
    /// Bytes of one vertex.
    pub stride: u32,
    /// Words of the vertex buffer.
    pub vertices: Seq<u32>,
    /// Area that may change.
    pub scissor: Edges,
    /// Mapping of clip space.
    pub viewport: Seq<u32>,
    /// Constants of the vertex shader.
    pub transform: Seq<u32>,
    /// Constants of the fragment shader.
    pub color: Seq<u32>,
    /// First vertex.
    pub first: u32,
    /// Number of vertices.
    pub count: u32,
}

/// Work of a device.
pub enum Work {
    /// The whole target is cleared to a color.
    Clear { target: u32, color: Seq<u32> },
    /// An area is cleared to a color.
    ClearArea { target: u32, area: IrRect, color: Seq<u32> },
    /// Triangles are drawn.
    Draw(Drawn),
    /// An area is copied from one resource to a place in another.
    Copy { source: u32, area: IrRect, destination: u32, x: u32, y: u32 },
}

/// A device: the objects under handles, the contents of buffers, what is bound, and the
/// work so far.
#[verifier::ext_equal]
pub struct Device {
    pub shaders: Map<u32, (u32, Seq<u8>)>,
    pub blends: Map<u32, u32>,
    pub rasterizers: Map<u32, u32>,
    pub elements: Map<u32, Seq<(u32, u32)>>,
    pub samplers: Map<u32, u32>,
    pub views: Map<u32, u32>,
    pub surfaces: Map<u32, u32>,
    pub buffers: Map<u32, Seq<u32>>,
    pub bound: Bound,
    pub work: Seq<Work>,
}

/// The source that the words of a shader hold.
pub open spec fn source_of(words: Seq<u32>) -> Seq<u8> {
    Seq::new(
        (words[3] - 1) as nat,
        |i: int| crate::virgl::protocol::word_byte(words[6 + i / 4], i % 4),
    )
}

/// The vertex inputs that the words of a layout hold.
pub open spec fn elements_of(words: Seq<u32>) -> Seq<(u32, u32)> {
    Seq::new(
        ((words.len() - 2) / 4) as nat,
        |i: int| (words[2 + 4 * i], words[5 + 4 * i]),
    )
}

/// The draw of a range with everything that is bound.
pub open spec fn drawn(device: Device, first: u32, count: u32) -> Drawn {
    let bound = device.bound;
    Drawn {
        vertex_shader: device.shaders[bound.vertex_shader].1,
        fragment_shader: device.shaders[bound.fragment_shader].1,
        blend: device.blends[bound.blend],
        rasterizer: device.rasterizers[bound.rasterizer],
        elements: device.elements[bound.elements],
        sampler: device.samplers[bound.sampler],
        sampled: device.views[bound.view],
        target: device.surfaces[bound.surface],
        stride: bound.stride,
        vertices: device.buffers[bound.vertex_buffer],
        scissor: bound.scissor,
        viewport: bound.viewport,
        transform: bound.transform,
        color: bound.color,
        first,
        count,
    }
}

impl Device {
    /// Create an object of a kind.
    pub open spec fn create(self, kind: u32, words: Seq<u32>) -> Self {
        let handle = words[1];
        if kind == 1 {
            Device { blends: self.blends.insert(handle, words[4]), ..self }
        } else if kind == 2 {
            Device { rasterizers: self.rasterizers.insert(handle, words[2]), ..self }
        } else if kind == 4 {
            Device {
                shaders: self.shaders.insert(handle, (words[2], source_of(words))),
                ..self
            }
        } else if kind == 5 {
            Device { elements: self.elements.insert(handle, elements_of(words)), ..self }
        } else if kind == 6 {
            Device { views: self.views.insert(handle, words[2]), ..self }
        } else if kind == 7 {
            Device { samplers: self.samplers.insert(handle, words[2]), ..self }
        } else {
            Device { surfaces: self.surfaces.insert(handle, words[2]), ..self }
        }
    }

    /// Bind an object of a kind.
    pub open spec fn bind(self, kind: u32, handle: u32) -> Self {
        if kind == 1 {
            Device { bound: Bound { blend: handle, ..self.bound }, ..self }
        } else if kind == 2 {
            Device { bound: Bound { rasterizer: handle, ..self.bound }, ..self }
        } else {
            Device { bound: Bound { elements: handle, ..self.bound }, ..self }
        }
    }

    /// Set state of a draw.
    pub open spec fn set(self, command: u32, words: Seq<u32>) -> Self {
        let bound = self.bound;
        let next = if command == 4 {
            Bound { viewport: words.skip(2), ..bound }
        } else if command == 5 {
            Bound { surface: words[3], ..bound }
        } else if command == 6 {
            Bound { stride: words[1], vertex_buffer: words[3], ..bound }
        } else if command == 10 {
            Bound { view: words[3], ..bound }
        } else if command == 12 {
            if words[1] == 0 {
                Bound { transform: words.skip(3), ..bound }
            } else {
                Bound { color: words.skip(3), ..bound }
            }
        } else if command == 15 {
            Bound {
                scissor: Edges {
                    left: words[2] & 0xffff,
                    top: words[2] >> 16,
                    right: words[3] & 0xffff,
                    bottom: words[3] >> 16,
                },
                ..bound
            }
        } else if command == 18 {
            Bound { sampler: words[3], ..bound }
        } else if words[2] == 0 {
            Bound { vertex_shader: words[1], ..bound }
        } else {
            Bound { fragment_shader: words[1], ..bound }
        };
        Device { bound: next, ..self }
    }

    /// Do work.
    pub open spec fn perform(self, command: u32, words: Seq<u32>) -> Self {
        let work = if command == 7 {
            Work::Clear {
                target: self.surfaces[self.bound.surface],
                color: words.subrange(2, 6),
            }
        } else if command == 8 {
            Work::Draw(drawn(self, words[1], words[2]))
        } else if command == 17 {
            Work::Copy {
                source: words[6],
                area: IrRect {
                    x: words[8],
                    y: words[9],
                    width: words[11],
                    height: words[12],
                },
                destination: words[1],
                x: words[3],
                y: words[4],
            }
        } else {
            Work::ClearArea {
                target: self.surfaces[words[2]],
                area: IrRect {
                    x: words[7],
                    y: words[8],
                    width: words[9],
                    height: words[10],
                },
                color: words.subrange(3, 7),
            }
        };
        Device { work: self.work.push(work), ..self }
    }

    /// Obey one command.
    pub open spec fn obey(self, words: Seq<u32>) -> Self {
        let command = words[0] & 0xff;
        let kind = (words[0] >> 8) & 0xff;
        if command == 1 {
            self.create(kind, words)
        } else if command == 2 {
            self.bind(kind, words[1])
        } else if command == 9 {
            Device { buffers: self.buffers.insert(words[1], words.skip(12)), ..self }
        } else if command == 7 || command == 8 || command == 17 || command == 62 {
            self.perform(command, words)
        } else {
            self.set(command, words)
        }
    }

    /// Obey a stream.
    pub open spec fn run(self, words: Seq<u32>) -> Self
        decreases words.len(),
    {
        if words.len() == 0 {
            self
        } else {
            let next = 1 + (words[0] >> 16);
            if next > words.len() {
                self
            } else {
                self.obey(words.take(next)).run(words.skip(next))
            }
        }
    }
}

/// Streams that follow each other are obeyed one after the other.
pub proof fn law_streams_are_obeyed_in_order(device: Device, first: Seq<u32>, second: Seq<u32>)
    requires
        crate::virgl::protocol::framed(first),
    ensures
        device.run(first + second) == device.run(first).run(second),
    decreases first.len(),
{
    if first.len() == 0 {
        assert(first + second =~= second);
    } else {
        let next = 1 + (first[0] >> 16);
        assert((first + second)[0] == first[0]);
        assert((first + second).take(next) =~= first.take(next));
        assert((first + second).skip(next) =~= first.skip(next) + second);
        law_streams_are_obeyed_in_order(
            device.obey(first.take(next)),
            first.skip(next),
            second,
        );
    }
}

/// Two streams, the first of whole commands, are obeyed in order and framed together.
pub proof fn lemma_in_order(device: Device, first: Seq<u32>, second: Seq<u32>)
    requires
        crate::virgl::protocol::framed(first),
        crate::virgl::protocol::framed(second),
    ensures
        device.run(first + second) == device.run(first).run(second),
        crate::virgl::protocol::framed(first + second),
{
    law_streams_are_obeyed_in_order(device, first, second);
    crate::virgl::protocol::law_framed_concatenation(first, second);
}

proof fn lemma_obeyed(device: Device, words: Seq<u32>, command: u32, object: u32)
    requires
        1 <= words.len() <= 0x1_0000,
        command < 0x100,
        object < 0x100,
        words[0] == crate::virgl::protocol::command_header(
            command,
            object,
            (words.len() - 1) as u32,
        ),
    ensures
        device.run(words) == device.obey(words),
        words[0] & 0xff == command,
        (words[0] >> 8) & 0xff == object,
{
    crate::virgl::protocol::law_header_fields(command, object, (words.len() - 1) as u32);
    let next = 1 + (words[0] >> 16);
    assert(words.take(next) =~= words);
    assert(words.skip(next) =~= Seq::<u32>::empty());
    let after = device.obey(words);
    assert(after.run(Seq::<u32>::empty()) == after);
}

/// A blend state is bound.
pub proof fn lemma_bind_blend(device: Device, handle: u32)
    ensures
        device.run(crate::virgl::protocol::bind_object_words(OBJECT_BLEND, handle)) == (Device {
            bound: Bound { blend: handle, ..device.bound },
            ..device
        }),
        crate::virgl::protocol::framed(
            crate::virgl::protocol::bind_object_words(OBJECT_BLEND, handle),
        ),
{
    let words = crate::virgl::protocol::bind_object_words(OBJECT_BLEND, handle);
    crate::virgl::protocol::lemma_bind_object_framed(OBJECT_BLEND, handle);
    lemma_obeyed(device, words, CCMD_BIND_OBJECT, OBJECT_BLEND);
}

/// A rasterizer is bound.
pub proof fn lemma_bind_rasterizer(device: Device, handle: u32)
    ensures
        device.run(crate::virgl::protocol::bind_object_words(OBJECT_RASTERIZER, handle)) == (
        Device { bound: Bound { rasterizer: handle, ..device.bound }, ..device }),
        crate::virgl::protocol::framed(
            crate::virgl::protocol::bind_object_words(OBJECT_RASTERIZER, handle),
        ),
{
    let words = crate::virgl::protocol::bind_object_words(OBJECT_RASTERIZER, handle);
    crate::virgl::protocol::lemma_bind_object_framed(OBJECT_RASTERIZER, handle);
    lemma_obeyed(device, words, CCMD_BIND_OBJECT, OBJECT_RASTERIZER);
}

/// A vertex layout is bound.
pub proof fn lemma_bind_elements(device: Device, handle: u32)
    ensures
        device.run(crate::virgl::protocol::bind_object_words(OBJECT_VERTEX_ELEMENTS, handle)) == (
        Device { bound: Bound { elements: handle, ..device.bound }, ..device }),
        crate::virgl::protocol::framed(
            crate::virgl::protocol::bind_object_words(OBJECT_VERTEX_ELEMENTS, handle),
        ),
{
    let words = crate::virgl::protocol::bind_object_words(OBJECT_VERTEX_ELEMENTS, handle);
    crate::virgl::protocol::lemma_bind_object_framed(OBJECT_VERTEX_ELEMENTS, handle);
    lemma_obeyed(device, words, CCMD_BIND_OBJECT, OBJECT_VERTEX_ELEMENTS);
}

/// A shader is bound to its stage.
pub proof fn lemma_bind_shader(device: Device, handle: u32, stage: u32)
    ensures
        device.run(crate::virgl::protocol::bind_shader_words(handle, stage)) == (Device {
            bound: if stage == 0 {
                Bound { vertex_shader: handle, ..device.bound }
            } else {
                Bound { fragment_shader: handle, ..device.bound }
            },
            ..device
        }),
        crate::virgl::protocol::framed(crate::virgl::protocol::bind_shader_words(handle, stage)),
{
    let words = crate::virgl::protocol::bind_shader_words(handle, stage);
    crate::virgl::protocol::lemma_bind_shader_framed(handle, stage);
    lemma_obeyed(device, words, CCMD_BIND_SHADER, OBJECT_NONE);
}

/// A surface of a resource exists.
pub proof fn lemma_surface(device: Device, handle: u32, resource_id: u32)
    ensures
        device.run(crate::virgl::protocol::surface_words(handle, resource_id)) == (Device {
            surfaces: device.surfaces.insert(handle, resource_id),
            ..device
        }),
        crate::virgl::protocol::framed(crate::virgl::protocol::surface_words(handle, resource_id)),
{
    let words = crate::virgl::protocol::surface_words(handle, resource_id);
    crate::virgl::protocol::lemma_surface_framed(handle, resource_id);
    lemma_obeyed(device, words, CCMD_CREATE_OBJECT, OBJECT_SURFACE);
}

/// A blend state exists.
pub proof fn lemma_blend(device: Device, handle: u32, state: u32)
    ensures
        device.run(crate::virgl::protocol::blend_words(handle, state)) == (Device {
            blends: device.blends.insert(handle, state),
            ..device
        }),
        crate::virgl::protocol::framed(crate::virgl::protocol::blend_words(handle, state)),
{
    let words = crate::virgl::protocol::blend_words(handle, state);
    crate::virgl::protocol::lemma_blend_framed(handle, state);
    lemma_obeyed(device, words, CCMD_CREATE_OBJECT, OBJECT_BLEND);
}

/// A rasterizer exists.
pub proof fn lemma_rasterizer(device: Device, handle: u32, flags: u32)
    ensures
        device.run(crate::virgl::protocol::rasterizer_words(handle, flags)) == (Device {
            rasterizers: device.rasterizers.insert(handle, flags),
            ..device
        }),
        crate::virgl::protocol::framed(crate::virgl::protocol::rasterizer_words(handle, flags)),
{
    let words = crate::virgl::protocol::rasterizer_words(handle, flags);
    crate::virgl::protocol::lemma_rasterizer_framed(handle, flags);
    lemma_obeyed(device, words, CCMD_CREATE_OBJECT, OBJECT_RASTERIZER);
}

/// A layout of a four-component input and a second one behind it exists.
pub proof fn lemma_two_elements(device: Device, handle: u32, second_format: u32)
    ensures
        device.run(crate::virgl::protocol::two_vertex_elements_words(handle, second_format)) == (
        Device {
            elements: device.elements.insert(handle, seq![(0, 31), (16, second_format)]),
            ..device
        }),
        crate::virgl::protocol::framed(
            crate::virgl::protocol::two_vertex_elements_words(handle, second_format),
        ),
{
    let words = crate::virgl::protocol::two_vertex_elements_words(handle, second_format);
    crate::virgl::protocol::lemma_two_vertex_elements_framed(handle, second_format);
    lemma_obeyed(device, words, CCMD_CREATE_OBJECT, OBJECT_VERTEX_ELEMENTS);
    assert(elements_of(words) =~= seq![(0u32, 31u32), (16u32, second_format)]);
}

/// The layout of compositions exists: position, texture coordinates and color.
pub proof fn lemma_composition_elements(device: Device, handle: u32)
    ensures
        device.run(crate::virgl::protocol::composition_vertex_elements_words(handle)) == (Device {
            elements: device.elements.insert(handle, seq![(0, 31), (16, 29), (24, 31)]),
            ..device
        }),
        crate::virgl::protocol::framed(
            crate::virgl::protocol::composition_vertex_elements_words(handle),
        ),
{
    let words = crate::virgl::protocol::composition_vertex_elements_words(handle);
    crate::virgl::protocol::lemma_composition_vertex_elements_framed(handle);
    lemma_obeyed(device, words, CCMD_CREATE_OBJECT, OBJECT_VERTEX_ELEMENTS);
    assert(elements_of(words) =~= seq![(0u32, 31u32), (16u32, 29u32), (24u32, 31u32)]);
}

/// A sampler state exists.
pub proof fn lemma_sampler_state(device: Device, handle: u32, state: u32)
    ensures
        device.run(crate::virgl::protocol::sampler_state_words(handle, state)) == (Device {
            samplers: device.samplers.insert(handle, state),
            ..device
        }),
        crate::virgl::protocol::framed(crate::virgl::protocol::sampler_state_words(handle, state)),
{
    let words = crate::virgl::protocol::sampler_state_words(handle, state);
    crate::virgl::protocol::lemma_sampler_state_framed(handle, state);
    lemma_obeyed(device, words, CCMD_CREATE_OBJECT, OBJECT_SAMPLER_STATE);
}

/// A view of a resource exists.
pub proof fn lemma_sampler_view(device: Device, handle: u32, resource_id: u32)
    ensures
        device.run(crate::virgl::protocol::sampler_view_words(handle, resource_id)) == (Device {
            views: device.views.insert(handle, resource_id),
            ..device
        }),
        crate::virgl::protocol::framed(
            crate::virgl::protocol::sampler_view_words(handle, resource_id),
        ),
{
    let words = crate::virgl::protocol::sampler_view_words(handle, resource_id);
    crate::virgl::protocol::lemma_sampler_view_framed(handle, resource_id);
    lemma_obeyed(device, words, CCMD_CREATE_OBJECT, OBJECT_SAMPLER_VIEW);
}

/// A view is bound.
pub proof fn lemma_view_binding(device: Device, handle: u32)
    ensures
        device.run(crate::virgl::protocol::sampler_view_binding_words(handle)) == (Device {
            bound: Bound { view: handle, ..device.bound },
            ..device
        }),
        crate::virgl::protocol::framed(crate::virgl::protocol::sampler_view_binding_words(handle)),
{
    let words = crate::virgl::protocol::sampler_view_binding_words(handle);
    crate::virgl::protocol::lemma_sampler_view_binding_framed(handle);
    lemma_obeyed(device, words, CCMD_SET_SAMPLER_VIEWS, OBJECT_NONE);
}

/// A sampler state is bound.
pub proof fn lemma_sampler_binding(device: Device, handle: u32)
    ensures
        device.run(crate::virgl::protocol::sampler_state_binding_words(handle)) == (Device {
            bound: Bound { sampler: handle, ..device.bound },
            ..device
        }),
        crate::virgl::protocol::framed(crate::virgl::protocol::sampler_state_binding_words(handle)),
{
    let words = crate::virgl::protocol::sampler_state_binding_words(handle);
    crate::virgl::protocol::lemma_sampler_state_binding_framed(handle);
    lemma_obeyed(device, words, CCMD_BIND_SAMPLER_STATES, OBJECT_NONE);
}

/// Drawing goes to a surface.
pub proof fn lemma_framebuffer(device: Device, handle: u32)
    ensures
        device.run(crate::virgl::protocol::framebuffer_words(handle)) == (Device {
            bound: Bound { surface: handle, ..device.bound },
            ..device
        }),
        crate::virgl::protocol::framed(crate::virgl::protocol::framebuffer_words(handle)),
{
    let words = crate::virgl::protocol::framebuffer_words(handle);
    crate::virgl::protocol::lemma_framebuffer_framed(handle);
    lemma_obeyed(device, words, CCMD_SET_FRAMEBUFFER_STATE, OBJECT_NONE);
}

/// Vertices come from a buffer.
pub proof fn lemma_vertex_buffer(device: Device, stride: u32, resource_id: u32)
    ensures
        device.run(crate::virgl::protocol::vertex_buffer_words(stride, resource_id)) == (Device {
            bound: Bound { stride, vertex_buffer: resource_id, ..device.bound },
            ..device
        }),
        crate::virgl::protocol::framed(
            crate::virgl::protocol::vertex_buffer_words(stride, resource_id),
        ),
{
    let words = crate::virgl::protocol::vertex_buffer_words(stride, resource_id);
    crate::virgl::protocol::lemma_vertex_buffer_framed(stride, resource_id);
    lemma_obeyed(device, words, CCMD_SET_VERTEX_BUFFERS, OBJECT_NONE);
}

/// A viewport is set.
pub proof fn lemma_viewport(device: Device, width: u32, height: u32)
    ensures
        device.run(crate::virgl::protocol::viewport_words(width, height)) == (Device {
            bound: Bound {
                viewport: crate::virgl::protocol::viewport_words(width, height).skip(2),
                ..device.bound
            },
            ..device
        }),
        crate::virgl::protocol::framed(crate::virgl::protocol::viewport_words(width, height)),
{
    let words = crate::virgl::protocol::viewport_words(width, height);
    crate::virgl::protocol::lemma_viewport_framed(width, height);
    lemma_obeyed(device, words, CCMD_SET_VIEWPORT_STATE, OBJECT_NONE);
}

/// The edges of a rectangle.
pub open spec fn edges(area: IrRect) -> Edges {
    Edges {
        left: area.x,
        top: area.y,
        right: (area.x + area.width) as u32,
        bottom: (area.y + area.height) as u32,
    }
}

/// Drawing is restricted to a rectangle.
pub proof fn lemma_scissor(device: Device, clip: IrRect)
    requires
        crate::virgl::protocol::scissor_fits(clip),
    ensures
        device.run(crate::virgl::protocol::scissor_words(clip)) == (Device {
            bound: Bound { scissor: edges(clip), ..device.bound },
            ..device
        }),
        crate::virgl::protocol::framed(crate::virgl::protocol::scissor_words(clip)),
{
    let words = crate::virgl::protocol::scissor_words(clip);
    crate::virgl::protocol::lemma_scissor_framed(clip);
    crate::virgl::protocol::law_scissor_edges(clip);
    lemma_obeyed(device, words, CCMD_SET_SCISSOR_STATE, OBJECT_NONE);
}

/// The constants of a stage are set.
pub proof fn lemma_constants(device: Device, stage: u32, values: Seq<u32>)
    requires
        values.len() <= 0xfffd,
    ensures
        device.run(crate::virgl::protocol::constant_buffer_words(stage, values)) == (Device {
            bound: if stage == 0 {
                Bound { transform: values, ..device.bound }
            } else {
                Bound { color: values, ..device.bound }
            },
            ..device
        }),
        crate::virgl::protocol::framed(
            crate::virgl::protocol::constant_buffer_words(stage, values),
        ),
{
    let words = crate::virgl::protocol::constant_buffer_words(stage, values);
    crate::virgl::protocol::lemma_constant_buffer_framed(stage, values);
    lemma_obeyed(device, words, CCMD_SET_CONSTANT_BUFFER, OBJECT_NONE);
    assert(words.skip(3) =~= values);
}

/// A buffer holds written words.
pub proof fn lemma_inline_write(device: Device, resource_id: u32, data: Seq<u32>)
    requires
        data.len() <= 0xfff4,
    ensures
        device.run(crate::virgl::protocol::inline_write_words(resource_id, data)) == (Device {
            buffers: device.buffers.insert(resource_id, data),
            ..device
        }),
        crate::virgl::protocol::framed(
            crate::virgl::protocol::inline_write_words(resource_id, data),
        ),
{
    let words = crate::virgl::protocol::inline_write_words(resource_id, data);
    crate::virgl::protocol::lemma_inline_write_framed(resource_id, data);
    lemma_obeyed(device, words, CCMD_RESOURCE_INLINE_WRITE, OBJECT_NONE);
    assert(words.skip(12) =~= data);
}

/// Triangles are drawn.
pub proof fn lemma_draw(device: Device, first: u32, count: u32)
    ensures
        device.run(crate::virgl::protocol::draw_vbo_words(first, count)) == (Device {
            work: device.work.push(Work::Draw(drawn(device, first, count))),
            ..device
        }),
        crate::virgl::protocol::framed(crate::virgl::protocol::draw_vbo_words(first, count)),
{
    let words = crate::virgl::protocol::draw_vbo_words(first, count);
    crate::virgl::protocol::lemma_draw_vbo_framed(first, count);
    lemma_obeyed(device, words, CCMD_DRAW_VBO, OBJECT_NONE);
}

/// The target is cleared.
pub proof fn lemma_clear(device: Device, color: Seq<u32>)
    requires
        color.len() == 4,
    ensures
        device.run(crate::virgl::protocol::clear_words(color)) == (Device {
            work: device.work.push(
                Work::Clear { target: device.surfaces[device.bound.surface], color },
            ),
            ..device
        }),
        crate::virgl::protocol::framed(crate::virgl::protocol::clear_words(color)),
{
    let words = crate::virgl::protocol::clear_words(color);
    crate::virgl::protocol::lemma_clear_framed(color);
    lemma_obeyed(device, words, CCMD_CLEAR, OBJECT_NONE);
    assert(words.subrange(2, 6) =~= color);
}

/// An area is cleared.
pub proof fn lemma_clear_area(device: Device, surface: u32, area: IrRect, color: Seq<u32>)
    requires
        color.len() == 4,
    ensures
        device.run(crate::virgl::protocol::clear_surface_words(surface, area, color)) == (Device {
            work: device.work.push(
                Work::ClearArea { target: device.surfaces[surface], area, color },
            ),
            ..device
        }),
        crate::virgl::protocol::framed(
            crate::virgl::protocol::clear_surface_words(surface, area, color),
        ),
{
    let words = crate::virgl::protocol::clear_surface_words(surface, area, color);
    crate::virgl::protocol::lemma_clear_surface_framed(surface, area, color);
    lemma_obeyed(device, words, CCMD_CLEAR_SURFACE, OBJECT_NONE);
    assert(words.subrange(3, 7) =~= color);
}

/// A region is copied.
pub proof fn lemma_copy(
    device: Device,
    destination_resource: u32,
    destination: IrRect,
    source_resource: u32,
    source: IrRect,
)
    ensures
        device.run(
            crate::virgl::protocol::resource_copy_words(
                destination_resource,
                destination,
                source_resource,
                source,
            ),
        ) == (Device {
            work: device.work.push(
                Work::Copy {
                    source: source_resource,
                    area: source,
                    destination: destination_resource,
                    x: destination.x,
                    y: destination.y,
                },
            ),
            ..device
        }),
{
    let words = crate::virgl::protocol::resource_copy_words(
        destination_resource,
        destination,
        source_resource,
        source,
    );
    lemma_obeyed(device, words, CCMD_RESOURCE_COPY_REGION, OBJECT_NONE);
}

proof fn lemma_word_bytes(a: u8, b: u8, c: u8, d: u8)
    ensures
        ({
            let word = (a + 0x100 * b + 0x1_0000 * c + 0x100_0000 * d) as u32;
            &&& crate::virgl::protocol::word_byte(word, 0) == a
            &&& crate::virgl::protocol::word_byte(word, 1) == b
            &&& crate::virgl::protocol::word_byte(word, 2) == c
            &&& crate::virgl::protocol::word_byte(word, 3) == d
        }),
{
    let word = (a + 0x100 * b + 0x1_0000 * c + 0x100_0000 * d) as u32;
    assert((word & 0xff) as u8 == a && ((word >> 8) & 0xff) as u8 == b && ((word >> 16)
        & 0xff) as u8 == c && (word >> 24) as u8 == d) by (bit_vector)
        requires
            word == a + 0x100 * b + 0x1_0000 * c + 0x100_0000 * d,
    ;
}

/// A shader with its source exists.
pub proof fn lemma_shader(device: Device, handle: u32, stage: u32, source: Seq<u8>)
    requires
        source.len() <= 0xffff,
    ensures
        device.run(crate::virgl::protocol::shader_words(handle, stage, source)) == (Device {
            shaders: device.shaders.insert(handle, (stage, source)),
            ..device
        }),
        crate::virgl::protocol::framed(
            crate::virgl::protocol::shader_words(handle, stage, source),
        ),
{
    let words = crate::virgl::protocol::shader_words(handle, stage, source);
    crate::virgl::protocol::lemma_shader_framed(handle, stage, source);
    lemma_obeyed(device, words, CCMD_CREATE_OBJECT, OBJECT_SHADER);
    let text = crate::virgl::protocol::text_words(source);
    let found = source_of(words);
    assert forall|i: int| 0 <= i < source.len() implies found[i] == source[i] by {
        let at = 4 * (i / 4);
        assert(words[6 + i / 4] == text[i / 4]);
        lemma_word_bytes(
            crate::virgl::protocol::text_byte(source, at) as u8,
            crate::virgl::protocol::text_byte(source, at + 1) as u8,
            crate::virgl::protocol::text_byte(source, at + 2) as u8,
            crate::virgl::protocol::text_byte(source, at + 3) as u8,
        );
    }
    assert(found =~= source);
}

} // verus!
