//! Composition of textured and solid rectangles.

use crate::driver::{HandleError, IrRect};
use crate::ir::float::{is_in_unit_interval, ONE_BITS};
use crate::ir::rounding::{clip_column, clip_row, texture_fraction};
use crate::virgl::protocol::{
    push_bind_object, push_bind_shader, push_blend, push_clear, push_composition_vertex_elements,
    push_draw_vbo, push_framebuffer, push_inline_write, push_rasterizer, push_sampler_state,
    push_sampler_state_binding, push_sampler_view, push_sampler_view_binding, push_scissor,
    push_shader, push_surface, push_vertex_buffer, push_viewport, push_words, OBJECT_BLEND,
    OBJECT_RASTERIZER, OBJECT_VERTEX_ELEMENTS, SHADER_FRAGMENT, SHADER_VERTEX,
};
use crate::virgl::shaders::{
    COMPOSITION_SOLID_SHADER, COMPOSITION_TEXTURE_ALPHA_SHADER, COMPOSITION_TEXTURE_OPAQUE_SHADER,
    COMPOSITION_VERTEX_SHADER,
};
use crate::virgl::state::{Image, Queue, Texture};
use crate::memory::Memory;
use vstd::prelude::*;

verus! {

/// Operations of one composition.
pub const MAX_COMPOSITION_OPERATIONS: usize = 64;

pub const COMPOSITION_BLEND_HANDLE: u32 = 16;
pub const COMPOSITION_RASTERIZER_HANDLE: u32 = 17;
pub const COMPOSITION_VERTEX_SHADER_HANDLE: u32 = 18;
pub const COMPOSITION_TEXTURE_ALPHA_SHADER_HANDLE: u32 = 19;
pub const COMPOSITION_TEXTURE_OPAQUE_SHADER_HANDLE: u32 = 20;
pub const COMPOSITION_SOLID_SHADER_HANDLE: u32 = 21;
pub const COMPOSITION_VERTEX_ELEMENTS_HANDLE: u32 = 22;
pub const COMPOSITION_SAMPLER_STATE_HANDLE: u32 = 23;

/// Blend state of compositions: enabled, source alpha over one minus source
/// alpha for color, one over one minus source alpha for alpha, all channels.
pub const COMPOSITION_BLEND_STATE: u32 = 0x7cc2_2631;

/// Rasterizer flags of compositions: depth clipping and scissoring.
pub const COMPOSITION_RASTERIZER_FLAGS: u32 = 0x4002;

/// Sampler state of compositions: clamped to the edge, linear, one level.
pub const COMPOSITION_SAMPLER_STATE: u32 = 0x3292;

/// Bytes of one composition vertex.
pub const COMPOSITION_VERTEX_BYTES: u32 = 40;

/// Words of one composition vertex.
pub const COMPOSITION_VERTEX_WORDS: usize = 10;

/// Bytes reserved for everything but vertices and draws.
pub const COMPOSITION_BASE_BYTES: usize = 16_384;

/// Whether the alpha channel of a texture counts.
#[derive(Debug, Clone, Copy, PartialEq, Eq, Structural)]
pub enum SourceAlpha {
    /// Blend by the alpha of the texture.
    Respect,
    /// Treat the texture as opaque.
    Ignore,
}

/// One rectangle of a composition.
#[derive(Debug, Clone, Copy, PartialEq, Eq)]
pub enum CompositionOperation {
    /// Draw part of a texture.
    Textured {
        /// Sampled texture.
        texture: Texture,
        /// Covered pixels.
        destination: IrRect,
        /// Sampled texels.
        source: IrRect,
        /// Opacity, from zero to one.
        opacity: u32,
        /// Whether texture alpha counts.
        source_alpha: SourceAlpha,
        /// Pixels that may change.
        clip: Option<IrRect>,
    },
    /// Fill with a color.
    Solid {
        /// Covered pixels.
        destination: IrRect,
        /// Color, each component from zero to one.
        color: [u32; 4],
        /// Pixels that may change.
        clip: Option<IrRect>,
    },
}

/// Whether every component lies in the unit interval.
pub open spec fn unit_color(color: Seq<u32>) -> bool {
    forall|i: int| 0 <= i < color.len() ==> crate::ir::float::in_unit_interval(#[trigger] color[i])
}

fn is_unit_color(color: [u32; 4]) -> (r: bool)
    ensures
        r == unit_color(color@),
{
    let unit: bool = is_in_unit_interval(color[0]) && is_in_unit_interval(color[1])
        && is_in_unit_interval(color[2]) && is_in_unit_interval(color[3]);
    proof {
        if unit {
            assert forall|i: int| 0 <= i < color@.len() implies crate::ir::float::in_unit_interval(
                #[trigger] color@[i],
            ) by {
                assert(i == 0 || i == 1 || i == 2 || i == 3);
            }
        } else {
            assert(!crate::ir::float::in_unit_interval(color@[0])
                || !crate::ir::float::in_unit_interval(color@[1])
                || !crate::ir::float::in_unit_interval(color@[2])
                || !crate::ir::float::in_unit_interval(color@[3]));
        }
    }
    unit
}

impl CompositionOperation {
    /// Whether the operation can be drawn on an image of a queue's context.
    pub open spec fn drawable(self, context_handle: i32, image: Image) -> bool {
        match self {
            CompositionOperation::Textured { texture, destination, source, opacity, clip, .. } => {
                &&& texture.context_handle == context_handle
                &&& destination.is_within(image.width, image.height)
                &&& source.is_within(texture.width, texture.height)
                &&& clip is Some ==> clip->0.is_within(image.width, image.height)
                &&& crate::ir::float::in_unit_interval(opacity)
            },
            CompositionOperation::Solid { destination, color, clip } => {
                &&& destination.is_within(image.width, image.height)
                &&& unit_color(color@)
                &&& clip is Some ==> clip->0.is_within(image.width, image.height)
            },
        }
    }

    /// The pixels that the operation may change.
    pub open spec fn clip_area(self, image: Image) -> IrRect {
        let clip = match self {
            CompositionOperation::Textured { clip, .. } => clip,
            CompositionOperation::Solid { clip, .. } => clip,
        };
        match clip {
            Some(rect) => rect,
            None => IrRect { x: 0, y: 0, width: image.width, height: image.height },
        }
    }

    /// The vertices of the operation.
    pub open spec fn quad(self, image: Image) -> Seq<u32> {
        match self {
            CompositionOperation::Textured { texture, destination, source, opacity, .. } =>
                quad_words(
                image.width,
                image.height,
                destination,
                source,
                texture.width,
                texture.height,
                seq![ONE_BITS, ONE_BITS, ONE_BITS, opacity],
            ),
            CompositionOperation::Solid { destination, color, .. } => quad_words(
                image.width,
                image.height,
                destination,
                IrRect { x: 0, y: 0, width: 1, height: 1 },
                1,
                1,
                color@,
            ),
        }
    }
}

/// One vertex: homogeneous clip position, texture coordinates, color.
pub open spec fn vertex_words(x: u32, y: u32, u: u32, v: u32, color: Seq<u32>) -> Seq<u32> {
    seq![x, y, 0, ONE_BITS, u, v] + color
}

/// The two triangles of a rectangle: upper left, lower left, lower right, then
/// upper left, lower right, upper right.
pub open spec fn quad_words(
    target_width: u32,
    target_height: u32,
    destination: IrRect,
    source: IrRect,
    source_width: u32,
    source_height: u32,
    color: Seq<u32>,
) -> Seq<u32> {
    let left = crate::ir::rounding::clip_x(destination.x, target_width);
    let right = crate::ir::rounding::clip_x(destination.right() as u32, target_width);
    let top = crate::ir::rounding::clip_y(destination.y, target_height);
    let bottom = crate::ir::rounding::clip_y(destination.bottom() as u32, target_height);
    let source_left = crate::ir::rounding::texture_coordinate(source.x, source_width);
    let source_right = crate::ir::rounding::texture_coordinate(
        source.right() as u32,
        source_width,
    );
    let source_top = crate::ir::rounding::texture_coordinate(source.y, source_height);
    let source_bottom = crate::ir::rounding::texture_coordinate(
        source.bottom() as u32,
        source_height,
    );
    let top_left = vertex_words(left, top, source_left, source_top, color);
    let bottom_left = vertex_words(left, bottom, source_left, source_bottom, color);
    let bottom_right = vertex_words(right, bottom, source_right, source_bottom, color);
    let top_right = vertex_words(right, top, source_right, source_top, color);
    top_left + bottom_left + bottom_right + top_left + bottom_right + top_right
}

fn push_vertex(vertices: &mut Vec<u32>, x: u32, y: u32, u: u32, v: u32, color: [u32; 4])
    ensures
        final(vertices)@ == old(vertices)@ + vertex_words(x, y, u, v, color@),
{
    let words: [u32; 10] = [
        x,
        y,
        0,
        ONE_BITS,
        u,
        v,
        color[0],
        color[1],
        color[2],
        color[3],
    ];
    assert(words@ =~= vertex_words(x, y, u, v, color@));
    push_words(vertices, &words);
}

/// Append the two triangles of a rectangle.
///
/// The rectangle lies within the target, and the sampled texels within the source.
pub fn append_composition_quad(
    vertices: &mut Vec<u32>,
    target_width: u32,
    target_height: u32,
    destination: IrRect,
    source: IrRect,
    source_width: u32,
    source_height: u32,
    color: [u32; 4],
) -> (r: Result<(), HandleError>)
    ensures
        r == (if destination.is_within(target_width, target_height) && source.is_within(
            source_width,
            source_height,
        ) {
            Ok(())
        } else {
            Err(HandleError::InvalidParameter)
        }),
        final(vertices)@ == (if r is Ok {
            old(vertices)@ + quad_words(
                target_width,
                target_height,
                destination,
                source,
                source_width,
                source_height,
                color@,
            )
        } else {
            old(vertices)@
        }),
{
    if !destination.is_within(target_width, target_height) || !source.is_within(
        source_width,
        source_height,
    ) {
        return Err(HandleError::InvalidParameter);
    }
    let left: u32 = clip_column(destination.x, target_width);
    let right: u32 = clip_column(destination.x + destination.width, target_width);
    let top: u32 = clip_row(destination.y, target_height);
    let bottom: u32 = clip_row(destination.y + destination.height, target_height);
    let source_left: u32 = texture_fraction(source.x, source_width);
    let source_right: u32 = texture_fraction(source.x + source.width, source_width);
    let source_top: u32 = texture_fraction(source.y, source_height);
    let source_bottom: u32 = texture_fraction(source.y + source.height, source_height);
    let ghost before = vertices@;
    push_vertex(vertices, left, top, source_left, source_top, color);
    push_vertex(vertices, left, bottom, source_left, source_bottom, color);
    push_vertex(vertices, right, bottom, source_right, source_bottom, color);
    push_vertex(vertices, left, top, source_left, source_top, color);
    push_vertex(vertices, right, bottom, source_right, source_bottom, color);
    push_vertex(vertices, right, top, source_right, source_top, color);
    assert(vertices@ =~= before + quad_words(
        target_width,
        target_height,
        destination,
        source,
        source_width,
        source_height,
        color@,
    ));
    Ok(())
}

/// The vertices of the first operations.
pub open spec fn quads(operations: Seq<CompositionOperation>, image: Image) -> Seq<u32>
    decreases operations.len(),
{
    if operations.len() == 0 {
        Seq::empty()
    } else {
        quads(operations.drop_last(), image) + operations.last().quad(image)
    }
}

/// Objects that every composition uses.
pub open spec fn composition_setup_words() -> Seq<u32> {
    crate::virgl::protocol::blend_words(COMPOSITION_BLEND_HANDLE, COMPOSITION_BLEND_STATE)
        + crate::virgl::protocol::rasterizer_words(
        COMPOSITION_RASTERIZER_HANDLE,
        COMPOSITION_RASTERIZER_FLAGS,
    ) + crate::virgl::protocol::shader_words(
        COMPOSITION_VERTEX_SHADER_HANDLE,
        SHADER_VERTEX,
        vstd::utf8::encode_utf8(COMPOSITION_VERTEX_SHADER@),
    ) + crate::virgl::protocol::shader_words(
        COMPOSITION_TEXTURE_ALPHA_SHADER_HANDLE,
        SHADER_FRAGMENT,
        vstd::utf8::encode_utf8(COMPOSITION_TEXTURE_ALPHA_SHADER@),
    ) + crate::virgl::protocol::shader_words(
        COMPOSITION_TEXTURE_OPAQUE_SHADER_HANDLE,
        SHADER_FRAGMENT,
        vstd::utf8::encode_utf8(COMPOSITION_TEXTURE_OPAQUE_SHADER@),
    ) + crate::virgl::protocol::shader_words(
        COMPOSITION_SOLID_SHADER_HANDLE,
        SHADER_FRAGMENT,
        vstd::utf8::encode_utf8(COMPOSITION_SOLID_SHADER@),
    ) + crate::virgl::protocol::composition_vertex_elements_words(
        COMPOSITION_VERTEX_ELEMENTS_HANDLE,
    ) + crate::virgl::protocol::sampler_state_words(
        COMPOSITION_SAMPLER_STATE_HANDLE,
        COMPOSITION_SAMPLER_STATE,
    )
}

/// Append the objects that every composition uses.
pub fn push_composition_setup(commands: &mut Vec<u32>)
    ensures
        final(commands)@ == old(commands)@ + composition_setup_words(),
{
    let ghost before = commands@;
    push_blend(commands, COMPOSITION_BLEND_HANDLE, COMPOSITION_BLEND_STATE);
    push_rasterizer(commands, COMPOSITION_RASTERIZER_HANDLE, COMPOSITION_RASTERIZER_FLAGS);
    push_shader(
        commands,
        COMPOSITION_VERTEX_SHADER_HANDLE,
        SHADER_VERTEX,
        COMPOSITION_VERTEX_SHADER,
    );
    push_shader(
        commands,
        COMPOSITION_TEXTURE_ALPHA_SHADER_HANDLE,
        SHADER_FRAGMENT,
        COMPOSITION_TEXTURE_ALPHA_SHADER,
    );
    push_shader(
        commands,
        COMPOSITION_TEXTURE_OPAQUE_SHADER_HANDLE,
        SHADER_FRAGMENT,
        COMPOSITION_TEXTURE_OPAQUE_SHADER,
    );
    push_shader(
        commands,
        COMPOSITION_SOLID_SHADER_HANDLE,
        SHADER_FRAGMENT,
        COMPOSITION_SOLID_SHADER,
    );
    push_composition_vertex_elements(commands, COMPOSITION_VERTEX_ELEMENTS_HANDLE);
    push_sampler_state(commands, COMPOSITION_SAMPLER_STATE_HANDLE, COMPOSITION_SAMPLER_STATE);
    assert(commands@ =~= before + composition_setup_words());
}

/// State that every composition binds.
pub open spec fn composition_bind_words(surface_handle: u32, vertex_resource_id: u32) -> Seq<u32> {
    crate::virgl::protocol::bind_object_words(OBJECT_BLEND, COMPOSITION_BLEND_HANDLE)
        + crate::virgl::protocol::bind_object_words(
        OBJECT_RASTERIZER,
        COMPOSITION_RASTERIZER_HANDLE,
    ) + crate::virgl::protocol::bind_shader_words(COMPOSITION_VERTEX_SHADER_HANDLE, SHADER_VERTEX)
        + crate::virgl::protocol::bind_object_words(
        OBJECT_VERTEX_ELEMENTS,
        COMPOSITION_VERTEX_ELEMENTS_HANDLE,
    ) + crate::virgl::protocol::framebuffer_words(surface_handle)
        + crate::virgl::protocol::vertex_buffer_words(COMPOSITION_VERTEX_BYTES, vertex_resource_id)
        + crate::virgl::protocol::sampler_state_binding_words(COMPOSITION_SAMPLER_STATE_HANDLE)
}

/// Append the state that every composition binds.
pub fn push_composition_bind_state(
    commands: &mut Vec<u32>,
    surface_handle: u32,
    vertex_resource_id: u32,
)
    ensures
        final(commands)@ == old(commands)@ + composition_bind_words(
            surface_handle,
            vertex_resource_id,
        ),
{
    let ghost before = commands@;
    push_bind_object(commands, OBJECT_BLEND, COMPOSITION_BLEND_HANDLE);
    push_bind_object(commands, OBJECT_RASTERIZER, COMPOSITION_RASTERIZER_HANDLE);
    push_bind_shader(commands, COMPOSITION_VERTEX_SHADER_HANDLE, SHADER_VERTEX);
    push_bind_object(commands, OBJECT_VERTEX_ELEMENTS, COMPOSITION_VERTEX_ELEMENTS_HANDLE);
    push_framebuffer(commands, surface_handle);
    push_vertex_buffer(commands, COMPOSITION_VERTEX_BYTES, vertex_resource_id);
    push_sampler_state_binding(commands, COMPOSITION_SAMPLER_STATE_HANDLE);
    assert(commands@ =~= before + composition_bind_words(surface_handle, vertex_resource_id));
}

/// Sampler views that the first operations create, each once.
pub open spec fn new_views(operations: Seq<CompositionOperation>) -> Seq<u32>
    decreases operations.len(),
{
    if operations.len() == 0 {
        Seq::empty()
    } else {
        let earlier = new_views(operations.drop_last());
        match operations.last() {
            CompositionOperation::Textured { texture, .. } => if texture.sampler_view_initialized
                || earlier.contains(texture.sampler_view_handle) {
                earlier
            } else {
                earlier.push(texture.sampler_view_handle)
            },
            CompositionOperation::Solid { .. } => earlier,
        }
    }
}

/// The words that draw one operation behind others that created some views.
pub open spec fn operation_words(
    operation: CompositionOperation,
    image: Image,
    created: Seq<u32>,
    start_vertex: u32,
) -> Seq<u32> {
    crate::virgl::protocol::scissor_words(operation.clip_area(image)) + (match operation {
        CompositionOperation::Textured { texture, source_alpha, .. } => (
        if texture.sampler_view_initialized || created.contains(texture.sampler_view_handle) {
            Seq::empty()
        } else {
            crate::virgl::protocol::sampler_view_words(
                texture.sampler_view_handle,
                texture.resource_id,
            )
        }) + crate::virgl::protocol::bind_shader_words(
            match source_alpha {
                SourceAlpha::Respect => COMPOSITION_TEXTURE_ALPHA_SHADER_HANDLE,
                SourceAlpha::Ignore => COMPOSITION_TEXTURE_OPAQUE_SHADER_HANDLE,
            },
            SHADER_FRAGMENT,
        ) + crate::virgl::protocol::sampler_view_binding_words(texture.sampler_view_handle),
        CompositionOperation::Solid { .. } => crate::virgl::protocol::bind_shader_words(
            COMPOSITION_SOLID_SHADER_HANDLE,
            SHADER_FRAGMENT,
        ),
    }) + crate::virgl::protocol::draw_vbo_words(start_vertex, 6)
}

/// The words that draw the first operations.
pub open spec fn draw_words(operations: Seq<CompositionOperation>, image: Image) -> Seq<u32>
    decreases operations.len(),
{
    if operations.len() == 0 {
        Seq::empty()
    } else {
        let earlier = operations.drop_last();
        draw_words(earlier, image) + operation_words(
            operations.last(),
            image,
            new_views(earlier),
            (6 * earlier.len()) as u32,
        )
    }
}

/// The words of a composition.
pub open spec fn composition_words(
    queue: Queue,
    image: Image,
    clear_color: Seq<u32>,
    operations: Seq<CompositionOperation>,
) -> Seq<u32> {
    (if queue.composition_initialized {
        Seq::empty()
    } else {
        composition_setup_words()
    }) + (if image.composition_surface_initialized {
        Seq::empty()
    } else {
        crate::virgl::protocol::surface_words(image.composition_surface_handle, image.resource_id)
    }) + composition_bind_words(
        image.composition_surface_handle,
        queue.composition_vertex_resource_id,
    ) + crate::virgl::protocol::viewport_words(image.width, image.height)
        + crate::virgl::protocol::clear_words(clear_color) + (if operations.len() == 0 {
        Seq::empty()
    } else {
        crate::virgl::protocol::inline_write_words(
            queue.composition_vertex_resource_id,
            quads(operations, image),
        )
    }) + draw_words(operations, image)
}

/// Bytes to reserve for a composition.
pub open spec fn spec_composition_command_capacity(vertex_count: nat, draw_count: nat) -> nat {
    COMPOSITION_BASE_BYTES as nat + (vertex_count * 10 + 12) * 4 + draw_count * 50 * 4
}

/// Return the bytes to reserve for a composition.
///
/// Fails with `HandleError::InvalidParameter` when they cannot be counted.
pub fn composition_command_capacity(vertex_count: usize, draw_count: usize) -> (r: Result<
    usize,
    HandleError,
>)
    ensures
        match r {
            Ok(bytes) => bytes == spec_composition_command_capacity(
                vertex_count as nat,
                draw_count as nat,
            ),
            Err(error) => error == HandleError::InvalidParameter
                && spec_composition_command_capacity(vertex_count as nat, draw_count as nat)
                > usize::MAX,
        },
{
    let bytes: u128 = COMPOSITION_BASE_BYTES as u128 + (vertex_count as u128 * 10 + 12) * 4
        + draw_count as u128 * 200;
    if bytes > usize::MAX as u128 {
        return Err(HandleError::InvalidParameter);
    }
    Ok(bytes as usize)
}

/// Whether a composition can be submitted in one stream of a greatest size.
pub open spec fn composable(
    queue: Queue,
    image: Image,
    clear_color: Seq<u32>,
    operations: Seq<CompositionOperation>,
    max_command_bytes: u32,
) -> bool {
    &&& image.context_handle == queue.context_handle
    &&& unit_color(clear_color)
    &&& operations.len() <= MAX_COMPOSITION_OPERATIONS
    &&& forall|i: int|
        0 <= i < operations.len() ==> (#[trigger] operations[i]).drawable(
            queue.context_handle,
            image,
        )
    &&& spec_composition_command_capacity(6 * operations.len(), operations.len())
        <= max_command_bytes
    &&& forall|i: int|
        0 <= i < operations.len() ==> crate::virgl::protocol::scissor_fits(
            (#[trigger] operations[i]).clip_area(image),
        )
    &&& 4 * composition_words(queue, image, clear_color, operations).len() <= max_command_bytes
}

/// An encoded composition and what exists once it was submitted.
#[derive(Debug)]
pub struct PreparedComposition {
    /// Words to submit.
    pub commands: Vec<u32>,
    /// Whether the stream creates the objects of compositions.
    pub needs_setup: bool,
    /// Whether the stream creates the surface of the image.
    pub needs_surface: bool,
    /// Sampler views that the stream creates.
    pub new_sampler_views: Vec<u32>,
}

fn contains(handles: &Vec<u32>, handle: u32) -> (r: bool)
    ensures
        r == handles@.contains(handle),
{
    let mut i: usize = 0;
    while i < handles.len()
        invariant
            i <= handles@.len(),
            forall|j: int| 0 <= j < i ==> handles@[j] != handle,
        decreases handles.len() - i,
    {
        if handles[i] == handle {
            assert(handles@[i as int] == handle);
            return true;
        }
        i = i + 1;
    }
    false
}

fn is_drawable(operation: CompositionOperation, context_handle: i32, image: &Image) -> (r: bool)
    ensures
        r == operation.drawable(context_handle, *image),
{
    match operation {
        CompositionOperation::Textured { texture, destination, source, opacity, clip, .. } => {
            let clipped: bool = match clip {
                Some(rect) => rect.is_within(image.width, image.height),
                None => true,
            };
            texture.context_handle == context_handle && destination.is_within(
                image.width,
                image.height,
            ) && source.is_within(texture.width, texture.height) && clipped && is_in_unit_interval(
                opacity,
            )
        },
        CompositionOperation::Solid { destination, color, clip } => {
            let clipped: bool = match clip {
                Some(rect) => rect.is_within(image.width, image.height),
                None => true,
            };
            destination.is_within(image.width, image.height) && is_unit_color(color) && clipped
        },
    }
}

fn push_operation_quad(vertices: &mut Vec<u32>, operation: CompositionOperation, image: &Image)
    requires
        exists|context_handle: i32| operation.drawable(context_handle, *image),
    ensures
        final(vertices)@ == old(vertices)@ + operation.quad(*image),
{
    match operation {
        CompositionOperation::Textured { texture, destination, source, opacity, .. } => {
            let color: [u32; 4] = [ONE_BITS, ONE_BITS, ONE_BITS, opacity];
            assert(color@ =~= seq![ONE_BITS, ONE_BITS, ONE_BITS, opacity]);
            let appended: Result<(), HandleError> = append_composition_quad(
                vertices,
                image.width,
                image.height,
                destination,
                source,
                texture.width,
                texture.height,
                color,
            );
            assert(appended is Ok);
        },
        CompositionOperation::Solid { destination, color, .. } => {
            let texel = IrRect { x: 0, y: 0, width: 1, height: 1 };
            let appended: Result<(), HandleError> = append_composition_quad(
                vertices,
                image.width,
                image.height,
                destination,
                texel,
                1,
                1,
                color,
            );
            assert(appended is Ok);
        },
    }
}

fn clip_area(operation: CompositionOperation, image: &Image) -> (r: IrRect)
    ensures
        r == operation.clip_area(*image),
{
    let clip: Option<IrRect> = match operation {
        CompositionOperation::Textured { clip, .. } => clip,
        CompositionOperation::Solid { clip, .. } => clip,
    };
    match clip {
        Some(rect) => rect,
        None => IrRect { x: 0, y: 0, width: image.width, height: image.height },
    }
}

/// Append the words of one operation, if a scissor state can hold its clip.
fn push_operation(
    commands: &mut Vec<u32>,
    views: &mut Vec<u32>,
    operation: CompositionOperation,
    image: &Image,
    start_vertex: u32,
) -> (r: bool)
    ensures
        r == crate::virgl::protocol::scissor_fits(operation.clip_area(*image)),
        r ==> final(commands)@ == old(commands)@ + operation_words(
            operation,
            *image,
            old(views)@,
            start_vertex,
        ),
        r ==> final(views)@ == (match operation {
            CompositionOperation::Textured { texture, .. } => if texture.sampler_view_initialized
                || old(views)@.contains(texture.sampler_view_handle) {
                old(views)@
            } else {
                old(views)@.push(texture.sampler_view_handle)
            },
            CompositionOperation::Solid { .. } => old(views)@,
        }),
{
    let ghost before = commands@;
    if !push_scissor(commands, clip_area(operation, image)) {
        return false;
    }
    match operation {
        CompositionOperation::Textured { texture, source_alpha, .. } => {
            if !texture.sampler_view_initialized && !contains(views, texture.sampler_view_handle) {
                push_sampler_view(commands, texture.sampler_view_handle, texture.resource_id);
                views.push(texture.sampler_view_handle);
            }
            let shader: u32 = match source_alpha {
                SourceAlpha::Respect => COMPOSITION_TEXTURE_ALPHA_SHADER_HANDLE,
                SourceAlpha::Ignore => COMPOSITION_TEXTURE_OPAQUE_SHADER_HANDLE,
            };
            push_bind_shader(commands, shader, SHADER_FRAGMENT);
            push_sampler_view_binding(commands, texture.sampler_view_handle);
        },
        CompositionOperation::Solid { .. } => {
            push_bind_shader(commands, COMPOSITION_SOLID_SHADER_HANDLE, SHADER_FRAGMENT);
        },
    }
    push_draw_vbo(commands, start_vertex, 6);
    assert(commands@ =~= before + operation_words(operation, *image, old(views)@, start_vertex));
    true
}

/// The two triangles of a rectangle have six vertices.
proof fn lemma_quad_length(
    target_width: u32,
    target_height: u32,
    destination: IrRect,
    source: IrRect,
    source_width: u32,
    source_height: u32,
    color: Seq<u32>,
)
    requires
        color.len() == 4,
    ensures
        quad_words(
            target_width,
            target_height,
            destination,
            source,
            source_width,
            source_height,
            color,
        ).len() == 60,
{
}

proof fn lemma_operation_quad_length(operation: CompositionOperation, image: Image)
    ensures
        operation.quad(image).len() == 60,
{
    match operation {
        CompositionOperation::Textured { texture, destination, source, opacity, .. } => {
            lemma_quad_length(
                image.width,
                image.height,
                destination,
                source,
                texture.width,
                texture.height,
                seq![ONE_BITS, ONE_BITS, ONE_BITS, opacity],
            );
        },
        CompositionOperation::Solid { destination, color, .. } => {
            lemma_quad_length(
                image.width,
                image.height,
                destination,
                IrRect { x: 0, y: 0, width: 1, height: 1 },
                1,
                1,
                color@,
            );
        },
    }
}

/// Every operation has sixty words of vertices.
pub proof fn lemma_quads_length(operations: Seq<CompositionOperation>, image: Image)
    ensures
        quads(operations, image).len() == 60 * operations.len(),
    decreases operations.len(),
{
    if operations.len() > 0 {
        lemma_quads_length(operations.drop_last(), image);
        lemma_operation_quad_length(operations.last(), image);
    }
}

/// Whether a composition suits an image before its operations are looked at.
pub open spec fn composition_suits(
    queue: Queue,
    image: Image,
    clear_color: Seq<u32>,
    operations: Seq<CompositionOperation>,
) -> bool {
    image.context_handle == queue.context_handle && unit_color(clear_color) && operations.len()
        <= MAX_COMPOSITION_OPERATIONS
}

/// How encoding a composition ends, where room is granted or refused.
pub open spec fn composed_if(
    queue: Queue,
    image: Image,
    clear_color: Seq<u32>,
    operations: Seq<CompositionOperation>,
    max_command_bytes: u32,
    granted: bool,
    r: Result<PreparedComposition, HandleError>,
) -> bool {
    if composition_suits(queue, image, clear_color, operations) && !granted {
        r == Err::<PreparedComposition, HandleError>(HandleError::OutOfResources)
    } else if !composable(queue, image, clear_color, operations, max_command_bytes) {
        r == Err::<PreparedComposition, HandleError>(HandleError::InvalidParameter)
    } else {
        &&& r is Ok
        &&& r->Ok_0.commands@ == composition_words(queue, image, clear_color, operations)
        &&& r->Ok_0.needs_setup == !queue.composition_initialized
        &&& r->Ok_0.needs_surface == !image.composition_surface_initialized
        &&& r->Ok_0.new_sampler_views@ == new_views(operations)
    }
}

/// How encoding a composition ends, with one of the answers that may come.
pub open spec fn composed(
    queue: Queue,
    image: Image,
    clear_color: Seq<u32>,
    operations: Seq<CompositionOperation>,
    max_command_bytes: u32,
    memory: Memory,
    r: Result<PreparedComposition, HandleError>,
) -> bool {
    ||| memory.may(true) && composed_if(
        queue,
        image,
        clear_color,
        operations,
        max_command_bytes,
        true,
        r,
    )
    ||| memory.may(false) && composed_if(
        queue,
        image,
        clear_color,
        operations,
        max_command_bytes,
        false,
        r,
    )
}

impl Queue {
    /// Encode a composition of rectangles over a cleared image.
    ///
    /// Fails with `HandleError::InvalidParameter` for an image or texture of
    /// another context, for colors and opacities outside the unit interval, for
    /// rectangles that do not fit, for too many operations, and for a stream above
    /// the greatest size, and with `HandleError::OutOfResources` when storage could
    /// not be reserved.
    pub fn submit_composition(
        &self,
        image: &Image,
        clear_color: [u32; 4],
        operations: &[CompositionOperation],
        max_command_bytes: u32,
    ) -> (r: Result<PreparedComposition, HandleError>)
        ensures
            composed(
                *self,
                *image,
                clear_color@,
                operations@,
                max_command_bytes,
                Memory::System,
                r,
            ),
    {
        self.submit_composition_with(
            image,
            clear_color,
            operations,
            max_command_bytes,
            Memory::System,
        )
    }

    /// Encode a composition as `submit_composition` does, where requests for room are
    /// answered as given.
    pub fn submit_composition_with(
        &self,
        image: &Image,
        clear_color: [u32; 4],
        operations: &[CompositionOperation],
        max_command_bytes: u32,
        memory: Memory,
    ) -> (r: Result<PreparedComposition, HandleError>)
        ensures
            composed(
                *self,
                *image,
                clear_color@,
                operations@,
                max_command_bytes,
                memory,
                r,
            ),
    {
        if image.context_handle != self.context_handle || !is_unit_color(clear_color)
            || operations.len() > MAX_COMPOSITION_OPERATIONS {
            return Err(HandleError::InvalidParameter);
        }
        let ghost list = operations@;
        let mut vertices: Vec<u32> = Vec::new();
        if !memory.reserve(
            &mut vertices,
            MAX_COMPOSITION_OPERATIONS * 6 * COMPOSITION_VERTEX_WORDS,
        ) {
            return Err(HandleError::OutOfResources);
        }
        let mut i: usize = 0;
        assert(list.take(0) =~= Seq::<CompositionOperation>::empty());
        while i < operations.len()
            invariant
                memory.may(true),
                composition_suits(*self, *image, clear_color@, operations@),
                i <= operations@.len(),
                list == operations@,
                vertices@ == quads(list.take(i as int), *image),
                forall|j: int|
                    0 <= j < i ==> (#[trigger] list[j]).drawable(self.context_handle, *image),
            decreases operations.len() - i,
        {
            let operation: CompositionOperation = operations[i];
            if !is_drawable(operation, self.context_handle, image) {
                assert(!list[i as int].drawable(self.context_handle, *image));
                return Err(HandleError::InvalidParameter);
            }
            proof {
                assert(list.take(i + 1).drop_last() =~= list.take(i as int));
                assert(list.take(i + 1).last() == operation);
            }
            push_operation_quad(&mut vertices, operation, image);
            i = i + 1;
        }
        assert(list.take(i as int) =~= list);
        proof {
            lemma_quads_length(list, *image);
        }
        let capacity: usize = match composition_command_capacity(
            6 * operations.len(),
            operations.len(),
        ) {
            Ok(capacity) => capacity,
            Err(error) => {
                return Err(error);
            },
        };
        if capacity > max_command_bytes as usize {
            return Err(HandleError::InvalidParameter);
        }
        let mut commands: Vec<u32> = Vec::new();
        if !memory.reserve(&mut commands, capacity / 4) {
            return Err(HandleError::OutOfResources);
        }
        let needs_setup: bool = !self.composition_initialized;
        if needs_setup {
            push_composition_setup(&mut commands);
        }
        let needs_surface: bool = !image.composition_surface_initialized;
        if needs_surface {
            push_surface(&mut commands, image.composition_surface_handle, image.resource_id);
        }
        push_composition_bind_state(
            &mut commands,
            image.composition_surface_handle,
            self.composition_vertex_resource_id,
        );
        push_viewport(&mut commands, image.width, image.height);
        push_clear(&mut commands, clear_color);
        if operations.len() > 0 {
            let written: bool = push_inline_write(
                &mut commands,
                self.composition_vertex_resource_id,
                vertices.as_slice(),
            );
            assert(written);
        }
        let ghost head = commands@;
        let mut views: Vec<u32> = Vec::new();
        if !memory.reserve(&mut views, operations.len()) {
            return Err(HandleError::OutOfResources);
        }
        let mut k: usize = 0;
        assert(list.take(0) =~= Seq::<CompositionOperation>::empty());
        assert(head + draw_words(list.take(0), *image) =~= head);
        while k < operations.len()
            invariant
                memory.may(true),
                composition_suits(*self, *image, clear_color@, operations@),
                k <= operations@.len() <= MAX_COMPOSITION_OPERATIONS,
                list == operations@,
                commands@ == head + draw_words(list.take(k as int), *image),
                views@ == new_views(list.take(k as int)),
                forall|j: int|
                    0 <= j < k ==> crate::virgl::protocol::scissor_fits(
                        (#[trigger] list[j]).clip_area(*image),
                    ),
            decreases operations.len() - k,
        {
            let operation: CompositionOperation = operations[k];
            proof {
                assert(list.take(k + 1).drop_last() =~= list.take(k as int));
                assert(list.take(k + 1).last() == operation);
            }
            let ghost before = commands@;
            let ghost created = views@;
            if !push_operation(&mut commands, &mut views, operation, image, 6 * k as u32) {
                assert(!crate::virgl::protocol::scissor_fits(list[k as int].clip_area(*image)));
                return Err(HandleError::InvalidParameter);
            }
            proof {
                assert(before + operation_words(operation, *image, created, (6 * k) as u32)
                    =~= head + draw_words(list.take(k + 1), *image));
            }
            k = k + 1;
        }
        assert(list.take(k as int) =~= list);
        assert(commands@ =~= composition_words(*self, *image, clear_color@, list));
        if commands.len() > max_command_bytes as usize / 4 {
            return Err(HandleError::InvalidParameter);
        }
        Ok(PreparedComposition { commands, needs_setup, needs_surface, new_sampler_views: views })
    }

    /// Note what exists after a composition was submitted.
    pub fn complete_composition(&mut self, image: &mut Image, prepared: &PreparedComposition)
        ensures
            *final(self) == (Queue {
                composition_initialized: old(self).composition_initialized || prepared.needs_setup,
                ..*old(self)
            }),
            *final(image) == (Image {
                composition_surface_initialized: old(image).composition_surface_initialized
                    || prepared.needs_surface,
                ..*old(image)
            }),
    {
        if prepared.needs_setup {
            self.composition_initialized = true;
        }
        if prepared.needs_surface {
            image.composition_surface_initialized = true;
        }
    }
}

impl PreparedComposition {
    /// Note that the sampler view of a texture exists, if the stream created it.
    pub fn complete_texture(&self, texture: &mut Texture)
        ensures
            *final(texture) == (Texture {
                sampler_view_initialized: old(texture).sampler_view_initialized
                    || self.new_sampler_views@.contains(old(texture).sampler_view_handle),
                ..*old(texture)
            }),
    {
        if contains(&self.new_sampler_views, texture.sampler_view_handle) {
            texture.sampler_view_initialized = true;
        }
    }
}

} // verus!
