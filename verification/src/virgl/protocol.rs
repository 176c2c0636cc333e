//! Words of the Virgl command protocol.
//!
//! A stream is a sequence of 32-bit words. Each command starts with a header that
//! holds the command, an object kind and the number of payload words.

use crate::driver::{IrRect, IrVertex, VertexView};
use crate::ir::float::ONE_BITS;
use crate::ir::rounding::{nearest_ratio, SIGN_BIT};
use vstd::prelude::*;

verus! {

pub const CCMD_CREATE_OBJECT: u32 = 1;
pub const CCMD_BIND_OBJECT: u32 = 2;
pub const CCMD_SET_VIEWPORT_STATE: u32 = 4;
pub const CCMD_SET_FRAMEBUFFER_STATE: u32 = 5;
pub const CCMD_SET_VERTEX_BUFFERS: u32 = 6;
pub const CCMD_CLEAR: u32 = 7;
pub const CCMD_DRAW_VBO: u32 = 8;
pub const CCMD_RESOURCE_INLINE_WRITE: u32 = 9;
pub const CCMD_SET_SAMPLER_VIEWS: u32 = 10;
pub const CCMD_SET_CONSTANT_BUFFER: u32 = 12;
pub const CCMD_SET_SCISSOR_STATE: u32 = 15;
pub const CCMD_RESOURCE_COPY_REGION: u32 = 17;
pub const CCMD_BIND_SAMPLER_STATES: u32 = 18;
pub const CCMD_BIND_SHADER: u32 = 31;
pub const CCMD_CLEAR_SURFACE: u32 = 62;

pub const OBJECT_NONE: u32 = 0;
pub const OBJECT_BLEND: u32 = 1;
pub const OBJECT_RASTERIZER: u32 = 2;
pub const OBJECT_SHADER: u32 = 4;
pub const OBJECT_VERTEX_ELEMENTS: u32 = 5;
pub const OBJECT_SAMPLER_VIEW: u32 = 6;
pub const OBJECT_SAMPLER_STATE: u32 = 7;
pub const OBJECT_SURFACE: u32 = 8;

pub const FORMAT_B8G8R8A8_UNORM: u32 = 1;
pub const FORMAT_R32G32_FLOAT: u32 = 29;
pub const FORMAT_R32G32B32_FLOAT: u32 = 30;
pub const FORMAT_R32G32B32A32_FLOAT: u32 = 31;

pub const SHADER_VERTEX: u32 = 0;
pub const SHADER_FRAGMENT: u32 = 1;
pub const SHADER_TOKEN_COUNT_HINT: u32 = 300;
pub const PRIM_TRIANGLES: u32 = 4;
pub const CLEAR_COLOR0: u32 = 4;

/// Color clear mask of a surface clear.
pub const CLEAR_SURFACE_COLOR0: u32 = 8;

/// Channels of a sampler view in their own order.
pub const SWIZZLE_IDENTITY: u32 = 0x688;

/// High word of the double-precision number one, whose low word is zero.
pub const DOUBLE_ONE_HIGH: u32 = 0x3ff0_0000;

/// Bit pattern of one half.
pub const HALF_BITS: u32 = 0x3f00_0000;

/// The header of a command.
pub open spec fn spec_command_header(command: u32, object: u32, payload_words: u32) -> u32 {
    command | (object << 8) | (payload_words << 16)
}

/// Return the header of a command.
#[verifier::when_used_as_spec(spec_command_header)]
pub fn command_header(command: u32, object: u32, payload_words: u32) -> (r: u32)
    ensures
        r == spec_command_header(command, object, payload_words),
{
    command | (object << 8) | (payload_words << 16)
}

/// A header gives back its parts, where each fits its field.
pub proof fn law_header_fields(command: u32, object: u32, payload_words: u32)
    requires
        command < 0x100,
        object < 0x100,
        payload_words < 0x1_0000,
    ensures
        command_header(command, object, payload_words) & 0xff == command,
        (command_header(command, object, payload_words) >> 8) & 0xff == object,
        command_header(command, object, payload_words) >> 16 == payload_words,
{
    assert((command | (object << 8) | (payload_words << 16)) & 0xff == command && ((command | (
    object << 8) | (payload_words << 16)) >> 8) & 0xff == object && (command | (object << 8) | (
    payload_words << 16)) >> 16 == payload_words) by (bit_vector)
        requires
            command < 0x100,
            object < 0x100,
            payload_words < 0x1_0000,
    ;
}

/// Whether words are a whole number of commands, each followed by the payload
/// that its header announces.
pub open spec fn framed(words: Seq<u32>) -> bool
    decreases words.len(),
{
    if words.len() == 0 {
        true
    } else {
        let next = 1 + (words[0] >> 16);
        next <= words.len() && framed(words.skip(next))
    }
}

/// Streams of whole commands one after the other are a stream of whole commands.
pub proof fn law_framed_concatenation(first: Seq<u32>, second: Seq<u32>)
    requires
        framed(first),
        framed(second),
    ensures
        framed(first + second),
    decreases first.len(),
{
    if first.len() == 0 {
        assert(first + second =~= second);
    } else {
        let next = 1 + (first[0] >> 16);
        assert((first + second)[0] == first[0]);
        assert((first + second).skip(next) =~= first.skip(next) + second);
        law_framed_concatenation(first.skip(next), second);
    }
}

/// One command is framed when its header announces its payload.
pub proof fn lemma_one_command(words: Seq<u32>, command: u32, object: u32)
    requires
        1 <= words.len() <= 0x1_0000,
        command < 0x100,
        object < 0x100,
        words[0] == command_header(command, object, (words.len() - 1) as u32),
    ensures
        framed(words),
{
    law_header_fields(command, object, (words.len() - 1) as u32);
    assert(words.skip(words.len() as int) =~= Seq::<u32>::empty());
    assert(framed(Seq::<u32>::empty()));
}

/// Append words.
pub fn push_words(commands: &mut Vec<u32>, words: &[u32])
    ensures
        final(commands)@ == old(commands)@ + words@,
{
    let ghost before = commands@;
    let mut i: usize = 0;
    assert(before + words@.take(0) =~= before);
    while i < words.len()
        invariant
            i <= words@.len(),
            commands@ == before + words@.take(i as int),
        decreases words.len() - i,
    {
        assert(before + words@.take(i + 1) =~= (before + words@.take(i as int)).push(
            words@[i as int],
        ));
        commands.push(words[i]);
        i = i + 1;
    }
    assert(words@.take(i as int) =~= words@);
}

/// The bytes of words, least significant first.
pub open spec fn spec_stream_bytes(words: Seq<u32>) -> Seq<u8> {
    Seq::new(4 * words.len(), |i: int| word_byte(words[i / 4], i % 4))
}

/// One byte of a word, counted from the least significant.
pub open spec fn word_byte(word: u32, index: int) -> u8 {
    if index == 0 {
        (word & 0xff) as u8
    } else if index == 1 {
        ((word >> 8) & 0xff) as u8
    } else if index == 2 {
        ((word >> 16) & 0xff) as u8
    } else {
        (word >> 24) as u8
    }
}

/// Four bytes of a stream give back their word, read least significant first.
pub proof fn law_stream_bytes_hold_words(words: Seq<u32>, i: int)
    requires
        0 <= i < words.len(),
    ensures
        crate::ir_execute::decode::le_u32(spec_stream_bytes(words), 4 * i) == words[i],
{
    let word = words[i];
    let bytes = spec_stream_bytes(words);
    assert(bytes[4 * i] == word_byte(word, 0));
    assert(bytes[4 * i + 1] == word_byte(word, 1));
    assert(bytes[4 * i + 2] == word_byte(word, 2));
    assert(bytes[4 * i + 3] == word_byte(word, 3));
    assert(((word & 0xff) as u8) + 0x100 * (((word >> 8) & 0xff) as u8) + 0x1_0000 * (((word >> 16)
        & 0xff) as u8) + 0x100_0000 * ((word >> 24) as u8) == word) by (bit_vector);
}

/// Return the bytes of words, least significant first.
pub fn stream_bytes(words: &[u32]) -> (r: Vec<u8>)
    ensures
        r@ == spec_stream_bytes(words@),
{
    let mut bytes: Vec<u8> = Vec::new();
    let mut i: usize = 0;
    assert(spec_stream_bytes(words@.take(0)) =~= Seq::<u8>::empty());
    while i < words.len()
        invariant
            i <= words@.len(),
            bytes@ == spec_stream_bytes(words@.take(i as int)),
        decreases words.len() - i,
    {
        let word: u32 = words[i];
        proof {
            assert(word & 0xff <= 0xff && (word >> 8) & 0xff <= 0xff && (word >> 16) & 0xff <= 0xff
                && word >> 24 <= 0xff) by (bit_vector);
        }
        bytes.push((word & 0xff) as u8);
        bytes.push(((word >> 8) & 0xff) as u8);
        bytes.push(((word >> 16) & 0xff) as u8);
        bytes.push((word >> 24) as u8);
        proof {
            let shorter = words@.take(i as int);
            let longer = words@.take(i + 1);
            assert forall|k: int| 0 <= k < 4 * (i + 1) implies #[trigger] spec_stream_bytes(
                longer,
            )[k] == bytes@[k] by {
                if k < 4 * i {
                    assert(spec_stream_bytes(longer)[k] == spec_stream_bytes(shorter)[k]);
                } else {
                    assert(k / 4 == i);
                }
            }
            assert(bytes@ =~= spec_stream_bytes(longer));
        }
        i = i + 1;
    }
    assert(words@.take(i as int) =~= words@);
    bytes
}

/// Bind an object.
pub open spec fn bind_object_words(object: u32, handle: u32) -> Seq<u32> {
    seq![command_header(CCMD_BIND_OBJECT, object, 1), handle]
}

pub fn push_bind_object(commands: &mut Vec<u32>, object: u32, handle: u32)
    ensures
        final(commands)@ == old(commands)@ + bind_object_words(object, handle),
{
    let words: [u32; 2] = [command_header(CCMD_BIND_OBJECT, object, 1), handle];
    assert(words@ =~= bind_object_words(object, handle));
    push_words(commands, &words);
}

/// Bind a shader to a stage.
pub open spec fn bind_shader_words(handle: u32, stage: u32) -> Seq<u32> {
    seq![command_header(CCMD_BIND_SHADER, OBJECT_NONE, 2), handle, stage]
}

pub fn push_bind_shader(commands: &mut Vec<u32>, handle: u32, stage: u32)
    ensures
        final(commands)@ == old(commands)@ + bind_shader_words(handle, stage),
{
    let words: [u32; 3] = [command_header(CCMD_BIND_SHADER, OBJECT_NONE, 2), handle, stage];
    assert(words@ =~= bind_shader_words(handle, stage));
    push_words(commands, &words);
}

/// Binding an object is one command.
pub proof fn lemma_bind_object_framed(object: u32, handle: u32)
    requires
        object < 0x100,
    ensures
        framed(bind_object_words(object, handle)),
        bind_object_words(object, handle).len() == 2,
{
    lemma_one_command(bind_object_words(object, handle), CCMD_BIND_OBJECT, object);
}

/// Binding a shader is one command.
pub proof fn lemma_bind_shader_framed(handle: u32, stage: u32)
    ensures
        framed(bind_shader_words(handle, stage)),
        bind_shader_words(handle, stage).len() == 3,
{
    lemma_one_command(bind_shader_words(handle, stage), CCMD_BIND_SHADER, OBJECT_NONE);
}

/// Create a render surface of an image.
pub open spec fn surface_words(handle: u32, resource_id: u32) -> Seq<u32> {
    seq![
        command_header(CCMD_CREATE_OBJECT, OBJECT_SURFACE, 5),
        handle,
        resource_id,
        FORMAT_B8G8R8A8_UNORM,
        0,
        0,
    ]
}

/// Append the words of `surface_words`.
pub fn push_surface(commands: &mut Vec<u32>, handle: u32, resource_id: u32)
    ensures
        final(commands)@ == old(commands)@ + surface_words(handle, resource_id),
{
    let words: [u32; 6] = [
        command_header(CCMD_CREATE_OBJECT, OBJECT_SURFACE, 5),
        handle,
        resource_id,
        FORMAT_B8G8R8A8_UNORM,
        0,
        0,
    ];
    assert(words@ =~= surface_words(handle, resource_id));
    push_words(commands, &words);
}

/// The words are one command.
pub proof fn lemma_surface_framed(handle: u32, resource_id: u32)
    ensures
        framed(surface_words(handle, resource_id)),
        surface_words(handle, resource_id).len() == 6,
{
    lemma_one_command(surface_words(handle, resource_id), CCMD_CREATE_OBJECT, OBJECT_SURFACE);
}

/// Create a blend state.
pub open spec fn blend_words(handle: u32, state: u32) -> Seq<u32> {
    seq![
        command_header(CCMD_CREATE_OBJECT, OBJECT_BLEND, 11),
        handle,
        0,
        0,
        state,
        0,
        0,
        0,
        0,
        0,
        0,
        0,
    ]
}

/// Append the words of `blend_words`.
pub fn push_blend(commands: &mut Vec<u32>, handle: u32, state: u32)
    ensures
        final(commands)@ == old(commands)@ + blend_words(handle, state),
{
    let words: [u32; 12] = [
        command_header(CCMD_CREATE_OBJECT, OBJECT_BLEND, 11),
        handle,
        0,
        0,
        state,
        0,
        0,
        0,
        0,
        0,
        0,
        0,
    ];
    assert(words@ =~= blend_words(handle, state));
    push_words(commands, &words);
}

/// The words are one command.
pub proof fn lemma_blend_framed(handle: u32, state: u32)
    ensures
        framed(blend_words(handle, state)),
        blend_words(handle, state).len() == 12,
{
    lemma_one_command(blend_words(handle, state), CCMD_CREATE_OBJECT, OBJECT_BLEND);
}

/// Create a rasterizer state.
pub open spec fn rasterizer_words(handle: u32, flags: u32) -> Seq<u32> {
    seq![
        command_header(CCMD_CREATE_OBJECT, OBJECT_RASTERIZER, 9),
        handle,
        flags,
        ONE_BITS,
        0,
        0,
        ONE_BITS,
        0,
        0,
        0,
    ]
}

/// Append the words of `rasterizer_words`.
pub fn push_rasterizer(commands: &mut Vec<u32>, handle: u32, flags: u32)
    ensures
        final(commands)@ == old(commands)@ + rasterizer_words(handle, flags),
{
    let words: [u32; 10] = [
        command_header(CCMD_CREATE_OBJECT, OBJECT_RASTERIZER, 9),
        handle,
        flags,
        ONE_BITS,
        0,
        0,
        ONE_BITS,
        0,
        0,
        0,
    ];
    assert(words@ =~= rasterizer_words(handle, flags));
    push_words(commands, &words);
}

/// The words are one command.
pub proof fn lemma_rasterizer_framed(handle: u32, flags: u32)
    ensures
        framed(rasterizer_words(handle, flags)),
        rasterizer_words(handle, flags).len() == 10,
{
    lemma_one_command(rasterizer_words(handle, flags), CCMD_CREATE_OBJECT, OBJECT_RASTERIZER);
}

/// Create the layout of a four-component attribute and a second one behind it.
pub open spec fn two_vertex_elements_words(handle: u32, second_format: u32) -> Seq<u32> {
    seq![
        command_header(CCMD_CREATE_OBJECT, OBJECT_VERTEX_ELEMENTS, 9),
        handle,
        0,
        0,
        0,
        FORMAT_R32G32B32A32_FLOAT,
        16,
        0,
        0,
        second_format,
    ]
}

/// Append the words of `two_vertex_elements_words`.
pub fn push_two_vertex_elements(commands: &mut Vec<u32>, handle: u32, second_format: u32)
    ensures
        final(commands)@ == old(commands)@ + two_vertex_elements_words(handle, second_format),
{
    let words: [u32; 10] = [
        command_header(CCMD_CREATE_OBJECT, OBJECT_VERTEX_ELEMENTS, 9),
        handle,
        0,
        0,
        0,
        FORMAT_R32G32B32A32_FLOAT,
        16,
        0,
        0,
        second_format,
    ];
    assert(words@ =~= two_vertex_elements_words(handle, second_format));
    push_words(commands, &words);
}

/// The words are one command.
pub proof fn lemma_two_vertex_elements_framed(handle: u32, second_format: u32)
    ensures
        framed(two_vertex_elements_words(handle, second_format)),
        two_vertex_elements_words(handle, second_format).len() == 10,
{
    lemma_one_command(
        two_vertex_elements_words(handle, second_format),
        CCMD_CREATE_OBJECT,
        OBJECT_VERTEX_ELEMENTS,
    );
}

/// Create the layout of position, texture coordinates and color.
pub open spec fn composition_vertex_elements_words(handle: u32) -> Seq<u32> {
    seq![
        command_header(CCMD_CREATE_OBJECT, OBJECT_VERTEX_ELEMENTS, 13),
        handle,
        0,
        0,
        0,
        FORMAT_R32G32B32A32_FLOAT,
        16,
        0,
        0,
        FORMAT_R32G32_FLOAT,
        24,
        0,
        0,
        FORMAT_R32G32B32A32_FLOAT,
    ]
}

/// Append the words of `composition_vertex_elements_words`.
pub fn push_composition_vertex_elements(commands: &mut Vec<u32>, handle: u32)
    ensures
        final(commands)@ == old(commands)@ + composition_vertex_elements_words(handle),
{
    let words: [u32; 14] = [
        command_header(CCMD_CREATE_OBJECT, OBJECT_VERTEX_ELEMENTS, 13),
        handle,
        0,
        0,
        0,
        FORMAT_R32G32B32A32_FLOAT,
        16,
        0,
        0,
        FORMAT_R32G32_FLOAT,
        24,
        0,
        0,
        FORMAT_R32G32B32A32_FLOAT,
    ];
    assert(words@ =~= composition_vertex_elements_words(handle));
    push_words(commands, &words);
}

/// The words are one command.
pub proof fn lemma_composition_vertex_elements_framed(handle: u32)
    ensures
        framed(composition_vertex_elements_words(handle)),
        composition_vertex_elements_words(handle).len() == 14,
{
    lemma_one_command(
        composition_vertex_elements_words(handle),
        CCMD_CREATE_OBJECT,
        OBJECT_VERTEX_ELEMENTS,
    );
}

/// Create a sampler state.
pub open spec fn sampler_state_words(handle: u32, state: u32) -> Seq<u32> {
    seq![
        command_header(CCMD_CREATE_OBJECT, OBJECT_SAMPLER_STATE, 9),
        handle,
        state,
        0,
        0,
        0,
        0,
        0,
        0,
        0,
    ]
}

/// Append the words of `sampler_state_words`.
pub fn push_sampler_state(commands: &mut Vec<u32>, handle: u32, state: u32)
    ensures
        final(commands)@ == old(commands)@ + sampler_state_words(handle, state),
{
    let words: [u32; 10] = [
        command_header(CCMD_CREATE_OBJECT, OBJECT_SAMPLER_STATE, 9),
        handle,
        state,
        0,
        0,
        0,
        0,
        0,
        0,
        0,
    ];
    assert(words@ =~= sampler_state_words(handle, state));
    push_words(commands, &words);
}

/// The words are one command.
pub proof fn lemma_sampler_state_framed(handle: u32, state: u32)
    ensures
        framed(sampler_state_words(handle, state)),
        sampler_state_words(handle, state).len() == 10,
{
    lemma_one_command(sampler_state_words(handle, state), CCMD_CREATE_OBJECT, OBJECT_SAMPLER_STATE);
}

/// Create a view of an image for sampling, channels in order.
pub open spec fn sampler_view_words(handle: u32, resource_id: u32) -> Seq<u32> {
    seq![
        command_header(CCMD_CREATE_OBJECT, OBJECT_SAMPLER_VIEW, 6),
        handle,
        resource_id,
        FORMAT_B8G8R8A8_UNORM,
        0,
        0,
        SWIZZLE_IDENTITY,
    ]
}

/// Append the words of `sampler_view_words`.
pub fn push_sampler_view(commands: &mut Vec<u32>, handle: u32, resource_id: u32)
    ensures
        final(commands)@ == old(commands)@ + sampler_view_words(handle, resource_id),
{
    let words: [u32; 7] = [
        command_header(CCMD_CREATE_OBJECT, OBJECT_SAMPLER_VIEW, 6),
        handle,
        resource_id,
        FORMAT_B8G8R8A8_UNORM,
        0,
        0,
        SWIZZLE_IDENTITY,
    ];
    assert(words@ =~= sampler_view_words(handle, resource_id));
    push_words(commands, &words);
}

/// The words are one command.
pub proof fn lemma_sampler_view_framed(handle: u32, resource_id: u32)
    ensures
        framed(sampler_view_words(handle, resource_id)),
        sampler_view_words(handle, resource_id).len() == 7,
{
    lemma_one_command(
        sampler_view_words(handle, resource_id),
        CCMD_CREATE_OBJECT,
        OBJECT_SAMPLER_VIEW,
    );
}

/// Bind a sampler view to the fragment stage.
pub open spec fn sampler_view_binding_words(handle: u32) -> Seq<u32> {
    seq![
        command_header(CCMD_SET_SAMPLER_VIEWS, OBJECT_NONE, 3),
        SHADER_FRAGMENT,
        0,
        handle,
    ]
}

/// Append the words of `sampler_view_binding_words`.
pub fn push_sampler_view_binding(commands: &mut Vec<u32>, handle: u32)
    ensures
        final(commands)@ == old(commands)@ + sampler_view_binding_words(handle),
{
    let words: [u32; 4] = [
        command_header(CCMD_SET_SAMPLER_VIEWS, OBJECT_NONE, 3),
        SHADER_FRAGMENT,
        0,
        handle,
    ];
    assert(words@ =~= sampler_view_binding_words(handle));
    push_words(commands, &words);
}

/// The words are one command.
pub proof fn lemma_sampler_view_binding_framed(handle: u32)
    ensures
        framed(sampler_view_binding_words(handle)),
        sampler_view_binding_words(handle).len() == 4,
{
    lemma_one_command(sampler_view_binding_words(handle), CCMD_SET_SAMPLER_VIEWS, OBJECT_NONE);
}

/// Bind a sampler state to the fragment stage.
pub open spec fn sampler_state_binding_words(handle: u32) -> Seq<u32> {
    seq![
        command_header(CCMD_BIND_SAMPLER_STATES, OBJECT_NONE, 3),
        SHADER_FRAGMENT,
        0,
        handle,
    ]
}

/// Append the words of `sampler_state_binding_words`.
pub fn push_sampler_state_binding(commands: &mut Vec<u32>, handle: u32)
    ensures
        final(commands)@ == old(commands)@ + sampler_state_binding_words(handle),
{
    let words: [u32; 4] = [
        command_header(CCMD_BIND_SAMPLER_STATES, OBJECT_NONE, 3),
        SHADER_FRAGMENT,
        0,
        handle,
    ];
    assert(words@ =~= sampler_state_binding_words(handle));
    push_words(commands, &words);
}

/// The words are one command.
pub proof fn lemma_sampler_state_binding_framed(handle: u32)
    ensures
        framed(sampler_state_binding_words(handle)),
        sampler_state_binding_words(handle).len() == 4,
{
    lemma_one_command(sampler_state_binding_words(handle), CCMD_BIND_SAMPLER_STATES, OBJECT_NONE);
}

/// Render into a surface.
pub open spec fn framebuffer_words(surface_handle: u32) -> Seq<u32> {
    seq![
        command_header(CCMD_SET_FRAMEBUFFER_STATE, OBJECT_NONE, 3),
        1,
        0,
        surface_handle,
    ]
}

/// Append the words of `framebuffer_words`.
pub fn push_framebuffer(commands: &mut Vec<u32>, surface_handle: u32)
    ensures
        final(commands)@ == old(commands)@ + framebuffer_words(surface_handle),
{
    let words: [u32; 4] = [
        command_header(CCMD_SET_FRAMEBUFFER_STATE, OBJECT_NONE, 3),
        1,
        0,
        surface_handle,
    ];
    assert(words@ =~= framebuffer_words(surface_handle));
    push_words(commands, &words);
}

/// The words are one command.
pub proof fn lemma_framebuffer_framed(surface_handle: u32)
    ensures
        framed(framebuffer_words(surface_handle)),
        framebuffer_words(surface_handle).len() == 4,
{
    lemma_one_command(framebuffer_words(surface_handle), CCMD_SET_FRAMEBUFFER_STATE, OBJECT_NONE);
}

/// Read vertices of a size from a buffer.
pub open spec fn vertex_buffer_words(stride: u32, resource_id: u32) -> Seq<u32> {
    seq![
        command_header(CCMD_SET_VERTEX_BUFFERS, OBJECT_NONE, 3),
        stride,
        0,
        resource_id,
    ]
}

/// Append the words of `vertex_buffer_words`.
pub fn push_vertex_buffer(commands: &mut Vec<u32>, stride: u32, resource_id: u32)
    ensures
        final(commands)@ == old(commands)@ + vertex_buffer_words(stride, resource_id),
{
    let words: [u32; 4] = [
        command_header(CCMD_SET_VERTEX_BUFFERS, OBJECT_NONE, 3),
        stride,
        0,
        resource_id,
    ];
    assert(words@ =~= vertex_buffer_words(stride, resource_id));
    push_words(commands, &words);
}

/// The words are one command.
pub proof fn lemma_vertex_buffer_framed(stride: u32, resource_id: u32)
    ensures
        framed(vertex_buffer_words(stride, resource_id)),
        vertex_buffer_words(stride, resource_id).len() == 4,
{
    lemma_one_command(
        vertex_buffer_words(stride, resource_id),
        CCMD_SET_VERTEX_BUFFERS,
        OBJECT_NONE,
    );
}

/// Copy a region between images.
pub open spec fn resource_copy_words(
    destination_resource: u32,
    destination: IrRect,
    source_resource: u32,
    source: IrRect,
) -> Seq<u32> {
    seq![
        command_header(CCMD_RESOURCE_COPY_REGION, OBJECT_NONE, 13),
        destination_resource,
        0,
        destination.x,
        destination.y,
        0,
        source_resource,
        0,
        source.x,
        source.y,
        0,
        source.width,
        source.height,
        1,
    ]
}

/// Append the words of `resource_copy_words`.
pub fn push_resource_copy(
    commands: &mut Vec<u32>,
    destination_resource: u32,
    destination: IrRect,
    source_resource: u32,
    source: IrRect,
)
    ensures
        final(commands)@ == old(commands)@ + resource_copy_words(
            destination_resource,
            destination,
            source_resource,
            source,
        ),
{
    let words: [u32; 14] = [
        command_header(CCMD_RESOURCE_COPY_REGION, OBJECT_NONE, 13),
        destination_resource,
        0,
        destination.x,
        destination.y,
        0,
        source_resource,
        0,
        source.x,
        source.y,
        0,
        source.width,
        source.height,
        1,
    ];
    assert(
        words@ =~= resource_copy_words(destination_resource, destination, source_resource, source)
    );
    push_words(commands, &words);
}

/// The words are one command.
pub proof fn lemma_resource_copy_framed(
    destination_resource: u32,
    destination: IrRect,
    source_resource: u32,
    source: IrRect,
)
    ensures
        framed(resource_copy_words(destination_resource, destination, source_resource, source)),
        resource_copy_words(destination_resource, destination, source_resource, source).len() == 14,
{
    lemma_one_command(
        resource_copy_words(destination_resource, destination, source_resource, source),
        CCMD_RESOURCE_COPY_REGION,
        OBJECT_NONE,
    );
}

/// Draw triangles from bound vertices.
pub open spec fn draw_vbo_words(start_vertex: u32, vertex_count: u32) -> Seq<u32> {
    seq![
        command_header(CCMD_DRAW_VBO, OBJECT_NONE, 12),
        start_vertex,
        vertex_count,
        PRIM_TRIANGLES,
        0,
        1,
        0,
        0,
        0,
        0,
        0,
        u32::MAX,
        0,
    ]
}

/// Append the words of `draw_vbo_words`.
pub fn push_draw_vbo(commands: &mut Vec<u32>, start_vertex: u32, vertex_count: u32)
    ensures
        final(commands)@ == old(commands)@ + draw_vbo_words(start_vertex, vertex_count),
{
    let words: [u32; 13] = [
        command_header(CCMD_DRAW_VBO, OBJECT_NONE, 12),
        start_vertex,
        vertex_count,
        PRIM_TRIANGLES,
        0,
        1,
        0,
        0,
        0,
        0,
        0,
        u32::MAX,
        0,
    ];
    assert(words@ =~= draw_vbo_words(start_vertex, vertex_count));
    push_words(commands, &words);
}

/// The words are one command.
pub proof fn lemma_draw_vbo_framed(start_vertex: u32, vertex_count: u32)
    ensures
        framed(draw_vbo_words(start_vertex, vertex_count)),
        draw_vbo_words(start_vertex, vertex_count).len() == 13,
{
    lemma_one_command(draw_vbo_words(start_vertex, vertex_count), CCMD_DRAW_VBO, OBJECT_NONE);
}

/// Clear the whole surface to a color.
pub open spec fn clear_words(color: Seq<u32>) -> Seq<u32> {
    seq![
        command_header(CCMD_CLEAR, OBJECT_NONE, 8),
        CLEAR_COLOR0,
        color[0],
        color[1],
        color[2],
        color[3],
        0,
        DOUBLE_ONE_HIGH,
        0,
    ]
}

/// Append the words of `clear_words`.
pub fn push_clear(commands: &mut Vec<u32>, color: [u32; 4])
    ensures
        final(commands)@ == old(commands)@ + clear_words(color@),
{
    let words: [u32; 9] = [
        command_header(CCMD_CLEAR, OBJECT_NONE, 8),
        CLEAR_COLOR0,
        color[0],
        color[1],
        color[2],
        color[3],
        0,
        DOUBLE_ONE_HIGH,
        0,
    ];
    assert(words@ =~= clear_words(color@));
    push_words(commands, &words);
}

/// The words are one command.
pub proof fn lemma_clear_framed(color: Seq<u32>)
    ensures
        framed(clear_words(color)),
        clear_words(color).len() == 9,
{
    lemma_one_command(clear_words(color), CCMD_CLEAR, OBJECT_NONE);
}

/// Clear a region of a surface to a color.
pub open spec fn clear_surface_words(
    surface_handle: u32,
    area: IrRect,
    color: Seq<u32>,
) -> Seq<u32> {
    seq![
        command_header(CCMD_CLEAR_SURFACE, OBJECT_NONE, 10),
        CLEAR_SURFACE_COLOR0,
        surface_handle,
        color[0],
        color[1],
        color[2],
        color[3],
        area.x,
        area.y,
        area.width,
        area.height,
    ]
}

/// Append the words of `clear_surface_words`.
pub fn push_clear_surface(
    commands: &mut Vec<u32>,
    surface_handle: u32,
    area: IrRect,
    color: [u32; 4],
)
    ensures
        final(commands)@ == old(commands)@ + clear_surface_words(surface_handle, area, color@),
{
    let words: [u32; 11] = [
        command_header(CCMD_CLEAR_SURFACE, OBJECT_NONE, 10),
        CLEAR_SURFACE_COLOR0,
        surface_handle,
        color[0],
        color[1],
        color[2],
        color[3],
        area.x,
        area.y,
        area.width,
        area.height,
    ];
    assert(words@ =~= clear_surface_words(surface_handle, area, color@));
    push_words(commands, &words);
}

/// The words are one command.
pub proof fn lemma_clear_surface_framed(surface_handle: u32, area: IrRect, color: Seq<u32>)
    ensures
        framed(clear_surface_words(surface_handle, area, color)),
        clear_surface_words(surface_handle, area, color).len() == 11,
{
    lemma_one_command(
        clear_surface_words(surface_handle, area, color),
        CCMD_CLEAR_SURFACE,
        OBJECT_NONE,
    );
}

/// The largest coordinate that a scissor state holds.
pub const MAX_SCISSOR: u32 = 0xffff;

/// Restrict drawing to a rectangle.
pub open spec fn scissor_words(clip: IrRect) -> Seq<u32> {
    seq![
        command_header(CCMD_SET_SCISSOR_STATE, OBJECT_NONE, 3),
        0,
        clip.x | (clip.y << 16),
        (clip.right() as u32) | ((clip.bottom() as u32) << 16),
    ]
}

/// Whether a scissor state can hold a rectangle.
pub open spec fn scissor_fits(clip: IrRect) -> bool {
    clip.right() <= MAX_SCISSOR && clip.bottom() <= MAX_SCISSOR
}

/// Append the words of `scissor_words`, if a scissor state can hold the rectangle.
pub fn push_scissor(commands: &mut Vec<u32>, clip: IrRect) -> (r: bool)
    ensures
        r == scissor_fits(clip),
        final(commands)@ == (if r {
            old(commands)@ + scissor_words(clip)
        } else {
            old(commands)@
        }),
{
    if clip.x > MAX_SCISSOR || clip.y > MAX_SCISSOR || clip.width > MAX_SCISSOR - clip.x
        || clip.height > MAX_SCISSOR - clip.y {
        return false;
    }
    let right: u32 = clip.x + clip.width;
    let bottom: u32 = clip.y + clip.height;
    let words: [u32; 4] = [
        command_header(CCMD_SET_SCISSOR_STATE, OBJECT_NONE, 3),
        0,
        clip.x | (clip.y << 16),
        right | (bottom << 16),
    ];
    assert(words@ =~= scissor_words(clip));
    push_words(commands, &words);
    true
}

/// A scissor state is one command.
pub proof fn lemma_scissor_framed(clip: IrRect)
    ensures
        framed(scissor_words(clip)),
        scissor_words(clip).len() == 4,
{
    lemma_one_command(scissor_words(clip), CCMD_SET_SCISSOR_STATE, OBJECT_NONE);
}

/// A scissor state gives back the edges of the rectangle that it holds.
pub proof fn law_scissor_edges(clip: IrRect)
    requires
        scissor_fits(clip),
    ensures
        scissor_words(clip)[2] & 0xffff == clip.x,
        scissor_words(clip)[2] >> 16 == clip.y,
        scissor_words(clip)[3] & 0xffff == clip.right(),
        scissor_words(clip)[3] >> 16 == clip.bottom(),
{
    let x = clip.x;
    let y = clip.y;
    let right = clip.right() as u32;
    let bottom = clip.bottom() as u32;
    assert((x | (y << 16)) & 0xffff == x && (x | (y << 16)) >> 16 == y) by (bit_vector)
        requires
            x <= 0xffff,
            y <= 0xffff,
    ;
    assert((right | (bottom << 16)) & 0xffff == right && (right | (bottom << 16)) >> 16 == bottom)
        by (bit_vector)
        requires
            right <= 0xffff,
            bottom <= 0xffff,
    ;
}

/// Map clip space to a surface whose rows run from the upper edge down. Halves
/// of the extent are rounded once, since halving is exact.
pub open spec fn viewport_words(width: u32, height: u32) -> Seq<u32> {
    let half_width = crate::ir::rounding::nearest(width as nat, 2) as u32;
    let half_height = crate::ir::rounding::nearest(height as nat, 2) as u32;
    seq![
        command_header(CCMD_SET_VIEWPORT_STATE, OBJECT_NONE, 7),
        0,
        half_width,
        half_height | SIGN_BIT,
        HALF_BITS,
        half_width,
        half_height,
        HALF_BITS,
    ]
}

/// Append the words of `viewport_words`.
pub fn push_viewport(commands: &mut Vec<u32>, width: u32, height: u32)
    ensures
        final(commands)@ == old(commands)@ + viewport_words(width, height),
{
    proof {
        vstd::arithmetic::power2::lemma2_to64();
    }
    let half_width: u32 = nearest_ratio(width as u64, 2);
    let half_height: u32 = nearest_ratio(height as u64, 2);
    let words: [u32; 8] = [
        command_header(CCMD_SET_VIEWPORT_STATE, OBJECT_NONE, 7),
        0,
        half_width,
        half_height | SIGN_BIT,
        HALF_BITS,
        half_width,
        half_height,
        HALF_BITS,
    ];
    assert(words@ =~= viewport_words(width, height));
    push_words(commands, &words);
}

/// A viewport is one command.
pub proof fn lemma_viewport_framed(width: u32, height: u32)
    ensures
        framed(viewport_words(width, height)),
        viewport_words(width, height).len() == 8,
{
    lemma_one_command(viewport_words(width, height), CCMD_SET_VIEWPORT_STATE, OBJECT_NONE);
}

/// Set the constants of a stage.
pub open spec fn constant_buffer_words(stage: u32, values: Seq<u32>) -> Seq<u32> {
    seq![
        command_header(CCMD_SET_CONSTANT_BUFFER, OBJECT_NONE, (values.len() + 2) as u32),
        stage,
        0,
    ] + values
}

/// Append the words of `constant_buffer_words`, if the payload can be counted.
pub fn push_constant_buffer(commands: &mut Vec<u32>, stage: u32, values: &[u32]) -> (r: bool)
    ensures
        r == (values@.len() + 2 <= u32::MAX),
        final(commands)@ == (if r {
            old(commands)@ + constant_buffer_words(stage, values@)
        } else {
            old(commands)@
        }),
{
    if values.len() > 0xffff_fffd {
        return false;
    }
    let head: [u32; 3] = [
        command_header(CCMD_SET_CONSTANT_BUFFER, OBJECT_NONE, (values.len() as u32) + 2),
        stage,
        0,
    ];
    let ghost before = commands@;
    push_words(commands, &head);
    push_words(commands, values);
    assert(commands@ =~= before + constant_buffer_words(stage, values@));
    true
}

/// Setting constants is one command.
pub proof fn lemma_constant_buffer_framed(stage: u32, values: Seq<u32>)
    requires
        values.len() <= 0xfffd,
    ensures
        framed(constant_buffer_words(stage, values)),
        constant_buffer_words(stage, values).len() == 3 + values.len(),
{
    lemma_one_command(
        constant_buffer_words(stage, values),
        CCMD_SET_CONSTANT_BUFFER,
        OBJECT_NONE,
    );
}

/// Write words to the start of a buffer.
pub open spec fn inline_write_words(resource_id: u32, data: Seq<u32>) -> Seq<u32> {
    seq![
        command_header(CCMD_RESOURCE_INLINE_WRITE, OBJECT_NONE, (11 + data.len()) as u32),
        resource_id,
        0,
        0,
        0,
        0,
        0,
        0,
        0,
        (4 * data.len()) as u32,
        1,
        1,
    ] + data
}

/// Whether the bytes of an inline write can be counted.
pub open spec fn inline_write_fits(length: nat) -> bool {
    4 * length <= u32::MAX
}

/// Append the words of `inline_write_words`, if the bytes can be counted.
pub fn push_inline_write(commands: &mut Vec<u32>, resource_id: u32, data: &[u32]) -> (r: bool)
    ensures
        r == inline_write_fits(data@.len()),
        final(commands)@ == (if r {
            old(commands)@ + inline_write_words(resource_id, data@)
        } else {
            old(commands)@
        }),
{
    if data.len() > 0x3fff_ffff {
        return false;
    }
    let length: u32 = data.len() as u32;
    let head: [u32; 12] = [
        command_header(CCMD_RESOURCE_INLINE_WRITE, OBJECT_NONE, 11 + length),
        resource_id,
        0,
        0,
        0,
        0,
        0,
        0,
        0,
        4 * length,
        1,
        1,
    ];
    let ghost before = commands@;
    push_words(commands, &head);
    push_words(commands, data);
    assert(commands@ =~= before + inline_write_words(resource_id, data@));
    true
}

/// An inline write is one command.
pub proof fn lemma_inline_write_framed(resource_id: u32, data: Seq<u32>)
    requires
        data.len() <= 0xfff4,
    ensures
        framed(inline_write_words(resource_id, data)),
        inline_write_words(resource_id, data).len() == 12 + data.len(),
{
    lemma_one_command(
        inline_write_words(resource_id, data),
        CCMD_RESOURCE_INLINE_WRITE,
        OBJECT_NONE,
    );
}

/// Words that hold a text and at least one zero byte behind it.
pub open spec fn text_word_count(length: nat) -> nat {
    (length + 4) / 4
}

/// One byte of a text that is continued by zeros.
pub open spec fn text_byte(text: Seq<u8>, index: int) -> u32 {
    if index < text.len() {
        text[index] as u32
    } else {
        0
    }
}

/// The words of a text and its closing zeros.
pub open spec fn text_words(text: Seq<u8>) -> Seq<u32> {
    Seq::new(
        text_word_count(text.len()),
        |i: int|
            (text_byte(text, 4 * i) + 0x100 * text_byte(text, 4 * i + 1) + 0x1_0000 * text_byte(
                text,
                4 * i + 2,
            ) + 0x100_0000 * text_byte(text, 4 * i + 3)) as u32,
    )
}

/// Create a shader from its source.
pub open spec fn shader_words(handle: u32, stage: u32, source: Seq<u8>) -> Seq<u32> {
    seq![
        command_header(
            CCMD_CREATE_OBJECT,
            OBJECT_SHADER,
            (5 + text_word_count(source.len())) as u32,
        ),
        handle,
        stage,
        (source.len() + 1) as u32,
        SHADER_TOKEN_COUNT_HINT,
        0,
    ] + text_words(source)
}

fn byte_at(text: &[u8], index: usize) -> (r: u32)
    ensures
        r == text_byte(text@, index as int),
        r < 0x100,
{
    if index < text.len() {
        text[index] as u32
    } else {
        0
    }
}

/// Append the words of `shader_words`.
pub fn push_shader(commands: &mut Vec<u32>, handle: u32, stage: u32, source: &str)
    ensures
        final(commands)@ == old(commands)@ + shader_words(
            handle,
            stage,
            vstd::utf8::encode_utf8(source@),
        ),
{
    let text: &[u8] = source.as_bytes();
    let count: usize = text.len() / 4 + 1;
    let head: [u32; 6] = [
        command_header(CCMD_CREATE_OBJECT, OBJECT_SHADER, (5 + count) as u32),
        handle,
        stage,
        (text.len() as u128 + 1) as u32,
        SHADER_TOKEN_COUNT_HINT,
        0,
    ];
    let ghost before = commands@;
    push_words(commands, &head);
    let ghost start = commands@;
    let mut i: usize = 0;
    assert(start + text_words(text@).take(0) =~= start);
    while i < count
        invariant
            i <= count,
            text@.len() <= usize::MAX,
            count == text_word_count(text@.len()),
            commands@ == start + text_words(text@).take(i as int),
        decreases count - i,
    {
        let word: u32 = byte_at(text, 4 * i) + 0x100 * byte_at(text, 4 * i + 1) + 0x1_0000
            * byte_at(text, 4 * i + 2) + 0x100_0000 * byte_at(text, 4 * i + 3);
        proof {
            assert(word == text_words(text@)[i as int]);
            assert(start + text_words(text@).take(i + 1) =~= (start + text_words(text@).take(
                i as int,
            )).push(word));
        }
        commands.push(word);
        i = i + 1;
    }
    proof {
        assert(text_words(text@).take(i as int) =~= text_words(text@));
        assert(commands@ =~= before + shader_words(handle, stage, text@));
    }
}

/// Creating a shader is one command.
pub proof fn lemma_shader_framed(handle: u32, stage: u32, source: Seq<u8>)
    requires
        source.len() <= 0xffff,
    ensures
        framed(shader_words(handle, stage, source)),
{
    lemma_one_command(shader_words(handle, stage, source), CCMD_CREATE_OBJECT, OBJECT_SHADER);
}

} // verus!
