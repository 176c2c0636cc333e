//! What draw state stands for: the colors that fragment programs and blending
//! compute, the triangles that are kept, and the state that commands leave bound.
//!
//! Colors have four components, red, green, blue and alpha. They are whole numbers
//! here, which tell any two sums of products apart.

use crate::ir::command::CommandView;
use crate::ir::pipeline::{
    BlendComponent, BlendFactor, BlendOp, BlendState, CullMode, DrawUniforms, FragmentProgram,
    IndexFormat, RasterState, TextureSampleMode,
};
use crate::ir::render_pass::RenderPassView;
use crate::ir::resource::{AddressMode, FilterMode};
use crate::ir::table::{BufferRef, RenderPipelineRef, SamplerRef, TextureRef};
use crate::ir::types::PixelRect;
use vstd::prelude::*;

verus! {

/// What a program takes from a texture for one component: the sample, the sample made
/// opaque, or coverage for alpha alone.
pub open spec fn texture_factor(
    mode: TextureSampleMode,
    sample: Seq<int>,
    coverage: int,
    component: int,
) -> int {
    match mode {
        TextureSampleMode::Rgba => sample[component],
        TextureSampleMode::RgbIgnoreAlpha => if component == 3 {
            1
        } else {
            sample[component]
        },
        TextureSampleMode::AlphaMask => if component == 3 {
            coverage
        } else {
            1
        },
    }
}

/// The color of a fragment: the draw color, times the vertex color and times what is
/// taken from the texture where the program has them.
pub open spec fn shaded(
    program: FragmentProgram,
    vertex: Seq<int>,
    sample: Seq<int>,
    coverage: int,
    draw: Seq<int>,
) -> Seq<int> {
    Seq::new(
        4,
        |c: int|
            match program {
                FragmentProgram::Solid => draw[c],
                FragmentProgram::VertexColor => vertex[c] * draw[c],
                FragmentProgram::Texture(mode) => texture_factor(mode, sample, coverage, c)
                    * draw[c],
                FragmentProgram::TextureVertexColor(mode) => texture_factor(
                    mode,
                    sample,
                    coverage,
                    c,
                ) * vertex[c] * draw[c],
            },
    )
}

/// The number that a blend factor stands for.
pub open spec fn factor(factor: BlendFactor, source_alpha: int, destination_alpha: int) -> int {
    match factor {
        BlendFactor::Zero => 0,
        BlendFactor::One => 1,
        BlendFactor::SourceAlpha => source_alpha,
        BlendFactor::OneMinusSourceAlpha => 1 - source_alpha,
        BlendFactor::DestinationAlpha => destination_alpha,
        BlendFactor::OneMinusDestinationAlpha => 1 - destination_alpha,
    }
}

/// One component of a blended color.
pub open spec fn blended_component(
    blend: BlendComponent,
    source: int,
    destination: int,
    source_alpha: int,
    destination_alpha: int,
) -> int {
    let s = source * factor(blend.source_factor, source_alpha, destination_alpha);
    let d = destination * factor(blend.destination_factor, source_alpha, destination_alpha);
    match blend.operation {
        BlendOp::Add => s + d,
        BlendOp::Subtract => s - d,
        BlendOp::ReverseSubtract => d - s,
    }
}

/// The color that blending leaves.
pub open spec fn blended(blend: BlendState, source: Seq<int>, destination: Seq<int>) -> Seq<int> {
    Seq::new(
        4,
        |c: int|
            blended_component(
                if c == 3 {
                    blend.alpha
                } else {
                    blend.color
                },
                source[c],
                destination[c],
                source[3],
                destination[3],
            ),
    )
}

/// The presets of blending: one leaves the source, one puts it over the destination by
/// its alpha, and one keeps the destination by the alpha of the source.
pub proof fn law_blend_presets(source: Seq<int>, destination: Seq<int>)
    requires
        source.len() == 4,
        destination.len() == 4,
    ensures
        blended(BlendState::replace(), source, destination) == source,
        blended(BlendState::source_over_straight_alpha(), source, destination) == Seq::new(
            4,
            |c: int|
                if c == 3 {
                    source[3] + destination[3] * (1 - source[3])
                } else {
                    source[c] * source[3] + destination[c] * (1 - source[3])
                },
        ),
        blended(BlendState::destination_in(), source, destination) == Seq::new(
            4,
            |c: int| destination[c] * source[3],
        ),
{
    assert(blended(BlendState::replace(), source, destination) =~= source);
    assert(blended(BlendState::source_over_straight_alpha(), source, destination) =~= Seq::new(
        4,
        |c: int|
            if c == 3 {
                source[3] + destination[3] * (1 - source[3])
            } else {
                source[c] * source[3] + destination[c] * (1 - source[3])
            },
    ));
    assert(blended(BlendState::destination_in(), source, destination) =~= Seq::new(
        4,
        |c: int| destination[c] * source[3],
    ));
}

/// Whether a triangle whose vertices run clockwise, or counter-clockwise, is drawn.
pub open spec fn keeps(raster: RasterState, clockwise: bool) -> bool {
    let front = clockwise == (raster.front_face is Clockwise);
    match raster.cull_mode {
        CullMode::Disabled => true,
        CullMode::Front => !front,
        CullMode::Back => front,
    }
}

/// The texel that a whole coordinate leads to along an axis of some length.
pub open spec fn addressed(mode: AddressMode, coordinate: int, length: int) -> int {
    match mode {
        AddressMode::ClampToEdge => if coordinate < 0 {
            0
        } else if coordinate >= length {
            length - 1
        } else {
            coordinate
        },
        AddressMode::Repeat => coordinate % length,
        AddressMode::MirrorRepeat => if coordinate % (2 * length) < length {
            coordinate % (2 * length)
        } else {
            2 * length - 1 - coordinate % (2 * length)
        },
    }
}

/// Whether a filter mixes neighboring texels.
pub open spec fn interpolates(filter: FilterMode) -> bool {
    filter is Linear
}

/// The pass that commands leave open.
pub open spec fn open_pass(commands: Seq<CommandView>) -> Option<RenderPassView>
    decreases commands.len(),
{
    if commands.len() == 0 {
        None
    } else {
        match commands.last() {
            CommandView::BeginRenderPass(desc) => Some(desc),
            CommandView::EndRenderPass => None,
            _ => open_pass(commands.drop_last()),
        }
    }
}

/// The pipeline that commands leave bound in the latest pass.
pub open spec fn bound_pipeline(commands: Seq<CommandView>) -> Option<RenderPipelineRef>
    decreases commands.len(),
{
    if commands.len() == 0 {
        None
    } else {
        match commands.last() {
            CommandView::SetPipeline(reference) => Some(reference),
            CommandView::BeginRenderPass(_) => None,
            _ => bound_pipeline(commands.drop_last()),
        }
    }
}

/// The vertex buffer that commands leave bound in the latest pass, and its first byte.
pub open spec fn bound_vertex_buffer(commands: Seq<CommandView>) -> Option<(BufferRef, u64)>
    decreases commands.len(),
{
    if commands.len() == 0 {
        None
    } else {
        match commands.last() {
            CommandView::SetVertexBuffer { buffer, offset } => Some((buffer, offset)),
            CommandView::BeginRenderPass(_) => None,
            _ => bound_vertex_buffer(commands.drop_last()),
        }
    }
}

/// The index buffer that commands leave bound in the latest pass, its first byte and its
/// encoding.
pub open spec fn bound_index_buffer(commands: Seq<CommandView>) -> Option<
    (BufferRef, u64, IndexFormat),
>
    decreases commands.len(),
{
    if commands.len() == 0 {
        None
    } else {
        match commands.last() {
            CommandView::SetIndexBuffer { buffer, offset, format } => Some(
                (buffer, offset, format),
            ),
            CommandView::BeginRenderPass(_) => None,
            _ => bound_index_buffer(commands.drop_last()),
        }
    }
}

/// The texture that commands leave bound in the latest pass.
pub open spec fn bound_texture(commands: Seq<CommandView>) -> Option<TextureRef>
    decreases commands.len(),
{
    if commands.len() == 0 {
        None
    } else {
        match commands.last() {
            CommandView::SetTexture(reference) => Some(reference),
            CommandView::BeginRenderPass(_) => None,
            _ => bound_texture(commands.drop_last()),
        }
    }
}

/// The sampler that commands leave bound in the latest pass.
pub open spec fn bound_sampler(commands: Seq<CommandView>) -> Option<SamplerRef>
    decreases commands.len(),
{
    if commands.len() == 0 {
        None
    } else {
        match commands.last() {
            CommandView::SetSampler(reference) => Some(reference),
            CommandView::BeginRenderPass(_) => None,
            _ => bound_sampler(commands.drop_last()),
        }
    }
}

/// The uniforms that commands leave bound in the latest pass.
pub open spec fn bound_uniforms(commands: Seq<CommandView>) -> Option<DrawUniforms>
    decreases commands.len(),
{
    if commands.len() == 0 {
        None
    } else {
        match commands.last() {
            CommandView::SetUniforms(uniforms) => Some(uniforms),
            CommandView::BeginRenderPass(_) => None,
            _ => bound_uniforms(commands.drop_last()),
        }
    }
}

/// The scissor that commands leave set in the latest pass.
pub open spec fn set_scissor(commands: Seq<CommandView>) -> Option<PixelRect>
    decreases commands.len(),
{
    if commands.len() == 0 {
        None
    } else {
        match commands.last() {
            CommandView::SetScissor(scissor) => scissor,
            CommandView::BeginRenderPass(_) => None,
            _ => set_scissor(commands.drop_last()),
        }
    }
}

} // verus!
