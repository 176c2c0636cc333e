//! What generated shaders declare.

use crate::ir::pipeline::{RenderPipelineView, VertexAttribute};
use crate::ir::resource::TextureFormat;
use vstd::prelude::*;

verus! {

/// Whether a text starts with another.
pub open spec fn starts_with(text: Seq<char>, start: Seq<char>) -> bool {
    start.len() <= text.len() && text.take(start.len() as int) == start
}

/// The declaration of a vertex input: its location, its name, and a vector of as many
/// numbers as it has components.
pub open spec fn input_line(attribute: VertexAttribute) -> Seq<char> {
    let location = crate::wgpu_backend::shader::decimal(attribute.location as nat);
    let components = crate::ir_execute::vertices::component_count(attribute.format) as nat;
    "  @location("@ + location + ") attr"@ + location + ": "@ + ("vec"@
        + crate::wgpu_backend::shader::digit(components) + "<f32>"@) + ",\n"@
}

/// The declarations of vertex inputs, in order.
pub open spec fn input_lines(attributes: Seq<VertexAttribute>) -> Seq<char>
    decreases attributes.len(),
{
    if attributes.len() == 0 {
        Seq::empty()
    } else {
        input_lines(attributes.drop_last()) + input_line(attributes.last())
    }
}

/// Everything in front of the vertex stage: the uniforms with the transform first and the
/// color after it, the texture and the sampler where the program samples, the vertex
/// inputs, and what is handed to the fragment stage.
pub open spec fn declarations(pipeline: RenderPipelineView) -> Seq<char> {
    "struct Uniforms { transform: mat4x4<f32>, color: vec4<f32>, };\n@group(0) @binding(0) var<uniform> uniforms: Uniforms;\n"@
        + (if pipeline.fragment is Texture || pipeline.fragment is TextureVertexColor {
        "@group(0) @binding(1) var sampled_texture: texture_2d<f32>;\n@group(0) @binding(2) var texture_sampler: sampler;\n"@
    } else {
        Seq::empty()
    }) + "struct VertexInput {\n"@ + input_lines(pipeline.vertex_buffer.attributes)
        + "};\nstruct VertexOutput {\n  @builtin(position) position: vec4<f32>,\n  @location(0) color: vec4<f32>,\n  @location(1) uv: vec2<f32>,\n};\n"@
        + "@vertex fn vs_main(input: VertexInput) -> VertexOutput {\n  var output: VertexOutput;\n"@
}

proof fn lemma_inputs(attributes: Seq<VertexAttribute>)
    requires
        forall|i: int|
            0 <= i < attributes.len() ==> crate::wgpu_backend::shader::spec_wgsl_vertex_type(
                (#[trigger] attributes[i]).format,
            ) is Some,
    ensures
        crate::wgpu_backend::shader::inputs_text(attributes) == input_lines(attributes),
    decreases attributes.len(),
{
    if attributes.len() > 0 {
        lemma_inputs(attributes.drop_last());
        crate::wgpu_backend::shading::law_inputs_are_vectors(attributes.last().format);
    }
}

/// A text that is extended still starts as it did.
proof fn lemma_starts(text: Seq<char>, start: Seq<char>, more: Seq<char>)
    requires
        starts_with(text, start),
    ensures
        starts_with(text + more, start),
{
    assert((text + more).take(start.len() as int) =~= text.take(start.len() as int));
}

/// A generated shader starts with the declarations of its uniforms, of the texture and the
/// sampler that it samples, of its vertex inputs and of what its stages hand over.
pub proof fn law_shaders_declare_what_they_use(
    pipeline: RenderPipelineView,
    sample_format: Option<TextureFormat>,
)
    requires
        crate::wgpu_backend::shader::generates(pipeline),
    ensures
        starts_with(
            crate::wgpu_backend::shader::shader_text(pipeline, sample_format),
            declarations(pipeline),
        ),
{
    let attributes = pipeline.vertex_buffer.attributes;
    lemma_inputs(attributes);
    let start = declarations(pipeline);
    assert(start.take(start.len() as int) =~= start);
    let position = crate::ir::pipeline::spec_find_attribute(attributes, 0)->0;
    let color = match crate::wgpu_backend::shader::color_attribute(pipeline) {
        Some(attribute) => crate::wgpu_backend::shader::vector_expression(attribute),
        None => "vec4<f32>(1.0)"@,
    };
    let coordinates = match crate::wgpu_backend::shader::coordinate_attribute(pipeline) {
        Some(attribute) => "input.attr"@ + crate::wgpu_backend::shader::decimal(
            attribute.location as nat,
        ),
        None => "vec2<f32>(0.0)"@,
    };
    let text0 = start;
    let text1 = text0 + "  output.position = uniforms.transform * "@;
    lemma_starts(text0, start, "  output.position = uniforms.transform * "@);
    let text2 = text1 + crate::wgpu_backend::shader::vector_expression(position);
    lemma_starts(text1, start, crate::wgpu_backend::shader::vector_expression(position));
    let text3 = text2 + ";\n"@;
    lemma_starts(text2, start, ";\n"@);
    let text4 = text3 + "  output.color = "@;
    lemma_starts(text3, start, "  output.color = "@);
    let text5 = text4 + color;
    lemma_starts(text4, start, color);
    let text6 = text5 + ";\n"@;
    lemma_starts(text5, start, ";\n"@);
    let text7 = text6 + "  output.uv = "@;
    lemma_starts(text6, start, "  output.uv = "@);
    let text8 = text7 + coordinates;
    lemma_starts(text7, start, coordinates);
    let text9 = text8 + ";\n  return output;\n}\n"@;
    lemma_starts(text8, start, ";\n  return output;\n}\n"@);
    let text10 = text9 + crate::wgpu_backend::shader::FRAGMENT_MAIN@;
    lemma_starts(text9, start, crate::wgpu_backend::shader::FRAGMENT_MAIN@);
    let text11 = text10 + crate::wgpu_backend::shader::fragment_text(
        pipeline.fragment,
        sample_format,
    );
    lemma_starts(
        text10,
        start,
        crate::wgpu_backend::shader::fragment_text(pipeline.fragment, sample_format),
    );
    let text12 = text11 + "}\n"@;
    lemma_starts(text11, start, "}\n"@);
    assert(crate::wgpu_backend::shader::shader_text(pipeline, sample_format) == text12);
}

} // verus!
