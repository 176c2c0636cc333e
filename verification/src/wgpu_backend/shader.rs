//! Shader sources generated for fixed pipelines.

use crate::ir::pipeline::{
    find_attribute, FragmentProgram, RenderPipelineDesc, RenderPipelineView, TextureSampleMode,
    VertexAttribute, VertexFormat,
};
use crate::ir::resource::TextureFormat;
use crate::wgpu_backend::{Error, UnsupportedFeature};
use vstd::prelude::*;
use vstd::string::StringExecFns;

verus! {

/// The shader that clears part of an attachment.
pub const PARTIAL_CLEAR_SHADER: &'static str = "
struct ClearUniforms {
    color: vec4<f32>,
};

@group(0) @binding(0) var<uniform> clear_uniforms: ClearUniforms;

@vertex
fn vs_main(@builtin(vertex_index) vertex_index: u32) -> @builtin(position) vec4<f32> {
    var positions = array<vec2<f32>, 3>(
        vec2<f32>(-1.0, -1.0),
        vec2<f32>( 3.0, -1.0),
        vec2<f32>(-1.0,  3.0),
    );
    return vec4<f32>(positions[vertex_index], 0.0, 1.0);
}

@fragment
fn fs_main() -> @location(0) vec4<f32> {
    return clear_uniforms.color;
}
";

/// Declaration of the draw uniforms.
pub const UNIFORMS: &'static str = "struct Uniforms { transform: mat4x4<f32>, color: vec4<f32>, };\n\
         @group(0) @binding(0) var<uniform> uniforms: Uniforms;\n";

/// Declaration of the sampled texture and its sampler.
pub const TEXTURE_BINDINGS: &'static str =
    "@group(0) @binding(1) var sampled_texture: texture_2d<f32>;\n\
             @group(0) @binding(2) var texture_sampler: sampler;\n";

/// End of the vertex inputs and declaration of the vertex outputs.
pub const VERTEX_OUTPUT: &'static str = "};\nstruct VertexOutput {\n  @builtin(position) position: vec4<f32>,\n  @location(0) color: vec4<f32>,\n  @location(1) uv: vec2<f32>,\n};\n";

/// Start of the vertex stage.
pub const VERTEX_MAIN: &'static str =
    "@vertex fn vs_main(input: VertexInput) -> VertexOutput {\n  var output: VertexOutput;\n";

/// Start of the fragment stage.
pub const FRAGMENT_MAIN: &'static str =
    "@fragment fn fs_main(input: VertexOutput) -> @location(0) vec4<f32> {\n";

/// Sampling of the bound texture.
pub const SAMPLE: &'static str =
    "  let sampled = textureSample(sampled_texture, texture_sampler, input.uv);\n";

/// A decimal digit.
pub open spec fn digit(value: nat) -> Seq<char> {
    if value == 0 {
        "0"@
    } else if value == 1 {
        "1"@
    } else if value == 2 {
        "2"@
    } else if value == 3 {
        "3"@
    } else if value == 4 {
        "4"@
    } else if value == 5 {
        "5"@
    } else if value == 6 {
        "6"@
    } else if value == 7 {
        "7"@
    } else if value == 8 {
        "8"@
    } else {
        "9"@
    }
}

/// A number in decimal.
pub open spec fn decimal(value: nat) -> Seq<char>
    decreases value,
{
    if value < 10 {
        digit(value)
    } else {
        decimal(value / 10) + digit(value % 10)
    }
}

fn push_digit(text: &mut String, value: u32)
    requires
        value < 10,
    ensures
        final(text)@ == old(text)@ + digit(value as nat),
{
    if value == 0 {
        text.append("0");
    } else if value == 1 {
        text.append("1");
    } else if value == 2 {
        text.append("2");
    } else if value == 3 {
        text.append("3");
    } else if value == 4 {
        text.append("4");
    } else if value == 5 {
        text.append("5");
    } else if value == 6 {
        text.append("6");
    } else if value == 7 {
        text.append("7");
    } else if value == 8 {
        text.append("8");
    } else {
        text.append("9");
    }
}

fn push_decimal(text: &mut String, value: u32)
    ensures
        final(text)@ == old(text)@ + decimal(value as nat),
    decreases value,
{
    let ghost before = text@;
    if value < 10 {
        push_digit(text, value);
    } else {
        push_decimal(text, value / 10);
        push_digit(text, value % 10);
        assert(text@ =~= before + decimal(value as nat));
    }
}

/// The shader type of an attribute encoding. Shaders take floating-point inputs.
pub open spec fn spec_wgsl_vertex_type(format: VertexFormat) -> Option<Seq<char>> {
    match format {
        VertexFormat::Float32x2 => Some("vec2<f32>"@),
        VertexFormat::Float32x3 => Some("vec3<f32>"@),
        VertexFormat::Float32x4 | VertexFormat::Unorm8x4 => Some("vec4<f32>"@),
        VertexFormat::Sint32 => None,
    }
}

fn wgsl_vertex_type(format: VertexFormat) -> (r: Option<&'static str>)
    ensures
        match r {
            Some(name) => spec_wgsl_vertex_type(format) == Some(name@),
            None => spec_wgsl_vertex_type(format) is None,
        },
{
    match format {
        VertexFormat::Float32x2 => Some("vec2<f32>"),
        VertexFormat::Float32x3 => Some("vec3<f32>"),
        VertexFormat::Float32x4 | VertexFormat::Unorm8x4 => Some("vec4<f32>"),
        VertexFormat::Sint32 => None,
    }
}

/// The declaration of one vertex input.
pub open spec fn input_text(attribute: VertexAttribute) -> Seq<char> {
    "  @location("@ + decimal(attribute.location as nat) + ") attr"@ + decimal(
        attribute.location as nat,
    ) + ": "@ + spec_wgsl_vertex_type(attribute.format)->0 + ",\n"@
}

/// The declarations of the first vertex inputs.
pub open spec fn inputs_text(attributes: Seq<VertexAttribute>) -> Seq<char>
    decreases attributes.len(),
{
    if attributes.len() == 0 {
        Seq::empty()
    } else {
        inputs_text(attributes.drop_last()) + input_text(attributes.last())
    }
}

/// An attribute as a vector of four, completed by zeros and a final one.
pub open spec fn vector_expression(attribute: VertexAttribute) -> Seq<char> {
    match attribute.format {
        VertexFormat::Float32x2 => "vec4<f32>(input.attr"@ + decimal(attribute.location as nat)
            + ", 0.0, 1.0)"@,
        VertexFormat::Float32x3 => "vec4<f32>(input.attr"@ + decimal(attribute.location as nat)
            + ", 1.0)"@,
        _ => "input.attr"@ + decimal(attribute.location as nat),
    }
}

fn push_vector_expression(text: &mut String, attribute: VertexAttribute)
    ensures
        final(text)@ == old(text)@ + vector_expression(attribute),
{
    let ghost before = text@;
    match attribute.format() {
        VertexFormat::Float32x2 => {
            text.append("vec4<f32>(input.attr");
            push_decimal(text, attribute.location());
            text.append(", 0.0, 1.0)");
        },
        VertexFormat::Float32x3 => {
            text.append("vec4<f32>(input.attr");
            push_decimal(text, attribute.location());
            text.append(", 1.0)");
        },
        _ => {
            text.append("input.attr");
            push_decimal(text, attribute.location());
        },
    }
    assert(text@ =~= before + vector_expression(attribute));
}

/// The channel of a sample that holds its alpha. Single-channel textures hold it
/// in red.
pub open spec fn sampled_alpha(sample_format: Option<TextureFormat>) -> Seq<char> {
    if sample_format == Some(TextureFormat::R8Unorm) {
        "sampled.r"@
    } else {
        "sampled.a"@
    }
}

fn sampled_alpha_text(sample_format: Option<TextureFormat>) -> (r: &'static str)
    ensures
        r@ == sampled_alpha(sample_format),
{
    match sample_format {
        Some(TextureFormat::R8Unorm) => "sampled.r",
        _ => "sampled.a",
    }
}

/// A sample combined with the draw color.
pub open spec fn texture_expression(
    mode: TextureSampleMode,
    sample_format: Option<TextureFormat>,
) -> Seq<char> {
    match mode {
        TextureSampleMode::Rgba => "sampled * uniforms.color"@,
        TextureSampleMode::RgbIgnoreAlpha => "vec4<f32>(sampled.rgb, 1.0) * uniforms.color"@,
        TextureSampleMode::AlphaMask => "vec4<f32>(uniforms.color.rgb, "@ + sampled_alpha(
            sample_format,
        ) + " * uniforms.color.a)"@,
    }
}

/// A sample combined with the vertex color and the draw color.
pub open spec fn texture_vertex_color_expression(
    mode: TextureSampleMode,
    sample_format: Option<TextureFormat>,
) -> Seq<char> {
    match mode {
        TextureSampleMode::Rgba => "sampled * input.color * uniforms.color"@,
        TextureSampleMode::RgbIgnoreAlpha =>
            "vec4<f32>(sampled.rgb, 1.0) * input.color * uniforms.color"@,
        TextureSampleMode::AlphaMask => "vec4<f32>(uniforms.color.rgb * input.color.rgb, "@
            + sampled_alpha(sample_format) + " * input.color.a * uniforms.color.a)"@,
    }
}

fn push_texture_expression(
    text: &mut String,
    mode: TextureSampleMode,
    sample_format: Option<TextureFormat>,
)
    ensures
        final(text)@ == old(text)@ + texture_expression(mode, sample_format),
{
    let ghost before = text@;
    match mode {
        TextureSampleMode::Rgba => {
            text.append("sampled * uniforms.color");
        },
        TextureSampleMode::RgbIgnoreAlpha => {
            text.append("vec4<f32>(sampled.rgb, 1.0) * uniforms.color");
        },
        TextureSampleMode::AlphaMask => {
            text.append("vec4<f32>(uniforms.color.rgb, ");
            text.append(sampled_alpha_text(sample_format));
            text.append(" * uniforms.color.a)");
        },
    }
    assert(text@ =~= before + texture_expression(mode, sample_format));
}

fn push_texture_vertex_color_expression(
    text: &mut String,
    mode: TextureSampleMode,
    sample_format: Option<TextureFormat>,
)
    ensures
        final(text)@ == old(text)@ + texture_vertex_color_expression(mode, sample_format),
{
    let ghost before = text@;
    match mode {
        TextureSampleMode::Rgba => {
            text.append("sampled * input.color * uniforms.color");
        },
        TextureSampleMode::RgbIgnoreAlpha => {
            text.append("vec4<f32>(sampled.rgb, 1.0) * input.color * uniforms.color");
        },
        TextureSampleMode::AlphaMask => {
            text.append("vec4<f32>(uniforms.color.rgb * input.color.rgb, ");
            text.append(sampled_alpha_text(sample_format));
            text.append(" * input.color.a * uniforms.color.a)");
        },
    }
    assert(text@ =~= before + texture_vertex_color_expression(mode, sample_format));
}

/// Whether a fragment program reads the vertex color.
pub open spec fn reads_color(fragment: FragmentProgram) -> bool {
    fragment is VertexColor || fragment is TextureVertexColor
}

/// The location of texture coordinates: behind the color where both are read.
pub open spec fn coordinate_location(fragment: FragmentProgram) -> u32 {
    if fragment is TextureVertexColor {
        2
    } else {
        1
    }
}

/// The attribute of the vertex color, where it is read.
pub open spec fn color_attribute(pipeline: RenderPipelineView) -> Option<VertexAttribute> {
    if reads_color(pipeline.fragment) {
        crate::ir::pipeline::spec_find_attribute(pipeline.vertex_buffer.attributes, 1)
    } else {
        None
    }
}

/// The attribute of the texture coordinates, where they are read.
pub open spec fn coordinate_attribute(pipeline: RenderPipelineView) -> Option<VertexAttribute> {
    if pipeline.fragment.is_textured() {
        crate::ir::pipeline::spec_find_attribute(
            pipeline.vertex_buffer.attributes,
            coordinate_location(pipeline.fragment),
        )
    } else {
        None
    }
}

/// Whether a shader can be generated: a position, the inputs of the fragment
/// program, and floating-point inputs only.
pub open spec fn generates(pipeline: RenderPipelineView) -> bool {
    &&& crate::ir::pipeline::spec_find_attribute(pipeline.vertex_buffer.attributes, 0) is Some
    &&& reads_color(pipeline.fragment) ==> color_attribute(pipeline) is Some
    &&& pipeline.fragment.is_textured() ==> coordinate_attribute(pipeline) is Some
    &&& forall|i: int|
        0 <= i < pipeline.vertex_buffer.attributes.len() ==> spec_wgsl_vertex_type(
            (#[trigger] pipeline.vertex_buffer.attributes[i]).format,
        ) is Some
}

/// The body of the fragment stage.
pub open spec fn fragment_text(
    fragment: FragmentProgram,
    sample_format: Option<TextureFormat>,
) -> Seq<char> {
    match fragment {
        FragmentProgram::Solid => "  return uniforms.color;\n"@,
        FragmentProgram::VertexColor => "  return input.color * uniforms.color;\n"@,
        FragmentProgram::Texture(mode) => SAMPLE@ + "  return "@ + texture_expression(
            mode,
            sample_format,
        ) + ";\n"@,
        FragmentProgram::TextureVertexColor(mode) => SAMPLE@ + "  return "@
            + texture_vertex_color_expression(mode, sample_format) + ";\n"@,
    }
}

/// The generated shader of a pipeline that samples textures of a format.
pub open spec fn shader_text(
    pipeline: RenderPipelineView,
    sample_format: Option<TextureFormat>,
) -> Seq<char> {
    let attributes = pipeline.vertex_buffer.attributes;
    let position = crate::ir::pipeline::spec_find_attribute(attributes, 0)->0;
    let color = color_attribute(pipeline);
    let uv = coordinate_attribute(pipeline);
    UNIFORMS@ + (if pipeline.fragment.is_textured() {
        TEXTURE_BINDINGS@
    } else {
        Seq::empty()
    }) + "struct VertexInput {\n"@ + inputs_text(attributes) + VERTEX_OUTPUT@ + VERTEX_MAIN@
        + "  output.position = uniforms.transform * "@ + vector_expression(position) + ";\n"@
        + "  output.color = "@ + (match color {
        Some(attribute) => vector_expression(attribute),
        None => "vec4<f32>(1.0)"@,
    }) + ";\n"@ + "  output.uv = "@ + (match uv {
        Some(attribute) => "input.attr"@ + decimal(attribute.location as nat),
        None => "vec2<f32>(0.0)"@,
    }) + ";\n  return output;\n}\n"@ + FRAGMENT_MAIN@ + fragment_text(
        pipeline.fragment,
        sample_format,
    ) + "}\n"@
}

/// What a result of a text holds.
pub open spec fn text_outcome(result: Result<String, Error>) -> Result<Seq<char>, Error> {
    match result {
        Ok(text) => Ok(text@),
        Err(error) => Err(error),
    }
}

/// Append the declarations of vertex inputs, if all of them are floating-point.
fn push_inputs(text: &mut String, attributes: &[VertexAttribute]) -> (r: bool)
    ensures
        r == forall|i: int|
            0 <= i < attributes@.len() ==> spec_wgsl_vertex_type(
                (#[trigger] attributes@[i]).format,
            ) is Some,
        r ==> final(text)@ == old(text)@ + inputs_text(attributes@),
{
    let ghost before = text@;
    let mut i: usize = 0;
    assert(before + inputs_text(attributes@.take(0)) =~= before);
    while i < attributes.len()
        invariant
            i <= attributes@.len(),
            text@ == before + inputs_text(attributes@.take(i as int)),
            forall|j: int|
                0 <= j < i ==> spec_wgsl_vertex_type((#[trigger] attributes@[j]).format) is Some,
        decreases attributes.len() - i,
    {
        let attribute: VertexAttribute = attributes[i];
        let name: &'static str = match wgsl_vertex_type(attribute.format()) {
            Some(name) => name,
            None => {
                assert(spec_wgsl_vertex_type(attributes@[i as int].format) is None);
                return false;
            },
        };
        text.append("  @location(");
        push_decimal(text, attribute.location());
        text.append(") attr");
        push_decimal(text, attribute.location());
        text.append(": ");
        text.append(name);
        text.append(",\n");
        proof {
            assert(attributes@.take(i + 1).drop_last() =~= attributes@.take(i as int));
            assert(attributes@.take(i + 1).last() == attribute);
            assert(text@ =~= before + inputs_text(attributes@.take(i + 1)));
        }
        i = i + 1;
    }
    assert(attributes@.take(i as int) =~= attributes@);
    true
}

/// Generate the shader of a pipeline that samples textures of a format.
///
/// Fails with `UnsupportedFeature::Pipeline` when the vertex layout lacks the
/// position or an input of the fragment program, or has an integer input.
pub fn shader_source(descriptor: &RenderPipelineDesc, sample_format: Option<TextureFormat>) -> (r:
    Result<String, Error>)
    ensures
        text_outcome(r) == (if generates(descriptor@) {
            Ok(shader_text(descriptor@, sample_format))
        } else {
            Err(Error::Unsupported(UnsupportedFeature::Pipeline))
        }),
{
    let fragment: FragmentProgram = descriptor.fragment();
    let attributes: &[VertexAttribute] = descriptor.vertex_buffer().attributes();
    let position: VertexAttribute = match find_attribute(attributes, 0) {
        Some(position) => position,
        None => {
            return Err(Error::Unsupported(UnsupportedFeature::Pipeline));
        },
    };
    let needs_color: bool = match fragment {
        FragmentProgram::VertexColor | FragmentProgram::TextureVertexColor(_) => true,
        _ => false,
    };
    let needs_texture: bool = fragment.is_textured();
    let color: Option<VertexAttribute> = if needs_color {
        find_attribute(attributes, 1)
    } else {
        None
    };
    let uv_location: u32 = match fragment {
        FragmentProgram::TextureVertexColor(_) => 2,
        _ => 1,
    };
    let uv: Option<VertexAttribute> = if needs_texture {
        find_attribute(attributes, uv_location)
    } else {
        None
    };
    if (needs_color && color.is_none()) || (needs_texture && uv.is_none()) {
        return Err(Error::Unsupported(UnsupportedFeature::Pipeline));
    }
    let mut source: String = String::new();
    source.append(UNIFORMS);
    if needs_texture {
        source.append(TEXTURE_BINDINGS);
    }
    source.append("struct VertexInput {\n");
    if !push_inputs(&mut source, attributes) {
        return Err(Error::Unsupported(UnsupportedFeature::Pipeline));
    }
    source.append(VERTEX_OUTPUT);
    source.append(VERTEX_MAIN);
    source.append("  output.position = uniforms.transform * ");
    push_vector_expression(&mut source, position);
    source.append(";\n");
    source.append("  output.color = ");
    match color {
        Some(attribute) => {
            push_vector_expression(&mut source, attribute);
        },
        None => {
            source.append("vec4<f32>(1.0)");
        },
    }
    source.append(";\n");
    source.append("  output.uv = ");
    match uv {
        Some(attribute) => {
            source.append("input.attr");
            push_decimal(&mut source, attribute.location());
        },
        None => {
            source.append("vec2<f32>(0.0)");
        },
    }
    source.append(";\n  return output;\n}\n");
    source.append(FRAGMENT_MAIN);
    match fragment {
        FragmentProgram::Solid => {
            source.append("  return uniforms.color;\n");
        },
        FragmentProgram::VertexColor => {
            source.append("  return input.color * uniforms.color;\n");
        },
        FragmentProgram::Texture(mode) => {
            source.append(SAMPLE);
            source.append("  return ");
            push_texture_expression(&mut source, mode, sample_format);
            source.append(";\n");
        },
        FragmentProgram::TextureVertexColor(mode) => {
            source.append(SAMPLE);
            source.append("  return ");
            push_texture_vertex_color_expression(&mut source, mode, sample_format);
            source.append(";\n");
        },
    }
    source.append("}\n");
    assert(source@ =~= shader_text(descriptor@, sample_format));
    Ok(source)
}

} // verus!
