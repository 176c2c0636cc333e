//! What generated shaders compute.
//!
//! The color of a fragment is an expression of the shading language over three colors:
//! the interpolated vertex color, the texture sample and the draw color.

use crate::ir::pipeline::{
    FragmentProgram, RenderPipelineView, TextureSampleMode, VertexAttribute, VertexFormat,
};
use crate::ir::resource::TextureFormat;
use vstd::prelude::*;

verus! {

/// A color that a fragment stage reads.
pub enum Variable {
    /// The interpolated vertex color.
    Vertex,
    /// The texture sample.
    Sample,
    /// The draw color.
    Draw,
}

/// One channel of a color.
pub enum Channel {
    /// Red.
    Red,
    /// Alpha.
    Alpha,
}

/// An expression that has a color.
pub enum Expression {
    /// A color.
    Color(Variable),
    /// A color with full alpha.
    Opaque(Variable),
    /// Two colors multiplied component by component.
    Product(Box<Expression>, Box<Expression>),
    /// The color channels of some colors multiplied, and channels of some multiplied for
    /// alpha.
    Covered(Seq<Variable>, Seq<(Variable, Channel)>),
}

/// The name of a color.
pub open spec fn variable_text(variable: Variable) -> Seq<char> {
    match variable {
        Variable::Vertex => "input.color"@,
        Variable::Sample => "sampled"@,
        Variable::Draw => "uniforms.color"@,
    }
}

/// The names of color channels with products between them.
pub open spec fn colors_text(colors: Seq<Variable>) -> Seq<char>
    decreases colors.len(),
{
    if colors.len() == 0 {
        Seq::empty()
    } else if colors.len() == 1 {
        variable_text(colors[0]) + ".rgb"@
    } else {
        colors_text(colors.drop_last()) + " * "@ + variable_text(colors.last()) + ".rgb"@
    }
}

/// The name of one channel.
pub open spec fn channel_text(channel: (Variable, Channel)) -> Seq<char> {
    variable_text(channel.0) + (match channel.1 {
        Channel::Red => ".r"@,
        Channel::Alpha => ".a"@,
    })
}

/// The names of channels with products between them.
pub open spec fn channels_text(channels: Seq<(Variable, Channel)>) -> Seq<char>
    decreases channels.len(),
{
    if channels.len() == 0 {
        Seq::empty()
    } else if channels.len() == 1 {
        channel_text(channels[0])
    } else {
        channels_text(channels.drop_last()) + " * "@ + channel_text(channels.last())
    }
}

/// The text of an expression.
pub open spec fn expression_text(expression: Expression) -> Seq<char>
    decreases expression,
{
    match expression {
        Expression::Color(variable) => variable_text(variable),
        Expression::Opaque(variable) => "vec4<f32>("@ + variable_text(variable) + ".rgb, 1.0)"@,
        Expression::Product(left, right) => expression_text(*left) + " * "@ + expression_text(
            *right,
        ),
        Expression::Covered(colors, channels) => "vec4<f32>("@ + colors_text(colors) + ", "@
            + channels_text(channels) + ")"@,
    }
}

/// The color that a fragment stage reads.
pub open spec fn variable_value(
    variable: Variable,
    vertex: Seq<int>,
    sample: Seq<int>,
    draw: Seq<int>,
) -> Seq<int> {
    match variable {
        Variable::Vertex => vertex,
        Variable::Sample => sample,
        Variable::Draw => draw,
    }
}

/// One color channel of a product of colors.
pub open spec fn colors_value(
    colors: Seq<Variable>,
    vertex: Seq<int>,
    sample: Seq<int>,
    draw: Seq<int>,
    component: int,
) -> int
    decreases colors.len(),
{
    if colors.len() == 0 {
        1
    } else {
        colors_value(colors.drop_last(), vertex, sample, draw, component) * variable_value(
            colors.last(),
            vertex,
            sample,
            draw,
        )[component]
    }
}

/// A product of channels.
pub open spec fn channels_value(
    channels: Seq<(Variable, Channel)>,
    vertex: Seq<int>,
    sample: Seq<int>,
    draw: Seq<int>,
) -> int
    decreases channels.len(),
{
    if channels.len() == 0 {
        1
    } else {
        channels_value(channels.drop_last(), vertex, sample, draw) * variable_value(
            channels.last().0,
            vertex,
            sample,
            draw,
        )[match channels.last().1 {
            Channel::Red => 0int,
            Channel::Alpha => 3int,
        }]
    }
}

/// One component of the color that an expression has.
pub open spec fn value(
    expression: Expression,
    vertex: Seq<int>,
    sample: Seq<int>,
    draw: Seq<int>,
    component: int,
) -> int
    decreases expression,
{
    match expression {
        Expression::Color(variable) => variable_value(variable, vertex, sample, draw)[component],
        Expression::Opaque(variable) => if component == 3 {
            1
        } else {
            variable_value(variable, vertex, sample, draw)[component]
        },
        Expression::Product(left, right) => value(*left, vertex, sample, draw, component) * value(
            *right,
            vertex,
            sample,
            draw,
            component,
        ),
        Expression::Covered(colors, channels) => if component == 3 {
            channels_value(channels, vertex, sample, draw)
        } else {
            colors_value(colors, vertex, sample, draw, component)
        },
    }
}

/// The coverage that a sample holds: its red channel where that is the only one, else
/// its alpha.
pub open spec fn coverage(sample: Seq<int>, sample_format: Option<TextureFormat>) -> int {
    if sample_format == Some(TextureFormat::R8Unorm) {
        sample[0]
    } else {
        sample[3]
    }
}

/// Whether a fragment stage returns the color of an expression.
pub open spec fn gives_back(text: Seq<char>, textured: bool, expression: Expression) -> bool {
    text == (if textured {
        "  let sampled = textureSample(sampled_texture, texture_sampler, input.uv);\n"@
    } else {
        Seq::empty()
    }) + "  return "@ + expression_text(expression) + ";\n"@
}

/// Whether an expression has the color of a fragment program, whatever it is applied to.
pub open spec fn computes(
    expression: Expression,
    fragment: FragmentProgram,
    sample_format: Option<TextureFormat>,
) -> bool {
    forall|vertex: Seq<int>, sample: Seq<int>, draw: Seq<int>, c: int|
        #![trigger value(expression, vertex, sample, draw, c)]
        0 <= c < 4 ==> value(expression, vertex, sample, draw, c) == crate::ir::meaning::shaded(
            fragment,
            vertex,
            sample,
            coverage(sample, sample_format),
            draw,
        )[c]
}

spec fn plain(variable: Variable) -> Box<Expression> {
    Box::new(Expression::Color(variable))
}

spec fn product(left: Box<Expression>, right: Box<Expression>) -> Expression {
    Expression::Product(left, right)
}

spec fn mask_channel(sample_format: Option<TextureFormat>) -> (Variable, Channel) {
    (
        Variable::Sample,
        if sample_format == Some(TextureFormat::R8Unorm) {
            Channel::Red
        } else {
            Channel::Alpha
        },
    )
}

/// An expression for each program.
spec fn expression_of(
    fragment: FragmentProgram,
    sample_format: Option<TextureFormat>,
) -> Expression {
    let draw = plain(Variable::Draw);
    let vertex = plain(Variable::Vertex);
    let sample = plain(Variable::Sample);
    let opaque = Box::new(Expression::Opaque(Variable::Sample));
    match fragment {
        FragmentProgram::Solid => Expression::Color(Variable::Draw),
        FragmentProgram::VertexColor => product(vertex, draw),
        FragmentProgram::Texture(TextureSampleMode::Rgba) => product(sample, draw),
        FragmentProgram::Texture(TextureSampleMode::RgbIgnoreAlpha) => product(opaque, draw),
        FragmentProgram::Texture(TextureSampleMode::AlphaMask) => Expression::Covered(
            seq![Variable::Draw],
            seq![mask_channel(sample_format), (Variable::Draw, Channel::Alpha)],
        ),
        FragmentProgram::TextureVertexColor(TextureSampleMode::Rgba) => product(
            Box::new(product(sample, vertex)),
            draw,
        ),
        FragmentProgram::TextureVertexColor(TextureSampleMode::RgbIgnoreAlpha) => product(
            Box::new(product(opaque, vertex)),
            draw,
        ),
        FragmentProgram::TextureVertexColor(TextureSampleMode::AlphaMask) => Expression::Covered(
            seq![Variable::Draw, Variable::Vertex],
            seq![
                mask_channel(sample_format),
                (Variable::Vertex, Channel::Alpha),
                (Variable::Draw, Channel::Alpha),
            ],
        ),
    }
}

proof fn lemma_computes(fragment: FragmentProgram, sample_format: Option<TextureFormat>)
    ensures
        computes(expression_of(fragment, sample_format), fragment, sample_format),
{
    let expression = expression_of(fragment, sample_format);
    assert forall|vertex: Seq<int>, sample: Seq<int>, draw: Seq<int>, c: int|
        #![trigger value(expression, vertex, sample, draw, c)]
        0 <= c < 4 implies value(expression, vertex, sample, draw, c)
        == crate::ir::meaning::shaded(
        fragment,
        vertex,
        sample,
        coverage(sample, sample_format),
        draw,
    )[c] by {
        reveal_with_fuel(value, 4);
        reveal_with_fuel(colors_value, 4);
        reveal_with_fuel(channels_value, 5);
        match fragment {
            FragmentProgram::Texture(TextureSampleMode::AlphaMask) => {
                let colors = seq![Variable::Draw];
                let channels = seq![mask_channel(sample_format), (Variable::Draw, Channel::Alpha)];
                assert(colors.drop_last() =~= Seq::<Variable>::empty());
                assert(channels.drop_last() =~= seq![mask_channel(sample_format)]);
                assert(channels.drop_last().drop_last() =~= Seq::<(Variable, Channel)>::empty());
            },
            FragmentProgram::TextureVertexColor(TextureSampleMode::AlphaMask) => {
                let colors = seq![Variable::Draw, Variable::Vertex];
                let channels = seq![
                    mask_channel(sample_format),
                    (Variable::Vertex, Channel::Alpha),
                    (Variable::Draw, Channel::Alpha),
                ];
                assert(colors.drop_last() =~= seq![Variable::Draw]);
                assert(colors.drop_last().drop_last() =~= Seq::<Variable>::empty());
                assert(channels.drop_last() =~= seq![
                    mask_channel(sample_format),
                    (Variable::Vertex, Channel::Alpha),
                ]);
                assert(channels.drop_last().drop_last() =~= seq![mask_channel(sample_format)]);
                assert(channels.drop_last().drop_last().drop_last() =~= Seq::<
                    (Variable, Channel),
                >::empty());
                assert(draw[c] * vertex[c] == vertex[c] * draw[c]) by (nonlinear_arith);
            },
            _ => {},
        }
    }
}

proof fn lemma_plain_texts()
    ensures
        crate::wgpu_backend::shader::fragment_text(FragmentProgram::Solid, None) == "  return "@
            + "uniforms.color"@ + ";\n"@,
        crate::wgpu_backend::shader::fragment_text(FragmentProgram::VertexColor, None)
            == "  return "@ + ("input.color"@ + " * "@ + "uniforms.color"@) + ";\n"@,
{
    reveal_strlit("  return uniforms.color;\n");
    reveal_strlit("  return input.color * uniforms.color;\n");
    reveal_strlit("  return ");
    reveal_strlit("uniforms.color");
    reveal_strlit("input.color");
    reveal_strlit(" * ");
    reveal_strlit(";\n");
    assert(crate::wgpu_backend::shader::fragment_text(FragmentProgram::Solid, None)
        =~= "  return "@ + "uniforms.color"@ + ";\n"@);
    assert(crate::wgpu_backend::shader::fragment_text(FragmentProgram::VertexColor, None)
        =~= "  return "@ + ("input.color"@ + " * "@ + "uniforms.color"@) + ";\n"@);
}

proof fn lemma_texture_texts(sample_format: Option<TextureFormat>)
    ensures
        ({
            let opaque = "vec4<f32>("@ + "sampled"@ + ".rgb, 1.0)"@;
            let mask = channel_text(mask_channel(sample_format));
            &&& crate::wgpu_backend::shader::texture_expression(
                TextureSampleMode::Rgba,
                sample_format,
            ) == "sampled"@ + " * "@ + "uniforms.color"@
            &&& crate::wgpu_backend::shader::texture_expression(
                TextureSampleMode::RgbIgnoreAlpha,
                sample_format,
            ) == opaque + " * "@ + "uniforms.color"@
            &&& crate::wgpu_backend::shader::texture_expression(
                TextureSampleMode::AlphaMask,
                sample_format,
            ) == "vec4<f32>("@ + ("uniforms.color"@ + ".rgb"@) + ", "@ + (mask + " * "@ + (
            "uniforms.color"@ + ".a"@)) + ")"@
        }),
{
    reveal_strlit("sampled * uniforms.color");
    reveal_strlit("vec4<f32>(sampled.rgb, 1.0) * uniforms.color");
    reveal_strlit("vec4<f32>(uniforms.color.rgb, ");
    reveal_strlit(" * uniforms.color.a)");
    reveal_strlit("sampled.r");
    reveal_strlit("sampled.a");
    reveal_strlit("vec4<f32>(");
    reveal_strlit("sampled");
    reveal_strlit(".rgb, 1.0)");
    reveal_strlit(" * ");
    reveal_strlit("uniforms.color");
    reveal_strlit(".rgb");
    reveal_strlit(", ");
    reveal_strlit(".r");
    reveal_strlit(".a");
    reveal_strlit(")");
    let opaque = "vec4<f32>("@ + "sampled"@ + ".rgb, 1.0)"@;
    let mask = channel_text(mask_channel(sample_format));
    assert(crate::wgpu_backend::shader::sampled_alpha(sample_format) =~= mask);
    assert(crate::wgpu_backend::shader::texture_expression(TextureSampleMode::Rgba, sample_format)
        =~= "sampled"@ + " * "@ + "uniforms.color"@);
    assert(crate::wgpu_backend::shader::texture_expression(
        TextureSampleMode::RgbIgnoreAlpha,
        sample_format,
    ) =~= opaque + " * "@ + "uniforms.color"@);
    assert("vec4<f32>(uniforms.color.rgb, "@ =~= "vec4<f32>("@ + ("uniforms.color"@ + ".rgb"@)
        + ", "@);
    assert(" * uniforms.color.a)"@ =~= " * "@ + ("uniforms.color"@ + ".a"@) + ")"@);
    assert(crate::wgpu_backend::shader::texture_expression(
        TextureSampleMode::AlphaMask,
        sample_format,
    ) =~= "vec4<f32>("@ + ("uniforms.color"@ + ".rgb"@) + ", "@ + (mask + " * "@ + (
    "uniforms.color"@ + ".a"@)) + ")"@);
}

proof fn lemma_texture_vertex_color_texts(sample_format: Option<TextureFormat>)
    ensures
        ({
            let opaque = "vec4<f32>("@ + "sampled"@ + ".rgb, 1.0)"@;
            let mask = channel_text(mask_channel(sample_format));
            &&& crate::wgpu_backend::shader::texture_vertex_color_expression(
                TextureSampleMode::Rgba,
                sample_format,
            ) == ("sampled"@ + " * "@ + "input.color"@) + " * "@ + "uniforms.color"@
            &&& crate::wgpu_backend::shader::texture_vertex_color_expression(
                TextureSampleMode::RgbIgnoreAlpha,
                sample_format,
            ) == (opaque + " * "@ + "input.color"@) + " * "@ + "uniforms.color"@
            &&& crate::wgpu_backend::shader::texture_vertex_color_expression(
                TextureSampleMode::AlphaMask,
                sample_format,
            ) == "vec4<f32>("@ + ("uniforms.color"@ + ".rgb"@ + " * "@ + "input.color"@ + ".rgb"@)
                + ", "@ + (mask + " * "@ + ("input.color"@ + ".a"@) + " * "@ + ("uniforms.color"@
                + ".a"@)) + ")"@
        }),
{
    reveal_strlit("sampled * input.color * uniforms.color");
    reveal_strlit("vec4<f32>(sampled.rgb, 1.0) * input.color * uniforms.color");
    reveal_strlit("vec4<f32>(uniforms.color.rgb * input.color.rgb, ");
    reveal_strlit(" * input.color.a * uniforms.color.a)");
    reveal_strlit("sampled.r");
    reveal_strlit("sampled.a");
    reveal_strlit("vec4<f32>(");
    reveal_strlit("sampled");
    reveal_strlit(".rgb, 1.0)");
    reveal_strlit(" * ");
    reveal_strlit("uniforms.color");
    reveal_strlit("input.color");
    reveal_strlit(".rgb");
    reveal_strlit(", ");
    reveal_strlit(".r");
    reveal_strlit(".a");
    reveal_strlit(")");
    let opaque = "vec4<f32>("@ + "sampled"@ + ".rgb, 1.0)"@;
    let mask = channel_text(mask_channel(sample_format));
    assert(crate::wgpu_backend::shader::sampled_alpha(sample_format) =~= mask);
    assert(crate::wgpu_backend::shader::texture_vertex_color_expression(
        TextureSampleMode::Rgba,
        sample_format,
    ) =~= ("sampled"@ + " * "@ + "input.color"@) + " * "@ + "uniforms.color"@);
    assert(crate::wgpu_backend::shader::texture_vertex_color_expression(
        TextureSampleMode::RgbIgnoreAlpha,
        sample_format,
    ) =~= (opaque + " * "@ + "input.color"@) + " * "@ + "uniforms.color"@);
    assert("vec4<f32>(uniforms.color.rgb * input.color.rgb, "@ =~= "vec4<f32>("@ + (
    "uniforms.color"@ + ".rgb"@ + " * "@ + "input.color"@ + ".rgb"@) + ", "@);
    assert(" * input.color.a * uniforms.color.a)"@ =~= " * "@ + ("input.color"@ + ".a"@) + " * "@
        + ("uniforms.color"@ + ".a"@) + ")"@);
    assert(crate::wgpu_backend::shader::texture_vertex_color_expression(
        TextureSampleMode::AlphaMask,
        sample_format,
    ) =~= "vec4<f32>("@ + ("uniforms.color"@ + ".rgb"@ + " * "@ + "input.color"@ + ".rgb"@) + ", "@
        + (mask + " * "@ + ("input.color"@ + ".a"@) + " * "@ + ("uniforms.color"@ + ".a"@)) + ")"@);
}

proof fn lemma_expression_text(fragment: FragmentProgram, sample_format: Option<TextureFormat>)
    ensures
        gives_back(
            crate::wgpu_backend::shader::fragment_text(fragment, sample_format),
            fragment.is_textured(),
            expression_of(fragment, sample_format),
        ),
{
    reveal_with_fuel(expression_text, 4);
    reveal_with_fuel(colors_text, 3);
    reveal_with_fuel(channels_text, 4);
    let text = crate::wgpu_backend::shader::fragment_text(fragment, sample_format);
    let expression = expression_of(fragment, sample_format);
    let mask = mask_channel(sample_format);
    match fragment {
        FragmentProgram::Solid => {
            lemma_plain_texts();
        },
        FragmentProgram::VertexColor => {
            lemma_plain_texts();
        },
        FragmentProgram::Texture(mode) => {
            lemma_texture_texts(sample_format);
            let channels = seq![mask, (Variable::Draw, Channel::Alpha)];
            assert(channels.drop_last() =~= seq![mask]);
            assert(expression_text(expression)
                == crate::wgpu_backend::shader::texture_expression(mode, sample_format));
        },
        FragmentProgram::TextureVertexColor(mode) => {
            lemma_texture_vertex_color_texts(sample_format);
            let colors = seq![Variable::Draw, Variable::Vertex];
            let channels = seq![
                mask,
                (Variable::Vertex, Channel::Alpha),
                (Variable::Draw, Channel::Alpha),
            ];
            assert(colors.drop_last() =~= seq![Variable::Draw]);
            assert(channels.drop_last() =~= seq![mask, (Variable::Vertex, Channel::Alpha)]);
            assert(channels.drop_last().drop_last() =~= seq![mask]);
            assert(expression_text(expression)
                == crate::wgpu_backend::shader::texture_vertex_color_expression(
                mode,
                sample_format,
            ));
        },
    }
    assert(text =~= (if fragment.is_textured() {
        "  let sampled = textureSample(sampled_texture, texture_sampler, input.uv);\n"@
    } else {
        Seq::empty()
    }) + "  return "@ + expression_text(expression) + ";\n"@);
}

/// The fragment stage of a generated shader returns the color of its fragment program:
/// it samples exactly where the program is textured, and the expression that it returns
/// is the product of the draw color with the vertex color and the sample, component by
/// component, where the program has them.
pub proof fn law_fragment_stages_compute_their_program(
    fragment: FragmentProgram,
    sample_format: Option<TextureFormat>,
)
    ensures
        exists|expression: Expression|
            #[trigger] computes(expression, fragment, sample_format) && gives_back(
                crate::wgpu_backend::shader::fragment_text(fragment, sample_format),
                fragment is Texture || fragment is TextureVertexColor,
                expression,
            ),
{
    lemma_computes(fragment, sample_format);
    lemma_expression_text(fragment, sample_format);
    assert(computes(expression_of(fragment, sample_format), fragment, sample_format));
}

/// The number that a digit stands for.
pub open spec fn digit_value(digit: char) -> int {
    digit as int - 48
}

/// The number that decimal digits stand for.
pub open spec fn decimal_value(digits: Seq<char>) -> int
    decreases digits.len(),
{
    if digits.len() == 0 {
        0
    } else {
        10 * decimal_value(digits.drop_last()) + digit_value(digits.last())
    }
}

proof fn lemma_digit(value: nat)
    requires
        value < 10,
    ensures
        crate::wgpu_backend::shader::digit(value).len() == 1,
        digit_value(crate::wgpu_backend::shader::digit(value)[0]) == value,
{
    reveal_strlit("0");
    reveal_strlit("1");
    reveal_strlit("2");
    reveal_strlit("3");
    reveal_strlit("4");
    reveal_strlit("5");
    reveal_strlit("6");
    reveal_strlit("7");
    reveal_strlit("8");
    reveal_strlit("9");
}

/// Numbers in decimal read back as themselves.
pub proof fn law_decimals_read_back(value: nat)
    ensures
        decimal_value(crate::wgpu_backend::shader::decimal(value)) == value,
        crate::wgpu_backend::shader::decimal(value).len() > 0,
    decreases value,
{
    reveal_with_fuel(decimal_value, 2);
    let text = crate::wgpu_backend::shader::decimal(value);
    if value < 10 {
        lemma_digit(value);
        assert(text.drop_last() =~= Seq::<char>::empty());
    } else {
        law_decimals_read_back(value / 10);
        lemma_digit(value % 10);
        assert(text.drop_last() =~= crate::wgpu_backend::shader::decimal(value / 10));
    }
}

/// What completes a vector of some components to four: zeros and a final one.
pub open spec fn padding(components: int) -> Seq<char>
    decreases 4 - components,
{
    if components >= 4 {
        Seq::empty()
    } else {
        ", "@ + (if components == 3 {
            "1.0"@
        } else {
            "0.0"@
        }) + padding(components + 1)
    }
}

/// An attribute as a vector of four.
pub open spec fn vector_text(attribute: VertexAttribute) -> Seq<char> {
    let components = crate::ir_execute::vertices::component_count(attribute.format);
    let name = "input.attr"@ + crate::wgpu_backend::shader::decimal(attribute.location as nat);
    if components == 4 {
        name
    } else {
        "vec4<f32>("@ + name + padding(components) + ")"@
    }
}

proof fn lemma_vector_text(attribute: VertexAttribute)
    requires
        !(attribute.format is Sint32),
    ensures
        crate::wgpu_backend::shader::vector_expression(attribute) == vector_text(attribute),
{
    reveal_with_fuel(padding, 4);
    reveal_strlit("vec4<f32>(input.attr");
    reveal_strlit(", 0.0, 1.0)");
    reveal_strlit(", 1.0)");
    reveal_strlit("vec4<f32>(");
    reveal_strlit("input.attr");
    reveal_strlit(", ");
    reveal_strlit("0.0");
    reveal_strlit("1.0");
    reveal_strlit(")");
    assert(crate::wgpu_backend::shader::vector_expression(attribute) =~= vector_text(attribute));
}

/// Vertex inputs are declared as vectors of as many numbers as their encoding has.
/// Integers cannot be declared.
pub proof fn law_inputs_are_vectors(format: VertexFormat)
    ensures
        crate::wgpu_backend::shader::spec_wgsl_vertex_type(format) is None <==> format is Sint32,
        crate::wgpu_backend::shader::spec_wgsl_vertex_type(format) matches Some(name) ==> name
            == "vec"@ + crate::wgpu_backend::shader::digit(
            crate::ir_execute::vertices::component_count(format) as nat,
        ) + "<f32>"@,
{
    reveal_strlit("vec2<f32>");
    reveal_strlit("vec3<f32>");
    reveal_strlit("vec4<f32>");
    reveal_strlit("vec");
    reveal_strlit("<f32>");
    reveal_strlit("2");
    reveal_strlit("3");
    reveal_strlit("4");
    if let Some(name) = crate::wgpu_backend::shader::spec_wgsl_vertex_type(format) {
        assert(name =~= "vec"@ + crate::wgpu_backend::shader::digit(
            crate::ir_execute::vertices::component_count(format) as nat,
        ) + "<f32>"@);
    }
}

/// What a vertex stage hands to the fragment stage: the transformed position of location
/// zero, the color of location one or white, and the texture coordinates behind both or
/// the origin. The fragment stage follows.
pub open spec fn stages_text(
    pipeline: RenderPipelineView,
    position: VertexAttribute,
    color: Option<VertexAttribute>,
    coordinates: Option<VertexAttribute>,
    sample_format: Option<TextureFormat>,
) -> Seq<char> {
    "  output.position = uniforms.transform * "@ + vector_text(position)
        + ";\n  output.color = "@ + (match color {
        Some(attribute) => vector_text(attribute),
        None => "vec4<f32>(1.0)"@,
    }) + ";\n  output.uv = "@ + (match coordinates {
        Some(attribute) => "input.attr"@ + crate::wgpu_backend::shader::decimal(
            attribute.location as nat,
        ),
        None => "vec2<f32>(0.0)"@,
    }) + ";\n  return output;\n}\n@fragment fn fs_main(input: VertexOutput) -> @location(0) vec4<f32> {\n"@
        + crate::wgpu_backend::shader::fragment_text(pipeline.fragment, sample_format) + "}\n"@
}

/// Whether a text ends with another.
pub open spec fn ends_with(text: Seq<char>, end: Seq<char>) -> bool {
    end.len() <= text.len() && text.skip(text.len() - end.len()) == end
}

/// Whether an attribute of a program is the one at a location, where it is read, and
/// absent elsewhere.
pub open spec fn reads(
    pipeline: RenderPipelineView,
    read: bool,
    location: u32,
    attribute: Option<VertexAttribute>,
) -> bool {
    match attribute {
        Some(found) => read && crate::ir_execute::bindings::located(
            pipeline.vertex_buffer.attributes,
            location,
            found,
        ),
        None => !read,
    }
}

proof fn lemma_joints()
    ensures
        ";\n"@ + "  output.color = "@ == ";\n  output.color = "@,
        ";\n"@ + "  output.uv = "@ == ";\n  output.uv = "@,
        ";\n  return output;\n}\n"@ + crate::wgpu_backend::shader::FRAGMENT_MAIN@
            == ";\n  return output;\n}\n@fragment fn fs_main(input: VertexOutput) -> @location(0) vec4<f32> {\n"@,
{
    reveal_strlit(";\n");
    reveal_strlit("  output.color = ");
    reveal_strlit("  output.uv = ");
    reveal_strlit(";\n  output.color = ");
    reveal_strlit(";\n  output.uv = ");
    reveal_strlit(";\n  return output;\n}\n");
    reveal_strlit("@fragment fn fs_main(input: VertexOutput) -> @location(0) vec4<f32> {\n");
    reveal_strlit(
        ";\n  return output;\n}\n@fragment fn fs_main(input: VertexOutput) -> @location(0) vec4<f32> {\n",
    );
    assert(";\n"@ + "  output.color = "@ =~= ";\n  output.color = "@);
    assert(";\n"@ + "  output.uv = "@ =~= ";\n  output.uv = "@);
    assert(";\n  return output;\n}\n"@ + crate::wgpu_backend::shader::FRAGMENT_MAIN@
        =~= ";\n  return output;\n}\n@fragment fn fs_main(input: VertexOutput) -> @location(0) vec4<f32> {\n"@);
}

/// Pieces that are joined in other places are the same text.
proof fn lemma_joined(
    head: Seq<char>,
    a: Seq<char>,
    b: Seq<char>,
    c: Seq<char>,
    d: Seq<char>,
    e: Seq<char>,
    f: Seq<char>,
    g: Seq<char>,
    h: Seq<char>,
    i: Seq<char>,
    j: Seq<char>,
    k: Seq<char>,
)
    ensures
        head + a + b + c + d + e + c + f + g + h + i + j + k == head + (a + b + (c + d) + e + (c
            + f) + g + (h + i) + j + k),
        (head + (a + b + (c + d) + e + (c + f) + g + (h + i) + j + k)).skip(head.len() as int)
            == a + b + (c + d) + e + (c + f) + g + (h + i) + j + k,
{
    let stages = a + b + (c + d) + e + (c + f) + g + (h + i) + j + k;
    assert(head + a + b + c + d + e + c + f + g + h + i + j + k =~= head + stages);
    assert((head + stages).skip(head.len() as int) =~= stages);
}

/// The vertex stage of a generated shader reads the position at location zero. It reads
/// a vertex color at location one exactly where the program uses vertex colors, and
/// texture coordinates at the next location exactly where the program samples.
pub proof fn law_vertex_stages_read_their_attributes(
    pipeline: RenderPipelineView,
    sample_format: Option<TextureFormat>,
)
    requires
        crate::wgpu_backend::shader::generates(pipeline),
    ensures
        ({
            let colored = pipeline.fragment is VertexColor || pipeline.fragment
                is TextureVertexColor;
            let textured = pipeline.fragment is Texture || pipeline.fragment is TextureVertexColor;
            exists|
                position: VertexAttribute,
                color: Option<VertexAttribute>,
                coordinates: Option<VertexAttribute>,
            |
                reads(pipeline, true, 0, Some(position)) && reads(pipeline, colored, 1, color)
                    && reads(
                    pipeline,
                    textured,
                    if colored {
                        2
                    } else {
                        1
                    },
                    coordinates,
                ) && ends_with(
                    crate::wgpu_backend::shader::shader_text(pipeline, sample_format),
                    #[trigger] stages_text(pipeline, position, color, coordinates, sample_format),
                )
        }),
{
    let attributes = pipeline.vertex_buffer.attributes;
    crate::ir_execute::bindings::lemma_found_attribute(attributes, 0);
    crate::ir_execute::bindings::lemma_found_attribute(attributes, 1);
    crate::ir_execute::bindings::lemma_found_attribute(attributes, 2);
    let position = crate::ir::pipeline::spec_find_attribute(attributes, 0)->0;
    let color = crate::wgpu_backend::shader::color_attribute(pipeline);
    let coordinates = crate::wgpu_backend::shader::coordinate_attribute(pipeline);
    lemma_supported(pipeline, position);
    lemma_vector_text(position);
    if let Some(attribute) = color {
        lemma_supported(pipeline, attribute);
        lemma_vector_text(attribute);
    }
    lemma_joints();
    let head = crate::wgpu_backend::shader::UNIFORMS@ + (if pipeline.fragment.is_textured() {
        crate::wgpu_backend::shader::TEXTURE_BINDINGS@
    } else {
        Seq::empty()
    }) + "struct VertexInput {\n"@ + crate::wgpu_backend::shader::inputs_text(attributes)
        + crate::wgpu_backend::shader::VERTEX_OUTPUT@ + crate::wgpu_backend::shader::VERTEX_MAIN@;
    let stages = stages_text(pipeline, position, color, coordinates, sample_format);
    let color_text = match color {
        Some(attribute) => vector_text(attribute),
        None => "vec4<f32>(1.0)"@,
    };
    let coordinates_text = match coordinates {
        Some(attribute) => "input.attr"@ + crate::wgpu_backend::shader::decimal(
            attribute.location as nat,
        ),
        None => "vec2<f32>(0.0)"@,
    };
    lemma_joined(
        head,
        "  output.position = uniforms.transform * "@,
        vector_text(position),
        ";\n"@,
        "  output.color = "@,
        color_text,
        "  output.uv = "@,
        coordinates_text,
        ";\n  return output;\n}\n"@,
        crate::wgpu_backend::shader::FRAGMENT_MAIN@,
        crate::wgpu_backend::shader::fragment_text(pipeline.fragment, sample_format),
        "}\n"@,
    );
    assert(crate::wgpu_backend::shader::shader_text(pipeline, sample_format) == head + stages);
}

proof fn lemma_supported(pipeline: RenderPipelineView, attribute: VertexAttribute)
    requires
        crate::wgpu_backend::shader::generates(pipeline),
        pipeline.vertex_buffer.attributes.contains(attribute),
    ensures
        !(attribute.format is Sint32),
{
    let attributes = pipeline.vertex_buffer.attributes;
    let i = choose|i: int| 0 <= i < attributes.len() && attributes[i] == attribute;
    assert(crate::wgpu_backend::shader::spec_wgsl_vertex_type(attributes[i].format) is Some);
}

} // verus!
