//! Portable render-pipeline descriptors and draw state.

use crate::ir::resource::TextureFormat;
use crate::ir::types::{Color, Error, Transform};
use vstd::prelude::*;

verus! {

/// Maximum attributes accepted by one portable vertex-buffer layout.
pub const MAX_VERTEX_ATTRIBUTES: usize = 16;

/// Maximum vertex buffers bound by one programmable pipeline.
pub const MAX_VERTEX_BUFFERS: usize = 8;

/// Comparison applied between an incoming fragment depth and stored depth.
#[derive(Debug, Clone, Copy, PartialEq, Eq, Structural)]
pub enum CompareFunction {
    /// Never pass the comparison.
    Never,
    /// Pass when the incoming value is less than the stored value.
    Less,
    /// Pass when both values are equal.
    Equal,
    /// Pass when the incoming value is less than or equal to the stored value.
    LessEqual,
    /// Pass when the incoming value is greater than the stored value.
    Greater,
    /// Pass when the values are not equal.
    NotEqual,
    /// Pass when the incoming value is greater than or equal to the stored value.
    GreaterEqual,
    /// Always pass the comparison.
    Always,
}

/// Portable depth-test and depth-write pipeline state.
#[derive(Debug, Clone, Copy, PartialEq, Eq, Structural)]
pub struct DepthState {
    /// Required depth attachment format.
    pub format: TextureFormat,
    /// Comparison applied to incoming fragment depth.
    pub compare: CompareFunction,
    /// Switch that makes passing fragments update stored depth.
    pub write_enabled: bool,
}

impl DepthState {
    /// Construct depth-test and depth-write state.
    pub fn new(format: TextureFormat, compare: CompareFunction, write_enabled: bool) -> (r: Self)
        ensures
            r == (Self { format, compare, write_enabled }),
    {
        Self { format, compare, write_enabled }
    }

    /// Return the required depth attachment format.
    pub fn format(self) -> (r: TextureFormat)
        ensures
            r == self.format,
    {
        self.format
    }

    /// Return the comparison applied to incoming fragment depth.
    pub fn compare(self) -> (r: CompareFunction)
        ensures
            r == self.compare,
    {
        self.compare
    }

    /// Return the switch that makes passing fragments update stored depth.
    pub fn write_enabled(self) -> (r: bool)
        ensures
            r == self.write_enabled,
    {
        self.write_enabled
    }
}

/// Encoding of one vertex attribute.
#[derive(Debug, Clone, Copy, PartialEq, Eq, Structural)]
pub enum VertexFormat {
    /// Two single-precision components.
    Float32x2,
    /// Three single-precision components.
    Float32x3,
    /// Four single-precision components.
    Float32x4,
    /// Four eight-bit components normalized to the unit interval.
    Unorm8x4,
    /// One signed 32-bit integer.
    Sint32,
}

impl VertexFormat {
    /// Bytes of one attribute value.
    pub open spec fn spec_byte_size(self) -> u32 {
        match self {
            VertexFormat::Float32x2 => 8,
            VertexFormat::Float32x3 => 12,
            VertexFormat::Float32x4 => 16,
            VertexFormat::Unorm8x4 | VertexFormat::Sint32 => 4,
        }
    }

    /// Return the number of bytes of one attribute value.
    #[verifier::when_used_as_spec(spec_byte_size)]
    pub fn byte_size(self) -> (r: u32)
        ensures
            r == self.spec_byte_size(),
    {
        match self {
            VertexFormat::Float32x2 => 8,
            VertexFormat::Float32x3 => 12,
            VertexFormat::Float32x4 => 16,
            VertexFormat::Unorm8x4 | VertexFormat::Sint32 => 4,
        }
    }
}

/// One attribute within a vertex.
#[derive(Debug, Clone, Copy, PartialEq, Eq, Structural)]
pub struct VertexAttribute {
    /// Shader input location.
    pub location: u32,
    /// Attribute encoding.
    pub format: VertexFormat,
    /// Byte offset within the vertex.
    pub offset: u32,
}

impl VertexAttribute {
    /// Describe one vertex attribute. The enclosing layout validates it.
    pub fn new(location: u32, format: VertexFormat, offset: u32) -> (r: Self)
        ensures
            r == (Self { location, format, offset }),
    {
        Self { location, format, offset }
    }

    /// Return the shader input location.
    pub fn location(self) -> (r: u32)
        ensures
            r == self.location,
    {
        self.location
    }

    /// Return the attribute encoding.
    pub fn format(self) -> (r: VertexFormat)
        ensures
            r == self.format,
    {
        self.format
    }

    /// Return the byte offset within the vertex.
    pub fn offset(self) -> (r: u32)
        ensures
            r == self.offset,
    {
        self.offset
    }
}

/// Stride and attributes of a vertex-buffer layout.
#[verifier::ext_equal]
pub struct VertexBufferLayoutView {
    pub stride: u32,
    pub attributes: Seq<VertexAttribute>,
}

impl VertexBufferLayoutView {
    /// Whether an attribute ends within the stride.
    pub open spec fn attribute_fits(self, i: int) -> bool {
        self.attributes[i].offset + self.attributes[i].format.byte_size() <= self.stride
    }

    /// Non-empty and bounded, every attribute within the stride, locations distinct.
    pub open spec fn valid(self) -> bool {
        &&& self.stride > 0
        &&& 0 < self.attributes.len() <= MAX_VERTEX_ATTRIBUTES
        &&& forall|i: int| 0 <= i < self.attributes.len() ==> #[trigger] self.attribute_fits(i)
        &&& forall|i: int, j: int|
            0 <= i < j < self.attributes.len() ==> (#[trigger] self.attributes[i]).location != (
            #[trigger] self.attributes[j]).location
    }

    /// Whether some attribute has this location and this format.
    pub open spec fn locates(self, location: u32, format: VertexFormat) -> bool {
        exists|i: int|
            0 <= i < self.attributes.len() && (#[trigger] self.attributes[i]).location == location
                && self.attributes[i].format == format
    }
}

/// Layout of interleaved vertices in one buffer.
#[derive(Debug, PartialEq, Eq)]
pub struct VertexBufferLayout {
    stride: u32,
    attributes: Vec<VertexAttribute>,
}

impl View for VertexBufferLayout {
    type V = VertexBufferLayoutView;

    closed spec fn view(&self) -> VertexBufferLayoutView {
        VertexBufferLayoutView { stride: self.stride, attributes: self.attributes@ }
    }
}

impl Clone for VertexBufferLayout {
    fn clone(&self) -> (r: Self)
        ensures
            r@ == self@,
    {
        proof {
            use_type_invariant(self);
        }
        let attributes = vstd::slice::slice_to_vec(self.attributes.as_slice());
        assert(attributes@ =~= self.attributes@);
        Self { stride: self.stride, attributes }
    }
}

impl VertexBufferLayout {
    #[verifier::type_invariant]
    spec fn well_formed(self) -> bool {
        (VertexBufferLayoutView { stride: self.stride, attributes: self.attributes@ }).valid()
    }

    /// Construct a layout from a vertex stride and its attributes.
    ///
    /// Returns `Error::InvalidDescriptor` for a zero stride, no attributes or too
    /// many, an attribute that ends past the stride, or a repeated location.
    pub fn new(stride: u32, attributes: Vec<VertexAttribute>) -> (r: Result<Self, Error>)
        ensures
            match r {
                Ok(layout) => layout@ == (VertexBufferLayoutView {
                    stride,
                    attributes: attributes@,
                }) && layout@.valid(),
                Err(error) => error == Error::InvalidDescriptor && !(VertexBufferLayoutView {
                    stride,
                    attributes: attributes@,
                }).valid(),
            },
    {
        let ghost wanted = VertexBufferLayoutView { stride, attributes: attributes@ };
        if stride == 0 || attributes.is_empty() || attributes.len() > MAX_VERTEX_ATTRIBUTES {
            return Err(Error::InvalidDescriptor);
        }
        let mut index: usize = 0;
        while index < attributes.len()
            invariant
                index <= attributes.len(),
                wanted == (VertexBufferLayoutView { stride, attributes: attributes@ }),
                forall|i: int| 0 <= i < index ==> #[trigger] wanted.attribute_fits(i),
                forall|i: int, j: int|
                    0 <= i < j < index ==> (#[trigger] attributes@[i]).location != (
                    #[trigger] attributes@[j]).location,
            decreases attributes.len() - index,
        {
            let attribute: VertexAttribute = attributes[index];
            match attribute.offset.checked_add(attribute.format.byte_size()) {
                Some(end) => {
                    if end > stride {
                        assert(!wanted.attribute_fits(index as int));
                        return Err(Error::InvalidDescriptor);
                    }
                },
                None => {
                    assert(!wanted.attribute_fits(index as int));
                    return Err(Error::InvalidDescriptor);
                },
            }
            let mut earlier: usize = 0;
            while earlier < index
                invariant
                    earlier <= index < attributes.len(),
                    attribute == attributes@[index as int],
                    wanted == (VertexBufferLayoutView { stride, attributes: attributes@ }),
                    forall|i: int|
                        0 <= i < earlier ==> (#[trigger] attributes@[i]).location
                            != attribute.location,
                decreases index - earlier,
            {
                if attributes[earlier].location == attribute.location {
                    assert(wanted.attributes[earlier as int].location
                        == wanted.attributes[index as int].location);
                    return Err(Error::InvalidDescriptor);
                }
                earlier = earlier + 1;
            }
            assert(wanted.attribute_fits(index as int));
            index = index + 1;
        }
        Ok(Self { stride, attributes })
    }

    /// Return the non-zero distance between vertices in bytes.
    pub fn stride(&self) -> (r: u32)
        ensures
            r == self@.stride,
            r > 0,
    {
        proof {
            use_type_invariant(self);
        }
        self.stride
    }

    /// Return the attributes. They form a valid layout with the stride.
    pub fn attributes(&self) -> (r: &[VertexAttribute])
        ensures
            r@ == self@.attributes,
            self@.valid(),
    {
        proof {
            use_type_invariant(self);
        }
        self.attributes.as_slice()
    }

    /// Return the format of the attribute at a location, if there is one.
    pub fn format_at(&self, location: u32) -> (r: Option<VertexFormat>)
        ensures
            forall|format: VertexFormat| #[trigger]
                self@.locates(location, format) <==> r == Some(format),
    {
        proof {
            use_type_invariant(self);
        }
        let mut index: usize = 0;
        while index < self.attributes.len()
            invariant
                index <= self.attributes.len(),
                self@.valid(),
                self@.attributes == self.attributes@,
                forall|i: int|
                    0 <= i < index ==> (#[trigger] self.attributes@[i]).location != location,
            decreases self.attributes.len() - index,
        {
            let attribute: VertexAttribute = self.attributes[index];
            if attribute.location == location {
                assert(self@.attributes[index as int] == attribute);
                return Some(attribute.format);
            }
            index = index + 1;
        }
        None
    }
}

/// The first attribute at a location.
pub open spec fn spec_find_attribute(attributes: Seq<VertexAttribute>, location: u32) -> Option<
    VertexAttribute,
>
    decreases attributes.len(),
{
    if attributes.len() == 0 {
        None
    } else if attributes[0].location == location {
        Some(attributes[0])
    } else {
        spec_find_attribute(attributes.skip(1), location)
    }
}

/// Return the first attribute at a location, if there is one.
pub fn find_attribute(attributes: &[VertexAttribute], location: u32) -> (r: Option<VertexAttribute>)
    ensures
        r == spec_find_attribute(attributes@, location),
{
    let mut index: usize = 0;
    assert(attributes@.skip(0) =~= attributes@);
    while index < attributes.len()
        invariant
            index <= attributes.len(),
            spec_find_attribute(attributes@, location) == spec_find_attribute(
                attributes@.skip(index as int),
                location,
            ),
        decreases attributes.len() - index,
    {
        let attribute: VertexAttribute = attributes[index];
        assert(attributes@.skip(index as int)[0] == attribute);
        assert(attributes@.skip(index as int).skip(1) =~= attributes@.skip(index + 1));
        if attribute.location == location {
            return Some(attribute);
        }
        index = index + 1;
    }
    None
}

/// Primitive assembly mode.
#[derive(Debug, Clone, Copy, PartialEq, Eq, Structural)]
pub enum PrimitiveTopology {
    /// Every three vertices form one triangle.
    TriangleList,
}

/// Encoded width of an index.
#[derive(Debug, Clone, Copy, PartialEq, Eq, Structural)]
pub enum IndexFormat {
    /// Two bytes per index.
    Uint16,
    /// Four bytes per index.
    Uint32,
}

impl IndexFormat {
    /// Bytes of one index.
    pub open spec fn spec_byte_size(self) -> u64 {
        match self {
            IndexFormat::Uint16 => 2,
            IndexFormat::Uint32 => 4,
        }
    }

    /// Return the number of bytes of one index.
    #[verifier::when_used_as_spec(spec_byte_size)]
    pub fn byte_size(self) -> (r: u64)
        ensures
            r == self.spec_byte_size(),
    {
        match self {
            IndexFormat::Uint16 => 2,
            IndexFormat::Uint32 => 4,
        }
    }
}

/// Built-in fragment computation of a fixed pipeline.
#[derive(Debug, Clone, Copy, PartialEq, Eq, Structural)]
pub enum FragmentProgram {
    /// Output the draw color.
    Solid,
    /// Output the interpolated vertex color.
    VertexColor,
    /// Output a texture sample combined with the draw color.
    Texture(TextureSampleMode),
    /// Output a texture sample combined with the vertex color.
    TextureVertexColor(TextureSampleMode),
}

impl FragmentProgram {
    /// Whether the program samples a texture.
    pub open spec fn spec_is_textured(self) -> bool {
        self is Texture || self is TextureVertexColor
    }

    /// Return whether the program samples a texture.
    #[verifier::when_used_as_spec(spec_is_textured)]
    pub fn is_textured(self) -> (r: bool)
        ensures
            r == self.spec_is_textured(),
    {
        match self {
            FragmentProgram::Texture(_) | FragmentProgram::TextureVertexColor(_) => true,
            _ => false,
        }
    }
}

/// Interpretation of a texture sample.
#[derive(Debug, Clone, Copy, PartialEq, Eq, Structural)]
pub enum TextureSampleMode {
    /// Use color and alpha.
    Rgba,
    /// Use color with full alpha.
    RgbIgnoreAlpha,
    /// Use alpha alone, as coverage.
    AlphaMask,
}

/// Transform and color of fixed-pipeline draws.
#[derive(Debug, Clone, Copy, PartialEq, Eq)]
pub struct DrawUniforms {
    /// Vertex transform.
    pub transform: Transform,
    /// Draw color.
    pub color: Color,
}

impl DrawUniforms {
    /// Construct draw uniforms.
    pub fn new(transform: Transform, color: Color) -> (r: Self)
        ensures
            r == (Self { transform, color }),
    {
        Self { transform, color }
    }

    /// Return the vertex transform.
    pub fn transform(self) -> (r: Transform)
        ensures
            r == self.transform,
    {
        self.transform
    }

    /// Return the draw color.
    pub fn color(self) -> (r: Color)
        ensures
            r == self.color,
    {
        self.color
    }
}

/// Blend equation operand.
#[derive(Debug, Clone, Copy, PartialEq, Eq, Structural)]
pub enum BlendFactor {
    /// Zero.
    Zero,
    /// One.
    One,
    /// Source alpha.
    SourceAlpha,
    /// One minus source alpha.
    OneMinusSourceAlpha,
    /// Destination alpha.
    DestinationAlpha,
    /// One minus destination alpha.
    OneMinusDestinationAlpha,
}

/// Blend equation.
#[derive(Debug, Clone, Copy, PartialEq, Eq, Structural)]
pub enum BlendOp {
    /// Source plus destination.
    Add,
    /// Source minus destination.
    Subtract,
    /// Destination minus source.
    ReverseSubtract,
}

/// Blend equation of the color or the alpha channel.
#[derive(Debug, Clone, Copy, PartialEq, Eq, Structural)]
pub struct BlendComponent {
    /// Factor of the source.
    pub source_factor: BlendFactor,
    /// Factor of the destination.
    pub destination_factor: BlendFactor,
    /// Blend equation.
    pub operation: BlendOp,
}

impl BlendComponent {
    /// Construct a blend component.
    pub fn new(source_factor: BlendFactor, destination_factor: BlendFactor, operation: BlendOp) -> (r: Self)
        ensures
            r == (Self { source_factor, destination_factor, operation }),
    {
        Self { source_factor, destination_factor, operation }
    }

    /// Return the factor of the source.
    pub fn source_factor(self) -> (r: BlendFactor)
        ensures
            r == self.source_factor,
    {
        self.source_factor
    }

    /// Return the factor of the destination.
    pub fn destination_factor(self) -> (r: BlendFactor)
        ensures
            r == self.destination_factor,
    {
        self.destination_factor
    }

    /// Return the blend equation.
    pub fn operation(self) -> (r: BlendOp)
        ensures
            r == self.operation,
    {
        self.operation
    }
}

/// Color and alpha blending of one color output.
#[derive(Debug, Clone, Copy, PartialEq, Eq, Structural)]
pub struct BlendState {
    /// Color blending.
    pub color: BlendComponent,
    /// Alpha blending.
    pub alpha: BlendComponent,
}

impl BlendState {
    /// Construct blending from its two components.
    pub fn new(color: BlendComponent, alpha: BlendComponent) -> (r: Self)
        ensures
            r == (Self { color, alpha }),
    {
        Self { color, alpha }
    }

    /// Return the color blending.
    pub fn color(self) -> (r: BlendComponent)
        ensures
            r == self.color,
    {
        self.color
    }

    /// Return the alpha blending.
    pub fn alpha(self) -> (r: BlendComponent)
        ensures
            r == self.alpha,
    {
        self.alpha
    }

    /// The source replaces the destination.
    pub open spec fn spec_replace() -> Self {
        let component = BlendComponent {
            source_factor: BlendFactor::One,
            destination_factor: BlendFactor::Zero,
            operation: BlendOp::Add,
        };
        BlendState { color: component, alpha: component }
    }

    /// Straight-alpha source over destination.
    pub open spec fn spec_source_over_straight_alpha() -> Self {
        BlendState {
            color: BlendComponent {
                source_factor: BlendFactor::SourceAlpha,
                destination_factor: BlendFactor::OneMinusSourceAlpha,
                operation: BlendOp::Add,
            },
            alpha: BlendComponent {
                source_factor: BlendFactor::One,
                destination_factor: BlendFactor::OneMinusSourceAlpha,
                operation: BlendOp::Add,
            },
        }
    }

    /// The destination is kept in proportion to source alpha.
    pub open spec fn spec_destination_in() -> Self {
        let component = BlendComponent {
            source_factor: BlendFactor::Zero,
            destination_factor: BlendFactor::SourceAlpha,
            operation: BlendOp::Add,
        };
        BlendState { color: component, alpha: component }
    }

    /// Return the state in which the source replaces the destination.
    #[verifier::when_used_as_spec(spec_replace)]
    pub fn replace() -> (r: Self)
        ensures
            r == Self::spec_replace(),
    {
        let component = BlendComponent::new(BlendFactor::One, BlendFactor::Zero, BlendOp::Add);
        Self { color: component, alpha: component }
    }

    /// Return straight-alpha source-over blending.
    #[verifier::when_used_as_spec(spec_source_over_straight_alpha)]
    pub fn source_over_straight_alpha() -> (r: Self)
        ensures
            r == Self::spec_source_over_straight_alpha(),
    {
        Self {
            color: BlendComponent::new(
                BlendFactor::SourceAlpha,
                BlendFactor::OneMinusSourceAlpha,
                BlendOp::Add,
            ),
            alpha: BlendComponent::new(
                BlendFactor::One,
                BlendFactor::OneMinusSourceAlpha,
                BlendOp::Add,
            ),
        }
    }

    /// Return blending that keeps the destination in proportion to source alpha.
    #[verifier::when_used_as_spec(spec_destination_in)]
    pub fn destination_in() -> (r: Self)
        ensures
            r == Self::spec_destination_in(),
    {
        let component = BlendComponent::new(
            BlendFactor::Zero,
            BlendFactor::SourceAlpha,
            BlendOp::Add,
        );
        Self { color: component, alpha: component }
    }
}

/// Triangle faces that are discarded.
#[derive(Debug, Clone, Copy, PartialEq, Eq, Structural)]
pub enum CullMode {
    /// Keep both faces.
    Disabled,
    /// Discard front faces.
    Front,
    /// Discard back faces.
    Back,
}

/// Winding of front faces.
#[derive(Debug, Clone, Copy, PartialEq, Eq, Structural)]
pub enum FrontFace {
    /// Clockwise triangles face the viewer.
    Clockwise,
    /// Counter-clockwise triangles face the viewer.
    CounterClockwise,
}

/// Face culling and winding.
#[derive(Debug, Clone, Copy, PartialEq, Eq, Structural)]
pub struct RasterState {
    /// Discarded faces.
    pub cull_mode: CullMode,
    /// Winding of front faces.
    pub front_face: FrontFace,
}

impl RasterState {
    /// Construct rasterization state.
    pub fn new(cull_mode: CullMode, front_face: FrontFace) -> (r: Self)
        ensures
            r == (Self { cull_mode, front_face }),
    {
        Self { cull_mode, front_face }
    }

    /// Return the discarded faces.
    pub fn cull_mode(self) -> (r: CullMode)
        ensures
            r == self.cull_mode,
    {
        self.cull_mode
    }

    /// Return the winding of front faces.
    pub fn front_face(self) -> (r: FrontFace)
        ensures
            r == self.front_face,
    {
        self.front_face
    }
}

/// The fields of a fixed render-pipeline descriptor.
#[verifier::ext_equal]
pub struct RenderPipelineView {
    pub target_format: TextureFormat,
    pub topology: PrimitiveTopology,
    pub vertex_buffer: VertexBufferLayoutView,
    pub fragment: FragmentProgram,
    pub blend: BlendState,
    pub raster: RasterState,
    pub depth: Option<DepthState>,
}

/// Whether the attribute at a location carries a color.
pub open spec fn locates_color(layout: VertexBufferLayoutView, location: u32) -> bool {
    layout.locates(location, VertexFormat::Float32x3) || layout.locates(
        location,
        VertexFormat::Float32x4,
    ) || layout.locates(location, VertexFormat::Unorm8x4)
}

/// Whether a layout feeds a fragment program: a floating-point position at
/// location zero, then the vertex color, then texture coordinates, as used.
pub open spec fn layout_feeds(layout: VertexBufferLayoutView, fragment: FragmentProgram) -> bool {
    &&& layout.locates(0, VertexFormat::Float32x2) || layout.locates(0, VertexFormat::Float32x3)
        || layout.locates(0, VertexFormat::Float32x4)
    &&& match fragment {
        FragmentProgram::Solid => true,
        FragmentProgram::VertexColor => locates_color(layout, 1),
        FragmentProgram::Texture(_) => layout.locates(1, VertexFormat::Float32x2),
        FragmentProgram::TextureVertexColor(_) => locates_color(layout, 1) && layout.locates(
            2,
            VertexFormat::Float32x2,
        ),
    }
}

impl RenderPipelineView {
    /// What every descriptor keeps.
    pub open spec fn valid(self) -> bool {
        &&& self.target_format != TextureFormat::Depth32Float
        &&& self.vertex_buffer.valid()
        &&& layout_feeds(self.vertex_buffer, self.fragment)
        &&& match self.depth {
            Some(depth) => depth.format == TextureFormat::Depth32Float,
            None => true,
        }
    }
}

/// Validated fixed render-pipeline description.
#[derive(Debug, PartialEq, Eq)]
pub struct RenderPipelineDesc {
    target_format: TextureFormat,
    topology: PrimitiveTopology,
    vertex_buffer: VertexBufferLayout,
    fragment: FragmentProgram,
    blend: BlendState,
    raster: RasterState,
    depth: Option<DepthState>,
}

impl View for RenderPipelineDesc {
    type V = RenderPipelineView;

    closed spec fn view(&self) -> RenderPipelineView {
        RenderPipelineView {
            target_format: self.target_format,
            topology: self.topology,
            vertex_buffer: self.vertex_buffer@,
            fragment: self.fragment,
            blend: self.blend,
            raster: self.raster,
            depth: self.depth,
        }
    }
}

impl Clone for RenderPipelineDesc {
    fn clone(&self) -> (r: Self)
        ensures
            r@ == self@,
    {
        proof {
            use_type_invariant(self);
        }
        Self {
            target_format: self.target_format,
            topology: self.topology,
            vertex_buffer: self.vertex_buffer.clone(),
            fragment: self.fragment,
            blend: self.blend,
            raster: self.raster,
            depth: self.depth,
        }
    }
}

impl RenderPipelineDesc {
    #[verifier::type_invariant]
    spec fn well_formed(self) -> bool {
        self@.valid()
    }

    /// Construct a fixed pipeline without depth testing.
    ///
    /// Returns `Error::InvalidDescriptor` for a depth color target, or a layout
    /// that does not feed the fragment program.
    pub fn new(
        target_format: TextureFormat,
        topology: PrimitiveTopology,
        vertex_buffer: VertexBufferLayout,
        fragment: FragmentProgram,
        blend: BlendState,
        raster: RasterState,
    ) -> (r: Result<Self, Error>)
        ensures
            match r {
                Ok(desc) => desc@ == (RenderPipelineView {
                    target_format,
                    topology,
                    vertex_buffer: vertex_buffer@,
                    fragment,
                    blend,
                    raster,
                    depth: None,
                }) && desc@.valid(),
                Err(error) => error == Error::InvalidDescriptor && (target_format
                    == TextureFormat::Depth32Float || !layout_feeds(vertex_buffer@, fragment)),
            },
    {
        proof {
            use_type_invariant(&vertex_buffer);
        }
        if target_format == TextureFormat::Depth32Float {
            return Err(Error::InvalidDescriptor);
        }
        match vertex_buffer.format_at(0) {
            Some(VertexFormat::Float32x2) | Some(VertexFormat::Float32x3) | Some(
                VertexFormat::Float32x4,
            ) => {},
            _ => return Err(Error::InvalidDescriptor),
        }
        let location_one = vertex_buffer.format_at(1);
        let location_two = vertex_buffer.format_at(2);
        let color_at_one: bool = match location_one {
            Some(VertexFormat::Float32x3) | Some(VertexFormat::Float32x4) | Some(
                VertexFormat::Unorm8x4,
            ) => true,
            _ => false,
        };
        let fed: bool = match fragment {
            FragmentProgram::Solid => true,
            FragmentProgram::VertexColor => color_at_one,
            FragmentProgram::Texture(_) => matches!(location_one, Some(VertexFormat::Float32x2)),
            FragmentProgram::TextureVertexColor(_) => color_at_one
                && matches!(location_two, Some(VertexFormat::Float32x2)),
        };
        if !fed {
            return Err(Error::InvalidDescriptor);
        }
        Ok(
            Self {
                target_format,
                topology,
                vertex_buffer,
                fragment,
                blend,
                raster,
                depth: None,
            },
        )
    }

    /// Add depth testing and optional depth writes.
    ///
    /// Returns `Error::InvalidDescriptor` for a format other than `Depth32Float`.
    pub fn with_depth_state(self, depth: DepthState) -> (r: Result<Self, Error>)
        ensures
            match r {
                Ok(desc) => depth.format == TextureFormat::Depth32Float && desc@ == (
                RenderPipelineView { depth: Some(depth), ..self@ }),
                Err(error) => error == Error::InvalidDescriptor && depth.format
                    != TextureFormat::Depth32Float,
            },
    {
        proof {
            use_type_invariant(&self);
        }
        if depth.format() != TextureFormat::Depth32Float {
            return Err(Error::InvalidDescriptor);
        }
        Ok(
            Self {
                target_format: self.target_format,
                topology: self.topology,
                vertex_buffer: self.vertex_buffer,
                fragment: self.fragment,
                blend: self.blend,
                raster: self.raster,
                depth: Some(depth),
            },
        )
    }

    /// Add depth testing and optional depth writes, as `with_depth_state` does.
    pub fn with_depth_stencil(self, depth: DepthState) -> (r: Result<Self, Error>)
        ensures
            match r {
                Ok(desc) => depth.format == TextureFormat::Depth32Float && desc@ == (
                RenderPipelineView { depth: Some(depth), ..self@ }),
                Err(error) => error == Error::InvalidDescriptor && depth.format
                    != TextureFormat::Depth32Float,
            },
    {
        self.with_depth_state(depth)
    }

    /// Return the color target format.
    pub fn target_format(&self) -> (r: TextureFormat)
        ensures
            r == self@.target_format,
    {
        self.target_format
    }

    /// Return the primitive assembly mode.
    pub fn topology(&self) -> (r: PrimitiveTopology)
        ensures
            r == self@.topology,
    {
        self.topology
    }

    /// Return the fragment program.
    pub fn fragment(&self) -> (r: FragmentProgram)
        ensures
            r == self@.fragment,
    {
        self.fragment
    }

    /// Return the blending.
    pub fn blend(&self) -> (r: BlendState)
        ensures
            r == self@.blend,
    {
        self.blend
    }

    /// Return the face culling and winding.
    pub fn raster(&self) -> (r: RasterState)
        ensures
            r == self@.raster,
    {
        self.raster
    }

    /// Return the vertex-buffer layout, which feeds the fragment program.
    pub fn vertex_buffer(&self) -> (r: &VertexBufferLayout)
        ensures
            r@ == self@.vertex_buffer,
            self@.valid(),
    {
        proof {
            use_type_invariant(self);
        }
        &self.vertex_buffer
    }

    /// Return the depth testing state, if there is one.
    pub fn depth_state(&self) -> (r: Option<DepthState>)
        ensures
            r == self@.depth,
    {
        self.depth
    }
}

} // verus!
