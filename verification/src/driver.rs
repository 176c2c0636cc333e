//! Plain values exchanged between command lowering and a device transport.
//!
//! A submission holds everything a transport needs to encode one render pass:
//! decoded vertices, draws, and the fixed state that each draw uses. Numbers are
//! single-precision bit patterns throughout.

use vstd::prelude::*;

verus! {

/// Decoded vertices that one submission may hold.
pub const MAX_IR_VERTICES: usize = 1_536;

/// Failure of a device transport.
#[derive(Debug, Clone, Copy, PartialEq, Eq, Structural)]
pub enum HandleError {
    /// An argument does not fit the device state.
    InvalidParameter,
    /// The device lacks a needed capability.
    Unsupported,
    /// A host or device resource is exhausted.
    OutOfResources,
    /// The system reported a failure code.
    SystemError(i32),
}

/// Filtering of a texture.
#[derive(Debug, Clone, Copy, PartialEq, Eq, Structural)]
pub enum IrFilterMode {
    /// Take the nearest texel.
    Nearest,
    /// Interpolate between texels.
    Linear,
}

/// Addressing of coordinates outside a texture.
#[derive(Debug, Clone, Copy, PartialEq, Eq, Structural)]
pub enum IrAddressMode {
    /// Clamp to the edge texel.
    ClampToEdge,
    /// Repeat the texture.
    Repeat,
    /// Repeat the texture, mirrored every other time.
    MirrorRepeat,
}

/// Factor of a blend operand.
#[derive(Debug, Clone, Copy, PartialEq, Eq, Structural)]
pub enum IrBlendFactor {
    /// Zero.
    Zero,
    /// One.
    One,
    /// Source alpha.
    SourceAlpha,
    /// One minus source alpha.
    OneMinusSourceAlpha,
    /// Destination alpha.
    DestinationAlpha,
    /// One minus destination alpha.
    OneMinusDestinationAlpha,
}

/// Combination of the blend operands.
#[derive(Debug, Clone, Copy, PartialEq, Eq, Structural)]
pub enum IrBlendOp {
    /// Source plus destination.
    Add,
    /// Source minus destination.
    Subtract,
    /// Destination minus source.
    ReverseSubtract,
}

/// Blending of color or of alpha.
#[derive(Debug, Clone, Copy, PartialEq, Eq, Structural)]
pub struct IrBlendComponent {
    /// Factor of the source operand.
    pub source_factor: IrBlendFactor,
    /// Factor of the destination operand.
    pub destination_factor: IrBlendFactor,
    /// How the operands combine.
    pub operation: IrBlendOp,
}

/// Blending of a color attachment.
#[derive(Debug, Clone, Copy, PartialEq, Eq, Structural)]
pub struct IrBlendState {
    /// Color blending.
    pub color: IrBlendComponent,
    /// Alpha blending.
    pub alpha: IrBlendComponent,
}

/// Faces that are not drawn.
#[derive(Debug, Clone, Copy, PartialEq, Eq, Structural)]
pub enum IrCullMode {
    /// Draw every face.
    Disabled,
    /// Cull front faces.
    Front,
    /// Cull back faces.
    Back,
}

/// Winding of front faces.
#[derive(Debug, Clone, Copy, PartialEq, Eq, Structural)]
pub enum IrFrontFace {
    /// Clockwise.
    Clockwise,
    /// Counter-clockwise.
    CounterClockwise,
}

/// Fragment computation of a pipeline.
#[derive(Debug, Clone, Copy, PartialEq, Eq, Structural)]
pub enum IrFragmentProgram {
    /// The draw color.
    Solid,
    /// The vertex color times the draw color.
    VertexColor,
    /// The texture sample times the draw color.
    TextureRgba,
    /// The opaque texture sample times the draw color.
    TextureRgbIgnoreAlpha,
    /// The draw color covered by the sampled alpha.
    TextureAlphaMask,
}

impl IrFragmentProgram {
    /// Whether the program samples a texture.
    pub open spec fn spec_samples(self) -> bool {
        self is TextureRgba || self is TextureRgbIgnoreAlpha || self is TextureAlphaMask
    }

    /// Return whether the program samples a texture.
    #[verifier::when_used_as_spec(spec_samples)]
    pub fn samples(self) -> (r: bool)
        ensures
            r == self.spec_samples(),
    {
        match self {
            IrFragmentProgram::Solid | IrFragmentProgram::VertexColor => false,
            IrFragmentProgram::TextureRgba
            | IrFragmentProgram::TextureRgbIgnoreAlpha
            | IrFragmentProgram::TextureAlphaMask => true,
        }
    }
}

/// Texel encoding of a logical texture. Devices store all of them as BGRA.
#[derive(Debug, Clone, Copy, PartialEq, Eq, Structural)]
pub enum IrTextureFormat {
    /// Blue, green, red, alpha bytes.
    Bgra8,
    /// Red, green, blue, alpha bytes.
    Rgba8,
    /// One coverage byte.
    R8,
}

impl IrTextureFormat {
    /// Bytes of one texel in an upload.
    pub open spec fn spec_bytes_per_pixel(self) -> usize {
        match self {
            IrTextureFormat::R8 => 1,
            IrTextureFormat::Bgra8 | IrTextureFormat::Rgba8 => 4,
        }
    }

    /// Return the bytes of one texel in an upload.
    #[verifier::when_used_as_spec(spec_bytes_per_pixel)]
    pub fn bytes_per_pixel(self) -> (r: usize)
        ensures
            r == self.spec_bytes_per_pixel(),
    {
        match self {
            IrTextureFormat::R8 => 1,
            IrTextureFormat::Bgra8 | IrTextureFormat::Rgba8 => 4,
        }
    }
}

/// A pixel rectangle as handed to a device.
#[derive(Debug, Clone, Copy, PartialEq, Eq, Structural)]
pub struct IrRect {
    /// Left edge.
    pub x: u32,
    /// Upper edge.
    pub y: u32,
    /// Width in pixels.
    pub width: u32,
    /// Height in pixels.
    pub height: u32,
}

impl IrRect {
    /// The first column to the right.
    pub open spec fn right(self) -> int {
        self.x + self.width
    }

    /// The first row below.
    pub open spec fn bottom(self) -> int {
        self.y + self.height
    }

    /// Whether the rectangle is not empty and its edges are representable.
    pub open spec fn spec_is_valid(self) -> bool {
        self.width != 0 && self.height != 0 && self.right() <= u32::MAX && self.bottom()
            <= u32::MAX
    }

    /// Whether the rectangle is not empty and lies within a surface.
    pub open spec fn spec_is_within(self, width: u32, height: u32) -> bool {
        self.width != 0 && self.height != 0 && self.right() <= width && self.bottom() <= height
    }

    /// Return whether the rectangle is not empty and its edges are representable.
    #[verifier::when_used_as_spec(spec_is_valid)]
    pub fn is_valid(self) -> (r: bool)
        ensures
            r == self.spec_is_valid(),
    {
        self.width != 0 && self.height != 0 && self.x <= u32::MAX - self.width && self.y
            <= u32::MAX - self.height
    }

    /// Return whether the rectangle is not empty and lies within a surface.
    #[verifier::when_used_as_spec(spec_is_within)]
    pub fn is_within(self, width: u32, height: u32) -> (r: bool)
        ensures
            r == self.spec_is_within(width, height),
    {
        self.is_valid() && self.x + self.width <= width && self.y + self.height <= height
    }
}

/// What a device needs to know of a logical texture.
#[derive(Debug, Clone, Copy, PartialEq, Eq, Structural)]
pub struct IrTextureSpec {
    /// Position in the resource table.
    pub slot: usize,
    /// Width in texels.
    pub width: u32,
    /// Height in texels.
    pub height: u32,
    /// Whether draws may sample it.
    pub sampled: bool,
    /// Whether passes may render into it.
    pub render_attachment: bool,
    /// Whether copies and uploads may write it.
    pub copy_destination: bool,
    /// Whether it is presented.
    pub present: bool,
    /// Texel encoding.
    pub format: IrTextureFormat,
}

impl IrTextureSpec {
    /// Whether some usage gives a device image a purpose.
    pub open spec fn spec_is_materializable(self) -> bool {
        self.sampled || self.render_attachment || self.copy_destination || self.present
    }

    /// Return whether some usage gives a device image a purpose.
    #[verifier::when_used_as_spec(spec_is_materializable)]
    pub fn is_materializable(self) -> (r: bool)
        ensures
            r == self.spec_is_materializable(),
    {
        self.sampled || self.render_attachment || self.copy_destination || self.present
    }
}

/// Sampling of a texture.
#[derive(Debug, Clone, Copy, PartialEq, Eq, Structural)]
pub struct IrSamplerState {
    /// Position in the resource table.
    pub slot: usize,
    /// Minification filter.
    pub min_filter: IrFilterMode,
    /// Magnification filter.
    pub mag_filter: IrFilterMode,
    /// Horizontal addressing.
    pub address_u: IrAddressMode,
    /// Vertical addressing.
    pub address_v: IrAddressMode,
}

/// Fixed state of a draw.
#[derive(Debug, Clone, Copy, PartialEq, Eq, Structural)]
pub struct IrPipelineState {
    /// Position in the resource table.
    pub slot: usize,
    /// Fragment computation.
    pub fragment: IrFragmentProgram,
    /// Blending.
    pub blend: IrBlendState,
    /// Culled faces.
    pub cull_mode: IrCullMode,
    /// Winding of front faces.
    pub front_face: IrFrontFace,
}

/// Transform and color of a draw.
#[derive(Debug, Clone, Copy, PartialEq, Eq)]
pub struct IrUniforms {
    /// Column-major transform.
    pub transform: [u32; 16],
    /// Draw color.
    pub color: [u32; 4],
}

/// The contents of uniforms.
#[verifier::ext_equal]
pub struct UniformsView {
    pub transform: Seq<u32>,
    pub color: Seq<u32>,
}

impl View for IrUniforms {
    type V = UniformsView;

    open spec fn view(&self) -> UniformsView {
        UniformsView { transform: self.transform@, color: self.color@ }
    }
}

/// One decoded vertex.
#[derive(Debug, Clone, Copy, PartialEq, Eq)]
pub struct IrVertex {
    /// Homogeneous position.
    pub position: [u32; 4],
    /// Vertex color, or texture coordinates.
    pub secondary: [u32; 4],
}

/// The contents of a vertex.
#[verifier::ext_equal]
pub struct VertexView {
    pub position: Seq<u32>,
    pub secondary: Seq<u32>,
}

impl View for IrVertex {
    type V = VertexView;

    open spec fn view(&self) -> VertexView {
        VertexView { position: self.position@, secondary: self.secondary@ }
    }
}

/// The contents of vertices.
pub open spec fn vertex_views(vertices: Seq<IrVertex>) -> Seq<VertexView> {
    Seq::new(vertices.len(), |i: int| vertices[i]@)
}

/// One draw of decoded vertices.
#[derive(Debug, Clone, Copy, PartialEq, Eq)]
pub struct IrDraw {
    /// First vertex within the submission.
    pub start_vertex: usize,
    /// Number of vertices.
    pub vertex_count: usize,
    /// Fixed state.
    pub pipeline: IrPipelineState,
    /// Sampled texture.
    pub texture: Option<IrTextureSpec>,
    /// Sampling.
    pub sampler: Option<IrSamplerState>,
    /// Transform and color.
    pub uniforms: IrUniforms,
    /// Drawn area.
    pub scissor: IrRect,
}

/// The contents of a draw.
#[verifier::ext_equal]
pub struct DrawView {
    pub start_vertex: nat,
    pub vertex_count: nat,
    pub pipeline: IrPipelineState,
    pub texture: Option<IrTextureSpec>,
    pub sampler: Option<IrSamplerState>,
    pub uniforms: UniformsView,
    pub scissor: IrRect,
}

impl View for IrDraw {
    type V = DrawView;

    open spec fn view(&self) -> DrawView {
        DrawView {
            start_vertex: self.start_vertex as nat,
            vertex_count: self.vertex_count as nat,
            pipeline: self.pipeline,
            texture: self.texture,
            sampler: self.sampler,
            uniforms: self.uniforms@,
            scissor: self.scissor,
        }
    }
}

/// The contents of draws.
pub open spec fn draw_views(draws: Seq<IrDraw>) -> Seq<DrawView> {
    Seq::new(draws.len(), |i: int| draws[i]@)
}

/// Pixels of a texture region, converted to BGRA rows without padding.
#[derive(Debug)]
pub struct IrTextureUpload {
    /// Written texture.
    pub texture: IrTextureSpec,
    /// Written region.
    pub destination: IrRect,
    /// BGRA pixels.
    pub pixels: Vec<u8>,
}

/// The contents of an upload.
#[verifier::ext_equal]
pub struct UploadView {
    pub texture: IrTextureSpec,
    pub destination: IrRect,
    pub pixels: Seq<u8>,
}

impl View for IrTextureUpload {
    type V = UploadView;

    open spec fn view(&self) -> UploadView {
        UploadView {
            texture: self.texture,
            destination: self.destination,
            pixels: self.pixels@,
        }
    }
}

/// A copy between equal regions of two textures.
#[derive(Debug, Clone, Copy, PartialEq, Eq, Structural)]
pub struct IrTextureCopy {
    /// Read texture.
    pub source: IrTextureSpec,
    /// Read region.
    pub source_rect: IrRect,
    /// Written texture.
    pub destination: IrTextureSpec,
    /// Written region.
    pub destination_rect: IrRect,
}

/// One render pass ready for encoding.
#[derive(Debug)]
pub struct IrSubmission {
    /// Color that the render area is cleared to first.
    pub clear_color: Option<[u32; 4]>,
    /// Area that the pass may change.
    pub render_area: IrRect,
    /// Decoded vertices of all draws.
    pub vertices: Vec<IrVertex>,
    /// Draws in order.
    pub draws: Vec<IrDraw>,
    /// Uploads made just before the pass.
    pub texture_uploads: Vec<IrTextureUpload>,
}

/// The contents of a submission.
#[verifier::ext_equal]
pub struct SubmissionView {
    pub clear_color: Option<Seq<u32>>,
    pub render_area: IrRect,
    pub vertices: Seq<VertexView>,
    pub draws: Seq<DrawView>,
    pub texture_uploads: Seq<UploadView>,
}

/// The contents of uploads.
pub open spec fn upload_views(uploads: Seq<IrTextureUpload>) -> Seq<UploadView> {
    Seq::new(uploads.len(), |i: int| uploads[i]@)
}

/// The contents of an optional color.
pub open spec fn color_view(color: Option<[u32; 4]>) -> Option<Seq<u32>> {
    match color {
        Some(components) => Some(components@),
        None => None,
    }
}

impl View for IrSubmission {
    type V = SubmissionView;

    open spec fn view(&self) -> SubmissionView {
        SubmissionView {
            clear_color: color_view(self.clear_color),
            render_area: self.render_area,
            vertices: vertex_views(self.vertices@),
            draws: draw_views(self.draws@),
            texture_uploads: upload_views(self.texture_uploads@),
        }
    }
}

} // verus!
