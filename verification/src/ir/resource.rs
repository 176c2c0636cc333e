//! Logical resource descriptors.

use crate::ir::float::{is_at_most, is_finite};
use crate::ir::pipeline::CompareFunction;
use crate::ir::types::{Error, Extent2D, ExtentView, PixelRect};
use vstd::prelude::*;

verus! {

/// Portable texture pixel format.
#[derive(Debug, Clone, Copy, PartialEq, Eq, Structural)]
pub enum TextureFormat {
    /// Eight-bit blue, green, red, and alpha channels.
    Bgra8Unorm,
    /// Eight-bit red, green, blue, and alpha channels.
    Rgba8Unorm,
    /// Eight-bit red, green, blue, and alpha channels with sRGB-encoded color.
    Rgba8UnormSrgb,
    /// One eight-bit normalized red channel.
    R8Unorm,
    /// One 32-bit floating-point depth component.
    Depth32Float,
}

impl TextureFormat {
    /// Bytes of one tightly packed pixel.
    pub open spec fn spec_bytes_per_pixel(self) -> u32 {
        if self == TextureFormat::R8Unorm {
            1
        } else {
            4
        }
    }

    /// Whether `other` differs from this format at most in its color encoding.
    pub open spec fn spec_view_compatible(self, other: Self) -> bool {
        self == other || (self == TextureFormat::Rgba8Unorm && other
            == TextureFormat::Rgba8UnormSrgb) || (self == TextureFormat::Rgba8UnormSrgb && other
            == TextureFormat::Rgba8Unorm)
    }

    /// Return the number of bytes per tightly packed pixel.
    #[verifier::when_used_as_spec(spec_bytes_per_pixel)]
    pub fn bytes_per_pixel(self) -> (r: u32)
        ensures
            r == self.spec_bytes_per_pixel(),
    {
        match self {
            TextureFormat::R8Unorm => 1,
            _ => 4,
        }
    }

    /// Return whether a texture of this format can be viewed as `other`.
    #[verifier::when_used_as_spec(spec_view_compatible)]
    pub fn view_compatible(self, other: Self) -> (r: bool)
        ensures
            r == self.spec_view_compatible(other),
    {
        self == other || (self == TextureFormat::Rgba8Unorm && other
            == TextureFormat::Rgba8UnormSrgb) || (self == TextureFormat::Rgba8UnormSrgb && other
            == TextureFormat::Rgba8Unorm)
    }
}

/// View compatibility is an equivalence, and compatible formats have equally large pixels.
pub proof fn law_view_compatibility(a: TextureFormat, b: TextureFormat, c: TextureFormat)
    ensures
        a.view_compatible(a),
        a.view_compatible(b) == b.view_compatible(a),
        a.view_compatible(b) && b.view_compatible(c) ==> a.view_compatible(c),
        a.view_compatible(b) ==> a.bytes_per_pixel() == b.bytes_per_pixel(),
{
}

/// Allowed operations for a texture, as a set of flags.
#[derive(Debug, Clone, Copy, PartialEq, Eq, Structural)]
pub struct TextureUsage {
    bits: u8,
}

impl View for TextureUsage {
    type V = u8;

    closed spec fn view(&self) -> u8 {
        self.bits
    }
}

impl TextureUsage {
    /// Bit of the flag that allows shader sampling.
    pub const SAMPLED_BIT: u8 = 1;

    /// Bit of the flag that allows render-pass attachment.
    pub const RENDER_ATTACHMENT_BIT: u8 = 2;

    /// Bit of the flag that allows copies out of the texture.
    pub const COPY_SRC_BIT: u8 = 4;

    /// Bit of the flag that allows copies and uploads into the texture.
    pub const COPY_DST_BIT: u8 = 8;

    /// Bit of the flag that allows presentation.
    pub const PRESENT_BIT: u8 = 16;

    /// Bit of the flag that allows shader storage writes.
    pub const STORAGE_BIT: u8 = 32;

    /// Whether every flag in `mask` is present.
    pub open spec fn allows(self, mask: u8) -> bool {
        self@ & mask == mask
    }

    /// The set with the flags of both operands.
    pub closed spec fn spec_union(self, other: Self) -> Self {
        Self { bits: self.bits | other.bits }
    }

    /// Return the flag that allows shader sampling.
    pub fn sampled() -> (r: Self)
        ensures
            r@ == Self::SAMPLED_BIT,
    {
        Self { bits: Self::SAMPLED_BIT }
    }

    /// Return the flag that allows render-pass attachment.
    pub fn render_attachment() -> (r: Self)
        ensures
            r@ == Self::RENDER_ATTACHMENT_BIT,
    {
        Self { bits: Self::RENDER_ATTACHMENT_BIT }
    }

    /// Return the flag that allows copies out of the texture.
    pub fn copy_src() -> (r: Self)
        ensures
            r@ == Self::COPY_SRC_BIT,
    {
        Self { bits: Self::COPY_SRC_BIT }
    }

    /// Return the flag that allows copies and uploads into the texture.
    pub fn copy_dst() -> (r: Self)
        ensures
            r@ == Self::COPY_DST_BIT,
    {
        Self { bits: Self::COPY_DST_BIT }
    }

    /// Return the flag that allows presentation.
    pub fn present() -> (r: Self)
        ensures
            r@ == Self::PRESENT_BIT,
    {
        Self { bits: Self::PRESENT_BIT }
    }

    /// Return the flag that allows shader storage writes.
    pub fn storage() -> (r: Self)
        ensures
            r@ == Self::STORAGE_BIT,
    {
        Self { bits: Self::STORAGE_BIT }
    }

    /// Return the empty set.
    pub fn empty() -> (r: Self)
        ensures
            r@ == 0,
    {
        Self { bits: 0 }
    }

    /// Return whether no flag is present.
    pub fn is_empty(self) -> (r: bool)
        ensures
            r == (self@ == 0),
    {
        self.bits == 0
    }

    /// Return whether all flags in `other` are present.
    pub fn contains(self, other: Self) -> (r: bool)
        ensures
            r == self.allows(other@),
    {
        self.bits & other.bits == other.bits
    }

    /// Return the union of this set and `other`.
    pub fn union(self, other: Self) -> (r: Self)
        ensures
            r == self.spec_union(other),
            r@ == self@ | other@,
    {
        Self { bits: self.bits | other.bits }
    }
}

impl core::ops::BitOr for TextureUsage {
    type Output = Self;

    fn bitor(self, rhs: Self) -> Self {
        self.union(rhs)
    }
}

impl core::ops::BitOrAssign for TextureUsage {
    fn bitor_assign(&mut self, rhs: Self)
        ensures
            *final(self) == old(self).spec_union(rhs),
    {
        *self = self.union(rhs);
    }
}

impl vstd::std_specs::ops::BitOrSpecImpl for TextureUsage {
    open spec fn obeys_bitor_spec() -> bool {
        true
    }

    open spec fn bitor_req(self, rhs: Self) -> bool {
        true
    }

    open spec fn bitor_spec(self, rhs: Self) -> Self {
        self.spec_union(rhs)
    }
}

/// Allowed operations for a buffer, as a set of flags.
#[derive(Debug, Clone, Copy, PartialEq, Eq, Structural)]
pub struct BufferUsage {
    bits: u8,
}

impl View for BufferUsage {
    type V = u8;

    closed spec fn view(&self) -> u8 {
        self.bits
    }
}

impl BufferUsage {
    /// Bit of the flag that allows vertex fetch.
    pub const VERTEX_BIT: u8 = 1;

    /// Bit of the flag that allows index fetch.
    pub const INDEX_BIT: u8 = 2;

    /// Bit of the flag that allows copies out of the buffer.
    pub const COPY_SRC_BIT: u8 = 4;

    /// Bit of the flag that allows copies and uploads into the buffer.
    pub const COPY_DST_BIT: u8 = 8;

    /// Bit of the flag that allows uniform reads in shaders.
    pub const UNIFORM_BIT: u8 = 16;

    /// Bit of the flag that allows shader storage access.
    pub const STORAGE_BIT: u8 = 32;

    /// Whether every flag in `mask` is present.
    pub open spec fn allows(self, mask: u8) -> bool {
        self@ & mask == mask
    }

    /// The set with the flags of both operands.
    pub closed spec fn spec_union(self, other: Self) -> Self {
        Self { bits: self.bits | other.bits }
    }

    /// Return the flag that allows vertex fetch.
    pub fn vertex() -> (r: Self)
        ensures
            r@ == Self::VERTEX_BIT,
    {
        Self { bits: Self::VERTEX_BIT }
    }

    /// Return the flag that allows index fetch.
    pub fn index() -> (r: Self)
        ensures
            r@ == Self::INDEX_BIT,
    {
        Self { bits: Self::INDEX_BIT }
    }

    /// Return the flag that allows copies out of the buffer.
    pub fn copy_src() -> (r: Self)
        ensures
            r@ == Self::COPY_SRC_BIT,
    {
        Self { bits: Self::COPY_SRC_BIT }
    }

    /// Return the flag that allows copies and uploads into the buffer.
    pub fn copy_dst() -> (r: Self)
        ensures
            r@ == Self::COPY_DST_BIT,
    {
        Self { bits: Self::COPY_DST_BIT }
    }

    /// Return the flag that allows uniform reads in shaders.
    pub fn uniform() -> (r: Self)
        ensures
            r@ == Self::UNIFORM_BIT,
    {
        Self { bits: Self::UNIFORM_BIT }
    }

    /// Return the flag that allows shader storage access.
    pub fn storage() -> (r: Self)
        ensures
            r@ == Self::STORAGE_BIT,
    {
        Self { bits: Self::STORAGE_BIT }
    }

    /// Return the empty set.
    pub fn empty() -> (r: Self)
        ensures
            r@ == 0,
    {
        Self { bits: 0 }
    }

    /// Return whether no flag is present.
    pub fn is_empty(self) -> (r: bool)
        ensures
            r == (self@ == 0),
    {
        self.bits == 0
    }

    /// Return whether all flags in `other` are present.
    pub fn contains(self, other: Self) -> (r: bool)
        ensures
            r == self.allows(other@),
    {
        self.bits & other.bits == other.bits
    }

    /// Return the union of this set and `other`.
    pub fn union(self, other: Self) -> (r: Self)
        ensures
            r == self.spec_union(other),
            r@ == self@ | other@,
    {
        Self { bits: self.bits | other.bits }
    }
}

impl core::ops::BitOr for BufferUsage {
    type Output = Self;

    fn bitor(self, rhs: Self) -> Self {
        self.union(rhs)
    }
}

impl core::ops::BitOrAssign for BufferUsage {
    fn bitor_assign(&mut self, rhs: Self)
        ensures
            *final(self) == old(self).spec_union(rhs),
    {
        *self = self.union(rhs);
    }
}

impl vstd::std_specs::ops::BitOrSpecImpl for BufferUsage {
    open spec fn obeys_bitor_spec() -> bool {
        true
    }

    open spec fn bitor_req(self, rhs: Self) -> bool {
        true
    }

    open spec fn bitor_spec(self, rhs: Self) -> Self {
        self.spec_union(rhs)
    }
}

/// The union of two usage sets allows exactly what both parts allow, in either order.
pub proof fn law_usage_union(a: u8, b: u8, mask: u8)
    ensures
        (a | b) & mask == mask <== a & mask == mask,
        (a | b) & a == a,
        (a | b) & b == b,
        a | b == b | a,
        (a & mask == mask && b & a == a) ==> b & mask == mask,
        mask == 0 ==> a & mask == mask,
{
    assert((a & mask == mask) ==> ((a | b) & mask == mask)) by (bit_vector);
    assert((a | b) & a == a && (a | b) & b == b && a | b == b | a) by (bit_vector);
    assert((a & mask == mask && b & a == a) ==> b & mask == mask) by (bit_vector);
    assert(mask == 0 ==> a & mask == mask) by (bit_vector);
}

/// The larger dimension of an extent.
pub open spec fn longest_side(extent: ExtentView) -> nat {
    if extent.width >= extent.height {
        extent.width as nat
    } else {
        extent.height as nat
    }
}

/// Number of levels in a complete mip chain: one more than the binary
/// logarithm of the longest side, rounded down.
pub open spec fn complete_mip_levels(extent: ExtentView) -> nat {
    (vstd::arithmetic::logarithm::log(2, longest_side(extent) as int) + 1) as nat
}

/// A side of mip level `level`: halved `level` times, rounded down, and at least one.
pub open spec fn mip_side(side: u32, level: nat) -> u32 {
    let halved = (side as nat / vstd::arithmetic::power2::pow2(level)) as u32;
    if halved == 0 {
        1
    } else {
        halved
    }
}

/// The fields of a texture descriptor.
pub struct TextureDescView {
    pub format: TextureFormat,
    pub extent: ExtentView,
    pub usage: TextureUsage,
    pub mip_level_count: u32,
    pub array_layer_count: u32,
}

impl TextureDescView {
    /// Whether a format can carry a usage: it is not empty, storage is for
    /// `Rgba8Unorm` alone, and depth is only rendered to and sampled.
    pub open spec fn usage_fits(format: TextureFormat, usage: TextureUsage) -> bool {
        &&& usage@ != 0
        &&& usage.allows(TextureUsage::STORAGE_BIT) ==> format == TextureFormat::Rgba8Unorm
        &&& format == TextureFormat::Depth32Float ==> usage@ & 3 == usage@
    }

    /// Whether a mip chain of `count` levels fits the texture.
    pub open spec fn mip_levels_fit(self, count: u32) -> bool {
        &&& 1 <= count <= complete_mip_levels(self.extent)
        &&& count > 1 ==> self.format != TextureFormat::Depth32Float && !self.usage.allows(
            TextureUsage::PRESENT_BIT,
        )
    }

    /// Whether the texture can have `count` layers.
    pub open spec fn array_layers_fit(self, count: u32) -> bool {
        count >= 1 && (count > 1 ==> !self.usage.allows(TextureUsage::PRESENT_BIT))
    }

    /// What every descriptor keeps.
    pub open spec fn valid(self) -> bool {
        &&& self.extent.width > 0
        &&& self.extent.height > 0
        &&& Self::usage_fits(self.format, self.usage)
        &&& self.mip_levels_fit(self.mip_level_count)
        &&& self.array_layers_fit(self.array_layer_count)
    }

    /// The extent of one mip level.
    pub open spec fn mip_extent(self, level: nat) -> ExtentView {
        ExtentView {
            width: mip_side(self.extent.width, level),
            height: mip_side(self.extent.height, level),
        }
    }

    /// Bytes of one layer of one mip level.
    pub open spec fn level_bytes(self, level: nat) -> nat {
        self.mip_extent(level).width as nat * self.mip_extent(level).height as nat
            * self.format.bytes_per_pixel() as nat
    }

    /// Bytes of one layer of the first `levels` mip levels.
    pub open spec fn chain_bytes(self, levels: nat) -> nat
        decreases levels,
    {
        if levels == 0 {
            0
        } else {
            self.chain_bytes((levels - 1) as nat) + self.level_bytes((levels - 1) as nat)
        }
    }

    /// Bytes of all levels of all layers, tightly packed.
    pub open spec fn total_bytes(self) -> nat {
        self.chain_bytes(self.mip_level_count as nat) * self.array_layer_count as nat
    }
}

/// Validated logical texture description.
#[derive(Debug, Clone, Copy, PartialEq, Eq, Structural)]
pub struct TextureDesc {
    format: TextureFormat,
    extent: Extent2D,
    usage: TextureUsage,
    mip_level_count: u32,
    array_layer_count: u32,
}

impl View for TextureDesc {
    type V = TextureDescView;

    closed spec fn view(&self) -> TextureDescView {
        TextureDescView {
            format: self.format,
            extent: self.extent@,
            usage: self.usage,
            mip_level_count: self.mip_level_count,
            array_layer_count: self.array_layer_count,
        }
    }
}

/// A chain is never longer than 32 levels, since sides fit in 32 bits.
proof fn lemma_complete_chain_is_short(extent: ExtentView)
    requires
        extent.width > 0,
        extent.height > 0,
    ensures
        1 <= complete_mip_levels(extent) <= 32,
{
    let side = longest_side(extent) as int;
    vstd::arithmetic::logarithm::lemma_log_nonnegative(2, side);
    assert(vstd::arithmetic::power::pow(2, 32) == 0x1_0000_0000) by {
        vstd::arithmetic::power2::lemma_pow2(32);
        vstd::arithmetic::power2::lemma2_to64();
    }
    vstd::arithmetic::logarithm::lemma_log_pow(2, 32);
    let top = 0x1_0000_0000int;
    if vstd::arithmetic::logarithm::log(2, side) >= 32 {
        lemma_log_lower_bound(side as nat);
        vstd::arithmetic::power2::lemma2_to64();
        let n = vstd::arithmetic::logarithm::log(2, side) as nat;
        if n > 32 {
            vstd::arithmetic::power2::lemma_pow2_strictly_increases(32, n);
        }
    }
}

/// Two to the power of the binary logarithm does not exceed the number.
proof fn lemma_log_lower_bound(n: nat)
    requires
        n > 0,
    ensures
        vstd::arithmetic::logarithm::log(2, n as int) >= 0,
        vstd::arithmetic::power2::pow2(vstd::arithmetic::logarithm::log(2, n as int) as nat) <= n,
    decreases n,
{
    vstd::arithmetic::logarithm::lemma_log_nonnegative(2, n as int);
    vstd::arithmetic::power2::lemma2_to64();
    if n < 2 {
        vstd::arithmetic::logarithm::lemma_log0(2, n as int);
    } else {
        vstd::arithmetic::logarithm::lemma_log_s(2, n as int);
        lemma_log_lower_bound(n / 2);
        let k = vstd::arithmetic::logarithm::log(2, (n / 2) as int) as nat;
        vstd::arithmetic::power2::lemma_pow2_unfold((k + 1) as nat);
    }
}

impl TextureDesc {
    #[verifier::type_invariant]
    spec fn well_formed(self) -> bool {
        self@.valid()
    }

    /// Describe a texture with one mip level and one layer.
    ///
    /// Returns `Error::InvalidDescriptor` for an empty usage, for storage usage
    /// of a format other than `Rgba8Unorm`, and for a depth format that is used
    /// for more than rendering and sampling.
    pub fn new(format: TextureFormat, extent: Extent2D, usage: TextureUsage) -> (r: Result<
        Self,
        Error,
    >)
        ensures
            match r {
                Ok(desc) => TextureDescView::usage_fits(format, usage) && desc@ == (
                TextureDescView {
                    format,
                    extent: extent@,
                    usage,
                    mip_level_count: 1,
                    array_layer_count: 1,
                }) && desc@.valid(),
                Err(error) => error == Error::InvalidDescriptor && !TextureDescView::usage_fits(
                    format,
                    usage,
                ),
            },
    {
        if usage.is_empty() || (usage.contains(TextureUsage::storage()) && format
            != TextureFormat::Rgba8Unorm) || (format == TextureFormat::Depth32Float && usage.bits
            & 3 != usage.bits) {
            Err(Error::InvalidDescriptor)
        } else {
            let _width: u32 = extent.width();
            let _height: u32 = extent.height();
            proof {
                lemma_complete_chain_is_short(extent@);
            }
            Ok(Self { format, extent, usage, mip_level_count: 1, array_layer_count: 1 })
        }
    }

    /// Return the pixel format.
    pub fn format(self) -> (r: TextureFormat)
        ensures
            r == self@.format,
    {
        self.format
    }

    /// Return the extent of mip level zero.
    pub fn extent(self) -> (r: Extent2D)
        ensures
            r@ == self@.extent,
    {
        self.extent
    }

    /// Return the allowed operations.
    pub fn usage(self) -> (r: TextureUsage)
        ensures
            r == self@.usage,
    {
        self.usage
    }

    /// Return a copy with `count` mip levels.
    ///
    /// Returns `Error::InvalidDescriptor` for no levels, more than a complete
    /// chain, or several levels of a depth or presentation image.
    pub fn with_mip_level_count(self, count: u32) -> (r: Result<Self, Error>)
        ensures
            match r {
                Ok(desc) => self@.mip_levels_fit(count) && desc@ == (TextureDescView {
                    mip_level_count: count,
                    ..self@
                }) && desc@.valid(),
                Err(error) => error == Error::InvalidDescriptor && !self@.mip_levels_fit(count),
            },
    {
        proof {
            use_type_invariant(&self);
        }
        let width: u32 = self.extent.width();
        let height: u32 = self.extent.height();
        let mut side: u32 = if width >= height {
            width
        } else {
            height
        };
        let ghost longest = side;
        let mut maximum: u32 = 1;
        proof {
            lemma_complete_chain_is_short(self.extent@);
            vstd::arithmetic::logarithm::lemma_log_nonnegative(2, side as int);
        }
        while side > 1
            invariant
                side >= 1,
                maximum >= 1,
                vstd::arithmetic::logarithm::log(2, side as int) >= 0,
                maximum + vstd::arithmetic::logarithm::log(2, side as int)
                    == vstd::arithmetic::logarithm::log(2, longest as int) + 1,
                vstd::arithmetic::logarithm::log(2, longest as int) < 32,
            decreases side,
        {
            proof {
                vstd::arithmetic::logarithm::lemma_log_s(2, side as int);
                vstd::arithmetic::logarithm::lemma_log_nonnegative(2, side as int / 2);
            }
            side = side / 2;
            maximum = maximum + 1;
        }
        proof {
            vstd::arithmetic::logarithm::lemma_log0(2, side as int);
            assert(maximum == complete_mip_levels(self@.extent));
        }
        if count == 0 || count > maximum || (count > 1 && (self.format
            == TextureFormat::Depth32Float || self.usage.contains(TextureUsage::present()))) {
            return Err(Error::InvalidDescriptor);
        }
        Ok(
            Self {
                format: self.format,
                extent: self.extent,
                usage: self.usage,
                mip_level_count: count,
                array_layer_count: self.array_layer_count,
            },
        )
    }

    /// Return the number of mip levels, from 1 through 32.
    pub fn mip_level_count(self) -> (r: u32)
        ensures
            r == self@.mip_level_count,
            1 <= r <= 32,
    {
        proof {
            use_type_invariant(&self);
            lemma_complete_chain_is_short(self@.extent);
        }
        self.mip_level_count
    }

    /// Return a copy with `count` array layers.
    ///
    /// Returns `Error::InvalidDescriptor` for no layers, or several layers of a
    /// presentation image.
    pub fn with_array_layer_count(self, count: u32) -> (r: Result<Self, Error>)
        ensures
            match r {
                Ok(desc) => self@.array_layers_fit(count) && desc@ == (TextureDescView {
                    array_layer_count: count,
                    ..self@
                }) && desc@.valid(),
                Err(error) => error == Error::InvalidDescriptor && !self@.array_layers_fit(count),
            },
    {
        proof {
            use_type_invariant(&self);
        }
        if count == 0 || (count > 1 && self.usage.contains(TextureUsage::present())) {
            return Err(Error::InvalidDescriptor);
        }
        Ok(
            Self {
                format: self.format,
                extent: self.extent,
                usage: self.usage,
                mip_level_count: self.mip_level_count,
                array_layer_count: count,
            },
        )
    }

    /// Return the number of array layers.
    pub fn array_layer_count(self) -> (r: u32)
        ensures
            r == self@.array_layer_count,
            r >= 1,
    {
        proof {
            use_type_invariant(&self);
        }
        self.array_layer_count
    }

    /// Return the extent of one mip level: both sides halved `level` times,
    /// rounded down, and at least one.
    ///
    /// Returns `Error::OutOfBounds` for a level past the last.
    pub fn mip_extent(self, level: u32) -> (r: Result<Extent2D, Error>)
        ensures
            match r {
                Ok(extent) => level < self@.mip_level_count && extent@ == self@.mip_extent(
                    level as nat,
                ),
                Err(error) => error == Error::OutOfBounds && level >= self@.mip_level_count,
            },
    {
        proof {
            use_type_invariant(&self);
            lemma_complete_chain_is_short(self@.extent);
        }
        if level >= self.mip_level_count {
            return Err(Error::OutOfBounds);
        }
        let width: u32 = self.extent.width();
        let height: u32 = self.extent.height();
        proof {
            vstd::bits::lemma_u32_shr_is_div(width, level);
            vstd::bits::lemma_u32_shr_is_div(height, level);
        }
        let shifted_width: u32 = width >> level;
        let shifted_height: u32 = height >> level;
        let mip_width: u32 = if shifted_width == 0 {
            1
        } else {
            shifted_width
        };
        let mip_height: u32 = if shifted_height == 0 {
            1
        } else {
            shifted_height
        };
        Extent2D::new(mip_width, mip_height)
    }

    /// Return the bytes of all levels and layers, tightly packed.
    ///
    /// Returns `Error::Overflow` exactly when the sum does not fit in 64 bits.
    pub fn byte_size(self) -> (r: Result<u64, Error>)
        ensures
            match r {
                Ok(size) => size == self@.total_bytes(),
                Err(error) => error == Error::Overflow && self@.total_bytes() > u64::MAX,
            },
    {
        proof {
            use_type_invariant(&self);
        }
        let mut size: u64 = 0;
        let mut level: u32 = 0;
        let count: u32 = self.mip_level_count;
        while level < count
            invariant
                level <= count,
                count == self@.mip_level_count,
                self@.array_layer_count >= 1,
                size == self@.chain_bytes(level as nat),
            decreases count - level,
        {
            let extent = match self.mip_extent(level) {
                Ok(extent) => extent,
                Err(error) => return Err(error),
            };
            proof {
                lemma_chain_grows(self@, (level + 1) as nat, count as nat);
            }
            let width: u64 = extent.width() as u64;
            let height: u64 = extent.height() as u64;
            let texel: u64 = self.format.bytes_per_pixel() as u64;
            assert(width * height <= u64::MAX) by (nonlinear_arith)
                requires
                    width <= u32::MAX,
                    height <= u32::MAX,
            ;
            let pixels: u64 = width * height;
            assert(self@.level_bytes(level as nat) == pixels * texel);
            let bytes: u64 = match pixels.checked_mul(texel) {
                Some(bytes) => bytes,
                None => return Err(Error::Overflow),
            };
            size = match size.checked_add(bytes) {
                Some(size) => size,
                None => return Err(Error::Overflow),
            };
            level = level + 1;
        }
        match size.checked_mul(self.array_layer_count as u64) {
            Some(total) => Ok(total),
            None => Err(Error::Overflow),
        }
    }
}

/// Bytes only grow with more levels and more layers.
proof fn lemma_chain_grows(desc: TextureDescView, some: nat, all: nat)
    requires
        some <= all,
        all == desc.mip_level_count,
        desc.array_layer_count >= 1,
    ensures
        desc.chain_bytes(some) <= desc.chain_bytes(all) <= desc.total_bytes(),
    decreases all - some,
{
    let chain = desc.chain_bytes(all);
    let layers = desc.array_layer_count as nat;
    assert(chain <= chain * layers) by (nonlinear_arith)
        requires
            layers >= 1,
    ;
    lemma_chain_monotonic(desc, some, all);
}

proof fn lemma_chain_monotonic(desc: TextureDescView, some: nat, all: nat)
    requires
        some <= all,
    ensures
        desc.chain_bytes(some) <= desc.chain_bytes(all),
    decreases all - some,
{
    if some < all {
        lemma_chain_monotonic(desc, some + 1, all);
    }
}

/// The fields of a buffer descriptor.
pub struct BufferDescView {
    pub size: u64,
    pub usage: BufferUsage,
}

/// Validated logical buffer description.
#[derive(Debug, Clone, Copy, PartialEq, Eq, Structural)]
pub struct BufferDesc {
    size: u64,
    usage: BufferUsage,
}

impl View for BufferDesc {
    type V = BufferDescView;

    closed spec fn view(&self) -> BufferDescView {
        BufferDescView { size: self.size, usage: self.usage }
    }
}

impl BufferDesc {
    /// Describe a buffer.
    ///
    /// Returns `Error::InvalidDescriptor` for a zero size or an empty usage.
    pub fn new(size: u64, usage: BufferUsage) -> (r: Result<Self, Error>)
        ensures
            match r {
                Ok(desc) => desc@ == (BufferDescView { size, usage }) && size > 0 && usage@ != 0,
                Err(error) => error == Error::InvalidDescriptor && (size == 0 || usage@ == 0),
            },
    {
        if size == 0 || usage.is_empty() {
            Err(Error::InvalidDescriptor)
        } else {
            Ok(Self { size, usage })
        }
    }

    /// Return the size in bytes.
    pub fn size(self) -> (r: u64)
        ensures
            r == self@.size,
    {
        self.size
    }

    /// Return the allowed operations.
    pub fn usage(self) -> (r: BufferUsage)
        ensures
            r == self@.usage,
    {
        self.usage
    }
}

/// Texture filtering mode.
#[derive(Debug, Clone, Copy, PartialEq, Eq, Structural)]
pub enum FilterMode {
    /// Select the nearest texel or level.
    Nearest,
    /// Interpolate linearly.
    Linear,
}

/// Texture coordinate addressing mode.
#[derive(Debug, Clone, Copy, PartialEq, Eq, Structural)]
pub enum AddressMode {
    /// Clamp coordinates to the edge texel.
    ClampToEdge,
    /// Repeat the texture.
    Repeat,
    /// Repeat the texture, mirrored every other time.
    MirrorRepeat,
}

/// The fields of a sampler descriptor.
pub struct SamplerDescView {
    pub min_filter: FilterMode,
    pub mag_filter: FilterMode,
    pub address_u: AddressMode,
    pub address_v: AddressMode,
    pub mip_filter: FilterMode,
    pub min_lod: u32,
    pub max_lod: u32,
    pub compare: Option<CompareFunction>,
}

/// Whether two levels of detail are finite, not negative and in order.
pub open spec fn lod_range_valid(min_lod: u32, max_lod: u32) -> bool {
    &&& crate::ir::float::finite(min_lod)
    &&& crate::ir::float::finite(max_lod)
    &&& 0 <= crate::ir::float::scaled_value(min_lod) <= crate::ir::float::scaled_value(max_lod)
}

/// The pattern with negative zero replaced by zero.
pub open spec fn without_negative_zero(bits: u32) -> u32 {
    if crate::ir::float::zero(bits) {
        0
    } else {
        bits
    }
}

/// Logical texture sampler. Levels of detail are single-precision bit patterns.
#[derive(Debug, Clone, Copy, PartialEq, Eq, Structural)]
pub struct SamplerDesc {
    min_filter: FilterMode,
    mag_filter: FilterMode,
    address_u: AddressMode,
    address_v: AddressMode,
    mip_filter: FilterMode,
    min_lod: u32,
    max_lod: u32,
    compare: Option<CompareFunction>,
}

impl View for SamplerDesc {
    type V = SamplerDescView;

    closed spec fn view(&self) -> SamplerDescView {
        SamplerDescView {
            min_filter: self.min_filter,
            mag_filter: self.mag_filter,
            address_u: self.address_u,
            address_v: self.address_v,
            mip_filter: self.mip_filter,
            min_lod: self.min_lod,
            max_lod: self.max_lod,
            compare: self.compare,
        }
    }
}

impl SamplerDesc {
    /// Describe a sampler of mip level zero without comparison.
    pub fn new(
        min_filter: FilterMode,
        mag_filter: FilterMode,
        address_u: AddressMode,
        address_v: AddressMode,
    ) -> (r: Self)
        ensures
            r@ == (SamplerDescView {
                min_filter,
                mag_filter,
                address_u,
                address_v,
                mip_filter: FilterMode::Nearest,
                min_lod: 0,
                max_lod: 0,
                compare: None,
            }),
    {
        Self {
            min_filter,
            mag_filter,
            address_u,
            address_v,
            mip_filter: FilterMode::Nearest,
            min_lod: 0,
            max_lod: 0,
            compare: None,
        }
    }

    /// Return the minification filter.
    pub fn min_filter(self) -> (r: FilterMode)
        ensures
            r == self@.min_filter,
    {
        self.min_filter
    }

    /// Return the magnification filter.
    pub fn mag_filter(self) -> (r: FilterMode)
        ensures
            r == self@.mag_filter,
    {
        self.mag_filter
    }

    /// Return the horizontal addressing mode.
    pub fn address_u(self) -> (r: AddressMode)
        ensures
            r == self@.address_u,
    {
        self.address_u
    }

    /// Return the vertical addressing mode.
    pub fn address_v(self) -> (r: AddressMode)
        ensures
            r == self@.address_v,
    {
        self.address_v
    }

    /// Return the filter between mip levels.
    pub fn mip_filter(self) -> (r: FilterMode)
        ensures
            r == self@.mip_filter,
    {
        self.mip_filter
    }

    /// Return the smallest level of detail as a bit pattern.
    pub fn min_lod(self) -> (r: u32)
        ensures
            r == self@.min_lod,
    {
        self.min_lod
    }

    /// Return the largest level of detail as a bit pattern.
    pub fn max_lod(self) -> (r: u32)
        ensures
            r == self@.max_lod,
    {
        self.max_lod
    }

    /// Return the depth comparison, if the sampler compares.
    pub fn compare(self) -> (r: Option<CompareFunction>)
        ensures
            r == self@.compare,
    {
        self.compare
    }

    /// Return a copy that samples mip levels between two levels of detail,
    /// given as single-precision bit patterns.
    ///
    /// Returns `Error::InvalidValue` unless both are finite, not negative and in order.
    pub fn with_mip_filter(self, filter: FilterMode, min_lod: u32, max_lod: u32) -> (r: Result<
        Self,
        Error,
    >)
        ensures
            match r {
                Ok(desc) => lod_range_valid(min_lod, max_lod) && desc@ == (SamplerDescView {
                    mip_filter: filter,
                    min_lod: without_negative_zero(min_lod),
                    max_lod: without_negative_zero(max_lod),
                    ..self@
                }),
                Err(error) => error == Error::InvalidValue && !lod_range_valid(min_lod, max_lod),
            },
    {
        if !is_finite(min_lod) || !is_finite(max_lod) || !is_at_most(0, min_lod) || !is_at_most(
            min_lod,
            max_lod,
        ) {
            return Err(Error::InvalidValue);
        }
        let min_bits: u32 = if min_lod == crate::ir::float::NEGATIVE_ZERO_BITS {
            0
        } else {
            min_lod
        };
        let max_bits: u32 = if max_lod == crate::ir::float::NEGATIVE_ZERO_BITS {
            0
        } else {
            max_lod
        };
        Ok(
            Self {
                min_filter: self.min_filter,
                mag_filter: self.mag_filter,
                address_u: self.address_u,
                address_v: self.address_v,
                mip_filter: filter,
                min_lod: min_bits,
                max_lod: max_bits,
                compare: self.compare,
            },
        )
    }

    /// Return a copy with or without a depth comparison.
    pub fn with_compare(self, compare: Option<CompareFunction>) -> (r: Self)
        ensures
            r@ == (SamplerDescView { compare, ..self@ }),
    {
        Self {
            min_filter: self.min_filter,
            mag_filter: self.mag_filter,
            address_u: self.address_u,
            address_v: self.address_v,
            mip_filter: self.mip_filter,
            min_lod: self.min_lod,
            max_lod: self.max_lod,
            compare,
        }
    }
}

/// The fields of a texture upload.
pub struct TextureWriteView {
    pub destination: PixelRect,
    pub bytes_per_row: u32,
    pub data: Seq<u8>,
    pub mip_level: u32,
    pub array_layer: u32,
}

/// Borrowed pixels for one texture region.
#[derive(Debug, Clone, Copy)]
pub struct TextureWrite<'data> {
    destination: PixelRect,
    bytes_per_row: u32,
    data: &'data [u8],
    mip_level: u32,
    array_layer: u32,
}

impl<'data> View for TextureWrite<'data> {
    type V = TextureWriteView;

    closed spec fn view(&self) -> TextureWriteView {
        TextureWriteView {
            destination: self.destination,
            bytes_per_row: self.bytes_per_row,
            data: self.data@,
            mip_level: self.mip_level,
            array_layer: self.array_layer,
        }
    }
}

impl<'data> TextureWrite<'data> {
    /// Describe pixels for a region of layer zero of mip level zero.
    ///
    /// Returns `Error::InvalidValue` for a zero row stride.
    pub fn new(destination: PixelRect, bytes_per_row: u32, data: &'data [u8]) -> (r: Result<
        Self,
        Error,
    >)
        ensures
            match r {
                Ok(write) => bytes_per_row != 0 && write@ == (TextureWriteView {
                    destination,
                    bytes_per_row,
                    data: data@,
                    mip_level: 0,
                    array_layer: 0,
                }),
                Err(error) => error == Error::InvalidValue && bytes_per_row == 0,
            },
    {
        if bytes_per_row == 0 {
            Err(Error::InvalidValue)
        } else {
            Ok(Self { destination, bytes_per_row, data, mip_level: 0, array_layer: 0 })
        }
    }

    /// Return the destination rectangle.
    pub fn destination(self) -> (r: PixelRect)
        ensures
            r == self@.destination,
    {
        self.destination
    }

    /// Return the source row stride in bytes.
    pub fn bytes_per_row(self) -> (r: u32)
        ensures
            r == self@.bytes_per_row,
    {
        self.bytes_per_row
    }

    /// Return the borrowed source bytes.
    pub fn data(self) -> (r: &'data [u8])
        ensures
            r@ == self@.data,
    {
        self.data
    }

    /// Return a copy that selects a mip level.
    pub fn with_mip_level(self, level: u32) -> (r: Self)
        ensures
            r@ == (TextureWriteView { mip_level: level, ..self@ }),
    {
        Self {
            destination: self.destination,
            bytes_per_row: self.bytes_per_row,
            data: self.data,
            mip_level: level,
            array_layer: self.array_layer,
        }
    }

    /// Return the selected mip level.
    pub fn mip_level(self) -> (r: u32)
        ensures
            r == self@.mip_level,
    {
        self.mip_level
    }

    /// Return a copy that selects an array layer.
    pub fn with_array_layer(self, layer: u32) -> (r: Self)
        ensures
            r@ == (TextureWriteView { array_layer: layer, ..self@ }),
    {
        Self {
            destination: self.destination,
            bytes_per_row: self.bytes_per_row,
            data: self.data,
            mip_level: self.mip_level,
            array_layer: layer,
        }
    }

    /// Return the selected array layer.
    pub fn array_layer(self) -> (r: u32)
        ensures
            r == self@.array_layer,
    {
        self.array_layer
    }
}

} // verus!
