//! Value types and validation errors used by the graphics IR.

use crate::ir::float::is_finite;
use vstd::prelude::*;

verus! {

/// Reason a graphics IR descriptor or command was rejected.
#[derive(Debug, Clone, Copy, PartialEq, Eq, Structural)]
pub enum Error {
    /// A value was non-finite, zero where non-zero is required, or otherwise malformed.
    InvalidValue,
    /// A descriptor does not describe a portable logical graphics object.
    InvalidDescriptor,
    /// A resource's required usage flag is absent.
    InvalidUsage,
    /// A rectangle, byte range, or index range exceeds its resource.
    OutOfBounds,
    /// Arithmetic needed to validate a range overflowed.
    Overflow,
    /// A resource reference belongs to a different resource table.
    ResourceTableMismatch,
    /// A render pass command was used outside an active render pass.
    RenderPassNotActive,
    /// A copy or upload command was used while a render pass is active.
    RenderPassActive,
    /// A command requires a pipeline that has not been set.
    PipelineNotSet,
    /// A command requires a vertex buffer that has not been set.
    VertexBufferNotSet,
    /// A command requires an index buffer that has not been set.
    IndexBufferNotSet,
    /// A draw requires uniforms that have not been set.
    UniformsNotSet,
    /// A textured pipeline requires both a texture and sampler binding.
    TextureBindingNotSet,
    /// A pipeline layout requires a bind group that has not been set.
    BindGroupNotSet,
    /// A binding does not match the layout that it is used with.
    BindingLayoutMismatch,
    /// A writable resource is used a second time within one scope.
    ResourceAccessConflict,
    /// A resource is used after a storage write without a barrier between.
    MissingBarrier,
    /// An access differs from the one announced by the preceding barrier.
    InvalidResourceAccess,
    /// A render pipeline's target formats differ from the active attachments.
    PipelineTargetMismatch,
    /// Sampling an active render attachment would create feedback.
    AttachmentFeedback,
    /// A bounded resource table is full.
    ResourceLimitExceeded,
    /// A bounded command buffer is full.
    CommandLimitExceeded,
    /// Allocation for IR-owned storage failed.
    OutOfMemory,
    /// A command buffer was finished while a render pass remained open.
    RenderPassStillActive,
}

/// A finite RGBA color. Components are single-precision bit patterns.
#[derive(Debug, Clone, Copy, PartialEq, Eq)]
pub struct Color {
    red: u32,
    green: u32,
    blue: u32,
    alpha: u32,
}

impl View for Color {
    type V = Seq<u32>;

    closed spec fn view(&self) -> Seq<u32> {
        seq![self.red, self.green, self.blue, self.alpha]
    }
}

impl Color {
    #[verifier::type_invariant]
    spec fn well_formed(self) -> bool {
        crate::ir::float::finite(self.red) && crate::ir::float::finite(self.green)
            && crate::ir::float::finite(self.blue) && crate::ir::float::finite(self.alpha)
    }

    /// Construct a finite RGBA color from single-precision bit patterns.
    ///
    /// Returns `Error::InvalidValue` when any component is not finite.
    pub fn rgba(red: u32, green: u32, blue: u32, alpha: u32) -> (r: Result<Self, Error>)
        ensures
            match r {
                Ok(color) => color@ == seq![red, green, blue, alpha]
                    && forall|i: int| 0 <= i < 4 ==> crate::ir::float::finite(#[trigger] color@[i]),
                Err(error) => error == Error::InvalidValue && !(crate::ir::float::finite(red)
                    && crate::ir::float::finite(green) && crate::ir::float::finite(blue)
                    && crate::ir::float::finite(alpha)),
            },
    {
        if is_finite(red) && is_finite(green) && is_finite(blue) && is_finite(alpha) {
            Ok(Self { red, green, blue, alpha })
        } else {
            Err(Error::InvalidValue)
        }
    }

    /// Return the red, green, blue and alpha bit patterns in order. All are finite.
    pub fn components(self) -> (r: [u32; 4])
        ensures
            r@ == self@,
            forall|i: int| 0 <= i < 4 ==> crate::ir::float::finite(#[trigger] r@[i]),
    {
        proof {
            use_type_invariant(&self);
        }
        [self.red, self.green, self.blue, self.alpha]
    }
}

/// Width and height of an extent.
pub struct ExtentView {
    pub width: u32,
    pub height: u32,
}

/// Non-zero two-dimensional pixel extent.
#[derive(Debug, Clone, Copy, PartialEq, Eq, Structural)]
pub struct Extent2D {
    width: u32,
    height: u32,
}

impl View for Extent2D {
    type V = ExtentView;

    closed spec fn view(&self) -> ExtentView {
        ExtentView { width: self.width, height: self.height }
    }
}

impl Extent2D {
    #[verifier::type_invariant]
    spec fn well_formed(self) -> bool {
        self.width > 0 && self.height > 0
    }

    /// Construct a non-zero pixel extent.
    ///
    /// Returns `Error::InvalidValue` for a zero dimension.
    pub fn new(width: u32, height: u32) -> (r: Result<Self, Error>)
        ensures
            match r {
                Ok(extent) => extent@ == (ExtentView { width, height }) && width > 0 && height > 0,
                Err(error) => error == Error::InvalidValue && (width == 0 || height == 0),
            },
    {
        if width == 0 || height == 0 {
            Err(Error::InvalidValue)
        } else {
            Ok(Self { width, height })
        }
    }

    /// Return the non-zero width in pixels.
    pub fn width(self) -> (r: u32)
        ensures
            r == self@.width,
            r > 0,
    {
        proof {
            use_type_invariant(&self);
        }
        self.width
    }

    /// Return the non-zero height in pixels.
    pub fn height(self) -> (r: u32)
        ensures
            r == self@.height,
            r > 0,
    {
        proof {
            use_type_invariant(&self);
        }
        self.height
    }
}

/// Position and size of a pixel rectangle.
pub struct RectView {
    pub x: u32,
    pub y: u32,
    pub width: u32,
    pub height: u32,
}

impl RectView {
    /// Non-empty, with both far edges representable.
    pub open spec fn valid(self) -> bool {
        self.width > 0 && self.height > 0 && self.right() <= u32::MAX && self.bottom() <= u32::MAX
    }

    /// First column past the rectangle.
    pub open spec fn right(self) -> int {
        self.x + self.width
    }

    /// First row past the rectangle.
    pub open spec fn bottom(self) -> int {
        self.y + self.height
    }

    /// Whether a pixel belongs to the rectangle.
    pub open spec fn contains(self, x: int, y: int) -> bool {
        self.x <= x < self.right() && self.y <= y < self.bottom()
    }

    /// Whether every pixel belongs to an extent placed at the origin.
    pub open spec fn within(self, extent: ExtentView) -> bool {
        self.right() <= extent.width && self.bottom() <= extent.height
    }

    /// Whether two rectangles have a pixel in common.
    pub open spec fn overlaps(self, other: Self) -> bool {
        self.x < other.right() && other.x < self.right() && self.y < other.bottom() && other.y
            < self.bottom()
    }

    /// Whether every pixel belongs to another rectangle.
    pub open spec fn inside(self, other: Self) -> bool {
        self.x >= other.x && self.y >= other.y && self.right() <= other.right() && self.bottom()
            <= other.bottom()
    }
}

/// Two non-empty rectangles overlap exactly when some pixel belongs to both.
pub proof fn law_overlap_is_a_common_pixel(left: RectView, right: RectView)
    requires
        left.valid(),
        right.valid(),
    ensures
        left.overlaps(right) <==> exists|x: int, y: int| #[trigger]
            left.contains(x, y) && right.contains(x, y),
        left.overlaps(right) == right.overlaps(left),
{
    if left.overlaps(right) {
        let x: int = if left.x >= right.x {
            left.x as int
        } else {
            right.x as int
        };
        let y: int = if left.y >= right.y {
            left.y as int
        } else {
            right.y as int
        };
        assert(left.contains(x, y) && right.contains(x, y));
    }
}

/// A non-empty rectangle lies within an extent exactly when every one of its
/// pixels has coordinates below the extent's width and height.
pub proof fn law_within_is_every_pixel(rect: RectView, extent: ExtentView)
    requires
        rect.valid(),
    ensures
        rect.within(extent) <==> forall|x: int, y: int| #[trigger]
            rect.contains(x, y) ==> x < extent.width && y < extent.height,
{
    assert(rect.contains(rect.right() - 1, rect.bottom() - 1));
}

/// A non-empty top-left pixel rectangle with overflow-safe bounds.
#[derive(Debug, Clone, Copy, PartialEq, Eq, Structural)]
pub struct PixelRect {
    x: u32,
    y: u32,
    width: u32,
    height: u32,
}

impl View for PixelRect {
    type V = RectView;

    closed spec fn view(&self) -> RectView {
        RectView { x: self.x, y: self.y, width: self.width, height: self.height }
    }
}

impl PixelRect {
    #[verifier::type_invariant]
    spec fn well_formed(self) -> bool {
        self@.valid()
    }

    /// Construct a non-empty pixel rectangle.
    ///
    /// Returns `Error::InvalidValue` when it is empty or a far edge overflows.
    pub fn new(x: u32, y: u32, width: u32, height: u32) -> (r: Result<Self, Error>)
        ensures
            match r {
                Ok(rect) => rect@ == (RectView { x, y, width, height }) && rect@.valid(),
                Err(error) => error == Error::InvalidValue && !(RectView {
                    x,
                    y,
                    width,
                    height,
                }).valid(),
            },
    {
        if width == 0 || height == 0 || x.checked_add(width).is_none() || y.checked_add(
            height,
        ).is_none() {
            Err(Error::InvalidValue)
        } else {
            Ok(Self { x, y, width, height })
        }
    }

    /// Return the left pixel coordinate.
    pub fn x(self) -> (r: u32)
        ensures
            r == self@.x,
    {
        self.x
    }

    /// Return the top pixel coordinate.
    pub fn y(self) -> (r: u32)
        ensures
            r == self@.y,
    {
        self.y
    }

    /// Return the width in pixels. The right edge fits in 32 bits.
    pub fn width(self) -> (r: u32)
        ensures
            r == self@.width,
            self@.valid(),
    {
        proof {
            use_type_invariant(&self);
        }
        self.width
    }

    /// Return the height in pixels. The bottom edge fits in 32 bits.
    pub fn height(self) -> (r: u32)
        ensures
            r == self@.height,
            self@.valid(),
    {
        proof {
            use_type_invariant(&self);
        }
        self.height
    }

    /// Return whether this rectangle lies wholly within an extent.
    pub fn is_within(self, extent: Extent2D) -> (r: bool)
        ensures
            r == self@.within(extent@),
    {
        proof {
            use_type_invariant(&self);
        }
        self.x + self.width <= extent.width && self.y + self.height <= extent.height
    }

    /// Return whether another rectangle has the same width and height,
    /// regardless of the origins.
    pub fn same_extent(self, other: Self) -> (r: bool)
        ensures
            r == (self@.width == other@.width && self@.height == other@.height),
    {
        self.width == other.width && self.height == other.height
    }
}

/// A finite general 4x4 transform matrix in column-major order.
/// Elements are single-precision bit patterns.
#[derive(Debug, Clone, Copy, PartialEq, Eq)]
pub struct Transform {
    columns: [u32; 16],
}

impl View for Transform {
    type V = Seq<u32>;

    closed spec fn view(&self) -> Seq<u32> {
        self.columns@
    }
}

impl Transform {
    #[verifier::type_invariant]
    spec fn well_formed(self) -> bool {
        forall|i: int| 0 <= i < 16 ==> crate::ir::float::finite(#[trigger] self.columns@[i])
    }

    /// Construct a finite column-major 4x4 transform from bit patterns.
    ///
    /// Returns `Error::InvalidValue` for an element that is not finite.
    pub fn from_columns(columns: [u32; 16]) -> (r: Result<Self, Error>)
        ensures
            match r {
                Ok(transform) => transform@ == columns@ && forall|i: int|
                    0 <= i < 16 ==> crate::ir::float::finite(#[trigger] columns@[i]),
                Err(error) => error == Error::InvalidValue && exists|i: int|
                    0 <= i < 16 && !crate::ir::float::finite(#[trigger] columns@[i]),
            },
    {
        let mut i: usize = 0;
        while i < 16
            invariant
                i <= 16,
                forall|j: int| 0 <= j < i ==> crate::ir::float::finite(#[trigger] columns@[j]),
            decreases 16 - i,
        {
            if !is_finite(columns[i]) {
                return Err(Error::InvalidValue);
            }
            i = i + 1;
        }
        Ok(Self { columns })
    }

    /// Construct the identity transform.
    pub fn identity() -> (r: Self)
        ensures
            r@.len() == 16,
            forall|row: int, column: int|
                0 <= row < 4 && 0 <= column < 4 ==> #[trigger] r@[4 * column + row] == (if row
                    == column {
                    crate::ir::float::ONE_BITS
                } else {
                    0
                }),
    {
        let one: u32 = crate::ir::float::ONE_BITS;
        Self { columns: [one, 0, 0, 0, 0, one, 0, 0, 0, 0, one, 0, 0, 0, 0, one] }
    }

    /// Return the sixteen finite matrix elements in column-major order.
    pub fn columns(self) -> (r: [u32; 16])
        ensures
            r@ == self@,
            forall|i: int| 0 <= i < 16 ==> crate::ir::float::finite(#[trigger] r@[i]),
    {
        proof {
            use_type_invariant(&self);
        }
        self.columns
    }
}

} // verus!
