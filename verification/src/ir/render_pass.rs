//! Render-pass attachments and their descriptors.

use crate::ir::float::is_in_unit_interval;
use crate::ir::render_target::MAX_COLOR_ATTACHMENTS;
use crate::ir::resource::{TextureFormat, TextureUsage};
use crate::ir::table::{ResourceTable, TableView, TextureRef};
use crate::ir::types::{Color, Error, PixelRect};
use vstd::prelude::*;

verus! {

/// Color attachment initialization operation for a render pass.
#[derive(Debug, Clone, Copy, PartialEq, Eq)]
pub enum LoadOp {
    /// Preserve the attachment contents in the render area.
    Load,
    /// Clear the render area to a finite color before drawing.
    Clear(Color),
    /// Permit a backend to discard prior attachment contents.
    DontCare,
}

/// Color attachment finalization operation for a render pass.
#[derive(Debug, Clone, Copy, PartialEq, Eq, Structural)]
pub enum StoreOp {
    /// Preserve attachment contents after the pass.
    Store,
    /// Permit a backend to discard attachment contents after the pass.
    DontCare,
}

/// Depth attachment initialization operation for a render pass.
#[derive(Debug, Clone, Copy, PartialEq, Eq, Structural)]
pub enum DepthLoadOp {
    /// Preserve the attachment contents in the render area.
    Load,
    /// Clear the render area to a depth before drawing, given as a
    /// single-precision bit pattern.
    Clear(u32),
    /// Permit a backend to discard prior attachment contents.
    DontCare,
}

impl DepthLoadOp {
    /// Whether a clear depth lies in the unit interval.
    pub open spec fn valid(self) -> bool {
        match self {
            DepthLoadOp::Clear(value) => crate::ir::float::in_unit_interval(value),
            _ => true,
        }
    }
}

/// One color image attached to a render pass.
#[derive(Debug, Clone, Copy, PartialEq, Eq)]
pub struct ColorAttachment {
    /// Allocation to render into.
    pub target: TextureRef,
    /// Initial contents operation.
    pub load: LoadOp,
    /// Final contents operation.
    pub store: StoreOp,
}

impl ColorAttachment {
    /// Return the allocation to render into.
    pub fn target(self) -> (r: TextureRef)
        ensures
            r == self.target,
    {
        self.target
    }

    /// Return the initial contents operation.
    pub fn load(self) -> (r: LoadOp)
        ensures
            r == self.load,
    {
        self.load
    }

    /// Return the final contents operation.
    pub fn store(self) -> (r: StoreOp)
        ensures
            r == self.store,
    {
        self.store
    }
}

/// Depth attachment configuration for one render pass.
#[derive(Debug, Clone, Copy, PartialEq, Eq)]
pub struct DepthAttachment {
    /// Depth texture.
    pub target: TextureRef,
    /// Initial contents operation.
    pub load: DepthLoadOp,
    /// Final contents operation.
    pub store: StoreOp,
    /// Whether the pass leaves the depth contents unchanged, so that they may
    /// be sampled.
    pub read_only: bool,
}

impl DepthAttachment {
    /// Return the depth texture.
    pub fn target(self) -> (r: TextureRef)
        ensures
            r == self.target,
    {
        self.target
    }

    /// Return the initial contents operation.
    pub fn load(self) -> (r: DepthLoadOp)
        ensures
            r == self.load,
    {
        self.load
    }

    /// Return the final contents operation.
    pub fn store(self) -> (r: StoreOp)
        ensures
            r == self.store,
    {
        self.store
    }

    /// Return whether the pass leaves the depth contents unchanged.
    pub fn read_only(self) -> (r: bool)
        ensures
            r == self.read_only,
    {
        self.read_only
    }
}

/// The contents of a render-pass descriptor.
#[verifier::ext_equal]
pub struct RenderPassView {
    pub area: PixelRect,
    pub colors: Seq<ColorAttachment>,
    pub depth: Option<DepthAttachment>,
}

/// The outcome of attaching a texture as color to a pass over an area.
pub open spec fn check_color_target(table: TableView, target: TextureRef, area: PixelRect) -> Result<
    (),
    Error,
> {
    match table.texture(target) {
        Err(error) => Err(error),
        Ok(desc) => if desc@.format == TextureFormat::Depth32Float {
            Err(Error::InvalidDescriptor)
        } else if !desc@.usage.allows(TextureUsage::RENDER_ATTACHMENT_BIT) {
            Err(Error::InvalidUsage)
        } else if !area@.within(desc@.extent) {
            Err(Error::OutOfBounds)
        } else {
            Ok(())
        },
    }
}

impl RenderPassView {
    /// Whether a texture is one of the color attachments.
    pub open spec fn has_color_target(self, target: TextureRef) -> bool {
        exists|i: int|
            0 <= i < self.colors.len() && (#[trigger] self.colors[i]).target@.index
                == target@.index
    }

    /// The outcome of adding a color attachment.
    pub open spec fn check_color_attachment(self, table: TableView, target: TextureRef) -> Result<
        (),
        Error,
    > {
        match check_color_target(table, target, self.area) {
            Err(error) => Err(error),
            Ok(_) => match table.texture(self.colors[0].target) {
                Err(error) => Err(error),
                Ok(first) => if table.texture(target)->Ok_0@.extent != first@.extent {
                    Err(Error::OutOfBounds)
                } else if self.has_color_target(target) {
                    Err(Error::InvalidDescriptor)
                } else if self.colors.len() >= MAX_COLOR_ATTACHMENTS {
                    Err(Error::ResourceLimitExceeded)
                } else {
                    Ok(())
                },
            },
        }
    }

    /// The outcome of setting a depth attachment.
    pub open spec fn check_depth_attachment(
        self,
        table: TableView,
        target: TextureRef,
        load: DepthLoadOp,
    ) -> Result<(), Error> {
        match table.texture(target) {
            Err(error) => Err(error),
            Ok(desc) => match table.texture(self.colors[0].target) {
                Err(error) => Err(error),
                Ok(first) => if desc@.format != TextureFormat::Depth32Float {
                    Err(Error::InvalidDescriptor)
                } else if !desc@.usage.allows(TextureUsage::RENDER_ATTACHMENT_BIT) {
                    Err(Error::InvalidUsage)
                } else if desc@.extent != first@.extent || !self.area@.within(desc@.extent) {
                    Err(Error::OutOfBounds)
                } else if !load.valid() {
                    Err(Error::InvalidDescriptor)
                } else {
                    Ok(())
                },
            },
        }
    }

    /// The depth attachment, if its contents can be left unchanged: they are
    /// loaded and stored.
    pub open spec fn preserves_depth(self) -> bool {
        match self.depth {
            Some(depth) => depth.load == DepthLoadOp::Load && depth.store == StoreOp::Store,
            None => false,
        }
    }
}

/// Render area and attachments of one render pass.
#[derive(Debug, Clone, Copy, PartialEq, Eq)]
pub struct RenderPassDesc {
    area: PixelRect,
    colors: [Option<ColorAttachment>; 8],
    color_count: usize,
    depth: Option<DepthAttachment>,
}

impl View for RenderPassDesc {
    type V = RenderPassView;

    closed spec fn view(&self) -> RenderPassView {
        RenderPassView {
            area: self.area,
            colors: Seq::new(self.color_count as nat, |i: int| self.colors@[i]->0),
            depth: self.depth,
        }
    }
}

impl RenderPassDesc {
    #[verifier::type_invariant]
    spec fn well_formed(self) -> bool {
        &&& 1 <= self.color_count <= MAX_COLOR_ATTACHMENTS
        &&& forall|i: int| 0 <= i < self.color_count ==> (#[trigger] self.colors@[i]) is Some
    }

    /// Describe a pass over an area with one color attachment.
    ///
    /// Fails as looking up the target does, and with `Error::InvalidDescriptor`
    /// for a depth target, `Error::InvalidUsage` for one that cannot be rendered
    /// to, or `Error::OutOfBounds` for an area that leaves it.
    pub fn new(
        resources: &ResourceTable,
        target: TextureRef,
        area: PixelRect,
        load: LoadOp,
        store: StoreOp,
    ) -> (r: Result<Self, Error>)
        ensures
            match r {
                Ok(desc) => check_color_target(resources@, target, area) == Ok::<(), Error>(())
                    && desc@ == (RenderPassView {
                    area,
                    colors: seq![ColorAttachment { target, load, store }],
                    depth: None,
                }),
                Err(error) => check_color_target(resources@, target, area) == Err::<(), Error>(
                    error,
                ),
            },
    {
        match validate_color_target(resources, target, area) {
            Ok(()) => {},
            Err(error) => return Err(error),
        }
        let first = ColorAttachment { target, load, store };
        let desc = Self {
            area,
            colors: [Some(first), None, None, None, None, None, None, None],
            color_count: 1,
            depth: None,
        };
        assert(desc@.colors =~= seq![first]);
        Ok(desc)
    }

    /// Return a copy with another color attachment.
    ///
    /// Fails as `new` does for the target, and with `Error::OutOfBounds` when its
    /// extent differs from that of the first, `Error::InvalidDescriptor` when it
    /// is attached already, or `Error::ResourceLimitExceeded` past eight.
    pub fn with_color_attachment(
        self,
        resources: &ResourceTable,
        target: TextureRef,
        load: LoadOp,
        store: StoreOp,
    ) -> (r: Result<Self, Error>)
        ensures
            match r {
                Ok(desc) => self@.check_color_attachment(resources@, target) == Ok::<(), Error>(())
                    && desc@ == (RenderPassView {
                    colors: self@.colors.push(ColorAttachment { target, load, store }),
                    ..self@
                }),
                Err(error) => self@.check_color_attachment(resources@, target) == Err::<(), Error>(
                    error,
                ),
            },
    {
        proof {
            use_type_invariant(&self);
        }
        match validate_color_target(resources, target, self.area) {
            Ok(()) => {},
            Err(error) => return Err(error),
        }
        let first_desc = match resources.texture(self.target()) {
            Ok(desc) => desc,
            Err(error) => return Err(error),
        };
        let target_desc = match resources.texture(target) {
            Ok(desc) => desc,
            Err(error) => return Err(error),
        };
        if target_desc.extent().width() != first_desc.extent().width()
            || target_desc.extent().height() != first_desc.extent().height() {
            return Err(Error::OutOfBounds);
        }
        assert(target_desc@.extent == first_desc@.extent);
        if self.attaches_color(target) {
            return Err(Error::InvalidDescriptor);
        }
        if self.color_count >= MAX_COLOR_ATTACHMENTS {
            return Err(Error::ResourceLimitExceeded);
        }
        let attachment = ColorAttachment { target, load, store };
        let mut colors = self.colors;
        colors[self.color_count] = Some(attachment);
        let desc = Self {
            area: self.area,
            colors,
            color_count: self.color_count + 1,
            depth: self.depth,
        };
        assert(desc@.colors =~= self@.colors.push(attachment));
        Ok(desc)
    }

    /// Return whether a texture of the same table is a color attachment.
    pub(crate) fn attaches_color(&self, target: TextureRef) -> (r: bool)
        ensures
            r == self@.has_color_target(target),
    {
        proof {
            use_type_invariant(self);
        }
        let mut i: usize = 0;
        while i < self.color_count
            invariant
                i <= self.color_count <= MAX_COLOR_ATTACHMENTS,
                self@.colors.len() == self.color_count,
                forall|k: int| 0 <= k < self.color_count ==> (#[trigger] self.colors@[k]) is Some,
                forall|k: int|
                    0 <= k < self.color_count ==> #[trigger] self@.colors[k] == self.colors@[k]->0,
                forall|k: int|
                    0 <= k < i ==> (#[trigger] self@.colors[k]).target@.index != target@.index,
            decreases self.color_count - i,
        {
            assert(self.colors@[i as int] is Some);
            match self.colors[i] {
                Some(color) => {
                    assert(self@.colors[i as int] == color);
                    if color.target.slot() == target.slot() {
                        return true;
                    }
                },
                None => {},
            }
            i = i + 1;
        }
        false
    }

    /// Return a copy with a depth attachment.
    ///
    /// Fails as looking up the textures does, and with `Error::InvalidDescriptor`
    /// for a texture that is not a depth texture, `Error::InvalidUsage` for one
    /// that cannot be rendered to, `Error::OutOfBounds` when its extent differs
    /// from that of the color attachment, or `Error::InvalidDescriptor` for a
    /// clear depth outside the unit interval.
    pub fn with_depth_attachment(
        self,
        resources: &ResourceTable,
        target: TextureRef,
        load: DepthLoadOp,
        store: StoreOp,
    ) -> (r: Result<Self, Error>)
        ensures
            match r {
                Ok(desc) => self@.check_depth_attachment(resources@, target, load) == Ok::<
                    (),
                    Error,
                >(()) && desc@ == (RenderPassView {
                    depth: Some(DepthAttachment { target, load, store, read_only: false }),
                    ..self@
                }),
                Err(error) => self@.check_depth_attachment(resources@, target, load) == Err::<
                    (),
                    Error,
                >(error),
            },
    {
        proof {
            use_type_invariant(&self);
        }
        let target_desc = match resources.texture(target) {
            Ok(desc) => desc,
            Err(error) => return Err(error),
        };
        let first_desc = match resources.texture(self.target()) {
            Ok(desc) => desc,
            Err(error) => return Err(error),
        };
        if target_desc.format() != TextureFormat::Depth32Float {
            return Err(Error::InvalidDescriptor);
        }
        if !target_desc.usage().contains(TextureUsage::render_attachment()) {
            return Err(Error::InvalidUsage);
        }
        if target_desc.extent().width() != first_desc.extent().width()
            || target_desc.extent().height() != first_desc.extent().height()
            || !self.area.is_within(target_desc.extent()) {
            return Err(Error::OutOfBounds);
        }
        assert(target_desc@.extent == first_desc@.extent);
        match load {
            DepthLoadOp::Clear(value) => {
                if !is_in_unit_interval(value) {
                    return Err(Error::InvalidDescriptor);
                }
            },
            _ => {},
        }
        let desc = Self {
            area: self.area,
            colors: self.colors,
            color_count: self.color_count,
            depth: Some(DepthAttachment { target, load, store, read_only: false }),
        };
        assert(desc@.colors =~= self@.colors);
        Ok(desc)
    }

    /// Return a copy that leaves the depth contents unchanged, so that they may
    /// be sampled during the pass.
    ///
    /// Returns `Error::InvalidDescriptor` unless there is a depth attachment that
    /// is loaded and stored.
    pub fn with_read_only_depth(self) -> (r: Result<Self, Error>)
        ensures
            match r {
                Ok(desc) => self@.preserves_depth() && desc@ == (RenderPassView {
                    depth: Some(DepthAttachment { read_only: true, ..self@.depth->0 }),
                    ..self@
                }),
                Err(error) => error == Error::InvalidDescriptor && !self@.preserves_depth(),
            },
    {
        proof {
            use_type_invariant(&self);
        }
        let depth = match self.depth {
            Some(depth) => depth,
            None => return Err(Error::InvalidDescriptor),
        };
        if depth.load != DepthLoadOp::Load || depth.store != StoreOp::Store {
            return Err(Error::InvalidDescriptor);
        }
        let desc = Self {
            area: self.area,
            colors: self.colors,
            color_count: self.color_count,
            depth: Some(
                DepthAttachment {
                    target: depth.target,
                    load: depth.load,
                    store: depth.store,
                    read_only: true,
                },
            ),
        };
        assert(desc@.colors =~= self@.colors);
        Ok(desc)
    }

    /// Return the first color attachment.
    fn first_color(self) -> (r: ColorAttachment)
        ensures
            r == self@.colors[0],
            self@.colors.len() >= 1,
    {
        proof {
            use_type_invariant(&self);
            assert(self.colors@[0] is Some);
        }
        self.colors[0].unwrap()
    }

    /// Return the first color attachment's texture.
    pub fn target(self) -> (r: TextureRef)
        ensures
            r == self@.colors[0].target,
            self@.colors.len() >= 1,
    {
        self.first_color().target
    }

    /// Return the render area.
    pub fn area(self) -> (r: PixelRect)
        ensures
            r == self@.area,
    {
        self.area
    }

    /// Return the first color attachment's initial contents operation.
    pub fn load(self) -> (r: LoadOp)
        ensures
            r == self@.colors[0].load,
    {
        self.first_color().load
    }

    /// Return the first color attachment's final contents operation.
    pub fn store(self) -> (r: StoreOp)
        ensures
            r == self@.colors[0].store,
    {
        self.first_color().store
    }

    /// Return the depth attachment, if there is one.
    pub fn depth_attachment(self) -> (r: Option<DepthAttachment>)
        ensures
            r == self@.depth,
    {
        self.depth
    }

    /// Return the color attachments in location order, from one through eight.
    pub fn color_attachments(self) -> (r: Vec<ColorAttachment>)
        ensures
            r@ == self@.colors,
            1 <= r@.len() <= MAX_COLOR_ATTACHMENTS,
    {
        proof {
            use_type_invariant(&self);
        }
        let mut result: Vec<ColorAttachment> = Vec::new();
        let mut i: usize = 0;
        while i < self.color_count
            invariant
                i <= self.color_count <= MAX_COLOR_ATTACHMENTS,
                self@.colors.len() == self.color_count,
                forall|k: int| 0 <= k < self.color_count ==> (#[trigger] self.colors@[k]) is Some,
                forall|k: int|
                    0 <= k < self.color_count ==> #[trigger] self@.colors[k] == self.colors@[k]->0,
                result@.len() == i,
                forall|k: int| 0 <= k < i ==> result@[k] == #[trigger] self@.colors[k],
            decreases self.color_count - i,
        {
            assert(self.colors@[i as int] is Some);
            match self.colors[i] {
                Some(color) => {
                    assert(self@.colors[i as int] == color);
                    result.push(color);
                },
                None => {},
            }
            i = i + 1;
        }
        assert(result@ =~= self@.colors);
        result
    }
}

/// Check that a texture can be a color attachment of a pass over an area.
fn validate_color_target(resources: &ResourceTable, target: TextureRef, area: PixelRect) -> (r:
    Result<(), Error>)
    ensures
        r == check_color_target(resources@, target, area),
{
    let texture = match resources.texture(target) {
        Ok(texture) => texture,
        Err(error) => return Err(error),
    };
    if texture.format() == TextureFormat::Depth32Float {
        return Err(Error::InvalidDescriptor);
    }
    if !texture.usage().contains(TextureUsage::render_attachment()) {
        return Err(Error::InvalidUsage);
    }
    if !area.is_within(texture.extent()) {
        return Err(Error::OutOfBounds);
    }
    Ok(())
}

} // verus!
