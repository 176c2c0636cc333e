//! Typed views into a texture allocation.

use crate::ir::resource::{TextureDesc, TextureDescView, TextureFormat};
use crate::ir::types::Error;
use vstd::prelude::*;

verus! {

/// Coordinate interpretation used by a sampled texture binding.
#[derive(Debug, Clone, Copy, PartialEq, Eq, Structural)]
pub enum TextureViewDimension {
    /// One two-dimensional layer.
    D2,
    /// An array of two-dimensional layers.
    D2Array,
    /// Six square faces addressed by a three-dimensional direction.
    Cube,
}

/// The fields of a texture view.
pub struct TextureViewView {
    pub format: TextureFormat,
    pub dimension: TextureViewDimension,
    pub base_mip_level: u32,
    pub mip_level_count: u32,
    pub base_array_layer: u32,
    pub array_layer_count: u32,
}

impl TextureViewView {
    /// First mip level past the selection.
    pub open spec fn mip_end(self) -> int {
        self.base_mip_level + self.mip_level_count
    }

    /// First layer past the selection.
    pub open spec fn layer_end(self) -> int {
        self.base_array_layer + self.array_layer_count
    }

    /// Whether the selection is not empty and lies within a texture.
    pub open spec fn selects_within(self, texture: TextureDescView) -> bool {
        &&& self.mip_level_count > 0
        &&& self.array_layer_count > 0
        &&& self.mip_end() <= texture.mip_level_count
        &&& self.layer_end() <= texture.array_layer_count
    }

    /// Whether the layers suit the coordinate interpretation.
    pub open spec fn dimension_fits(self, texture: TextureDescView) -> bool {
        match self.dimension {
            TextureViewDimension::D2 => self.array_layer_count == 1,
            TextureViewDimension::D2Array => true,
            TextureViewDimension::Cube => self.array_layer_count == 6 && texture.extent.width
                == texture.extent.height,
        }
    }

    /// The outcome of validating the view against a texture.
    pub open spec fn check(self, texture: TextureDescView) -> Result<(), Error> {
        if !texture.format.view_compatible(self.format) {
            Err(Error::InvalidDescriptor)
        } else if !self.selects_within(texture) {
            Err(Error::OutOfBounds)
        } else if !self.dimension_fits(texture) {
            Err(Error::InvalidDescriptor)
        } else {
            Ok(())
        }
    }
}

/// A validated format and subresource selection, independent of allocation identity.
#[derive(Debug, Clone, Copy, PartialEq, Eq, Structural)]
pub struct TextureViewDesc {
    format: TextureFormat,
    dimension: TextureViewDimension,
    base_mip_level: u32,
    mip_level_count: u32,
    base_array_layer: u32,
    array_layer_count: u32,
}

impl View for TextureViewDesc {
    type V = TextureViewView;

    closed spec fn view(&self) -> TextureViewView {
        TextureViewView {
            format: self.format,
            dimension: self.dimension,
            base_mip_level: self.base_mip_level,
            mip_level_count: self.mip_level_count,
            base_array_layer: self.base_array_layer,
            array_layer_count: self.array_layer_count,
        }
    }
}

/// Check a view against the allocation being bound.
fn check_view(
    format: TextureFormat,
    dimension: TextureViewDimension,
    base_mip_level: u32,
    mip_level_count: u32,
    base_array_layer: u32,
    array_layer_count: u32,
    texture: TextureDesc,
) -> (r: Result<(), Error>)
    ensures
        r == (TextureViewView {
            format,
            dimension,
            base_mip_level,
            mip_level_count,
            base_array_layer,
            array_layer_count,
        }).check(texture@),
        r is Ok ==> base_mip_level + mip_level_count <= 32,
{
    if !texture.format().view_compatible(format) {
        return Err(Error::InvalidDescriptor);
    }
    if mip_level_count == 0 || array_layer_count == 0 {
        return Err(Error::OutOfBounds);
    }
    match base_mip_level.checked_add(mip_level_count) {
        Some(end) => {
            if end > texture.mip_level_count() {
                return Err(Error::OutOfBounds);
            }
        },
        None => return Err(Error::OutOfBounds),
    }
    match base_array_layer.checked_add(array_layer_count) {
        Some(end) => {
            if end > texture.array_layer_count() {
                return Err(Error::OutOfBounds);
            }
        },
        None => return Err(Error::OutOfBounds),
    }
    match dimension {
        TextureViewDimension::D2 => {
            if array_layer_count != 1 {
                return Err(Error::InvalidDescriptor);
            }
        },
        TextureViewDimension::Cube => {
            if array_layer_count != 6 || texture.extent().width() != texture.extent().height() {
                return Err(Error::InvalidDescriptor);
            }
        },
        TextureViewDimension::D2Array => {},
    }
    Ok(())
}

impl TextureViewDesc {
    #[verifier::type_invariant]
    spec fn well_formed(self) -> bool {
        self.base_mip_level + self.mip_level_count <= 32
    }

    /// Select a nonempty range of mip levels and layers in an allocation.
    ///
    /// Returns `Error::InvalidDescriptor` for a format that is not view
    /// compatible or layers that do not suit the dimension, and
    /// `Error::OutOfBounds` for an empty selection or one past the allocation.
    pub fn new(
        texture: TextureDesc,
        format: TextureFormat,
        dimension: TextureViewDimension,
        base_mip_level: u32,
        mip_level_count: u32,
        base_array_layer: u32,
        array_layer_count: u32,
    ) -> (r: Result<Self, Error>)
        ensures
            ({
                let view = TextureViewView {
                    format,
                    dimension,
                    base_mip_level,
                    mip_level_count,
                    base_array_layer,
                    array_layer_count,
                };
                match r {
                    Ok(desc) => desc@ == view && view.check(texture@) == Ok::<(), Error>(()),
                    Err(error) => view.check(texture@) == Err::<(), Error>(error),
                }
            }),
    {
        match check_view(
            format,
            dimension,
            base_mip_level,
            mip_level_count,
            base_array_layer,
            array_layer_count,
            texture,
        ) {
            Ok(()) => Ok(
                Self {
                    format,
                    dimension,
                    base_mip_level,
                    mip_level_count,
                    base_array_layer,
                    array_layer_count,
                },
            ),
            Err(error) => Err(error),
        }
    }

    /// Validate a view against the allocation being bound.
    pub fn validate(self, texture: TextureDesc) -> (r: Result<(), Error>)
        ensures
            r == self@.check(texture@),
    {
        check_view(
            self.format,
            self.dimension,
            self.base_mip_level,
            self.mip_level_count,
            self.base_array_layer,
            self.array_layer_count,
            texture,
        )
    }

    /// Return the texel interpretation.
    pub fn format(self) -> (r: TextureFormat)
        ensures
            r == self@.format,
    {
        self.format
    }

    /// Return the shader coordinate interpretation.
    pub fn dimension(self) -> (r: TextureViewDimension)
        ensures
            r == self@.dimension,
    {
        self.dimension
    }

    /// Return the first mip level.
    pub fn base_mip_level(self) -> (r: u32)
        ensures
            r == self@.base_mip_level,
    {
        self.base_mip_level
    }

    /// Return the number of mip levels. The selection ends by level 32.
    pub fn mip_level_count(self) -> (r: u32)
        ensures
            r == self@.mip_level_count,
            self@.mip_end() <= 32,
    {
        proof {
            use_type_invariant(&self);
        }
        self.mip_level_count
    }

    /// Return the first array layer.
    pub fn base_array_layer(self) -> (r: u32)
        ensures
            r == self@.base_array_layer,
    {
        self.base_array_layer
    }

    /// Return the number of array layers.
    pub fn array_layer_count(self) -> (r: u32)
        ensures
            r == self@.array_layer_count,
    {
        self.array_layer_count
    }
}

} // verus!
