//! Color outputs shared by render-pass and programmable pipeline descriptors.

use crate::ir::pipeline::BlendState;
use crate::ir::resource::TextureFormat;
use crate::ir::types::Error;
use vstd::prelude::*;

verus! {

/// Maximum color outputs in one logical render pass.
pub const MAX_COLOR_ATTACHMENTS: usize = 8;

/// Channels written by a fragment output.
#[derive(Debug, Clone, Copy, PartialEq, Eq, Structural)]
pub struct ColorWriteMask {
    bits: u8,
}

impl View for ColorWriteMask {
    type V = u8;

    closed spec fn view(&self) -> u8 {
        self.bits
    }
}

impl ColorWriteMask {
    #[verifier::type_invariant]
    spec fn well_formed(self) -> bool {
        self.bits <= 15
    }

    /// Return the mask that writes every RGBA channel.
    pub fn all() -> (r: Self)
        ensures
            r@ == 15,
    {
        Self { bits: 15 }
    }

    /// Return the mask that disables color writes.
    pub fn disabled() -> (r: Self)
        ensures
            r@ == 0,
    {
        Self { bits: 0 }
    }

    /// Select RGBA channels with bits zero through three.
    ///
    /// Returns `Error::InvalidValue` when another bit is set.
    pub fn from_bits(bits: u8) -> (r: Result<Self, Error>)
        ensures
            match r {
                Ok(mask) => mask@ == bits && bits <= 15,
                Err(error) => error == Error::InvalidValue && bits > 15,
            },
    {
        if bits > 15 {
            Err(Error::InvalidValue)
        } else {
            Ok(Self { bits })
        }
    }

    /// Return the channel bits, at most 15.
    pub fn bits(self) -> (r: u8)
        ensures
            r == self@,
            r <= 15,
    {
        proof {
            use_type_invariant(&self);
        }
        self.bits
    }
}

/// The fields of a color output.
pub struct ColorTargetView {
    pub format: TextureFormat,
    pub blend: BlendState,
    pub write_mask: ColorWriteMask,
}

/// Format, blending and write mask for one fragment output location.
#[derive(Debug, Clone, Copy, PartialEq, Eq, Structural)]
pub struct ColorTargetState {
    format: TextureFormat,
    blend: BlendState,
    write_mask: ColorWriteMask,
}

impl View for ColorTargetState {
    type V = ColorTargetView;

    closed spec fn view(&self) -> ColorTargetView {
        ColorTargetView { format: self.format, blend: self.blend, write_mask: self.write_mask }
    }
}

impl ColorTargetState {
    #[verifier::type_invariant]
    spec fn well_formed(self) -> bool {
        self.format != TextureFormat::Depth32Float
    }

    /// Create a color output; depth formats are not color outputs.
    pub fn new(format: TextureFormat, blend: BlendState, write_mask: ColorWriteMask) -> (r: Result<
        Self,
        Error,
    >)
        ensures
            match r {
                Ok(target) => target@ == (ColorTargetView { format, blend, write_mask }) && format
                    != TextureFormat::Depth32Float,
                Err(error) => error == Error::InvalidDescriptor && format
                    == TextureFormat::Depth32Float,
            },
    {
        if format == TextureFormat::Depth32Float {
            return Err(Error::InvalidDescriptor);
        }
        Ok(Self { format, blend, write_mask })
    }

    /// Return the output format, which is not a depth format.
    pub fn format(self) -> (r: TextureFormat)
        ensures
            r == self@.format,
            r != TextureFormat::Depth32Float,
    {
        proof {
            use_type_invariant(&self);
        }
        self.format
    }

    /// Return the blend operation.
    pub fn blend(self) -> (r: BlendState)
        ensures
            r == self@.blend,
    {
        self.blend
    }

    /// Return the enabled channels.
    pub fn write_mask(self) -> (r: ColorWriteMask)
        ensures
            r == self@.write_mask,
    {
        self.write_mask
    }
}

} // verus!
