//! Viewport rectangles and depth ranges.

use crate::ir::float::{is_at_most, is_finite, is_in_unit_interval, sum_is_at_most};
use crate::ir::types::{Error, Extent2D, ExtentView};
use vstd::prelude::*;

verus! {

/// The fields of a viewport, as single-precision bit patterns.
pub struct ViewportView {
    pub x: u32,
    pub y: u32,
    pub width: u32,
    pub height: u32,
    pub min_depth: u32,
    pub max_depth: u32,
}

impl ViewportView {
    /// Everything finite, a positive size, and a depth range in order within
    /// the unit interval.
    pub open spec fn valid(self) -> bool {
        &&& crate::ir::float::finite(self.x)
        &&& crate::ir::float::finite(self.y)
        &&& crate::ir::float::finite(self.width)
        &&& crate::ir::float::finite(self.height)
        &&& crate::ir::float::scaled_value(self.width) > 0
        &&& crate::ir::float::scaled_value(self.height) > 0
        &&& crate::ir::float::in_unit_interval(self.min_depth)
        &&& crate::ir::float::in_unit_interval(self.max_depth)
        &&& crate::ir::float::scaled_value(self.min_depth) <= crate::ir::float::scaled_value(
            self.max_depth,
        )
    }

    /// Whether the rectangle lies within an extent placed at the origin.
    pub open spec fn within(self, extent: ExtentView) -> bool {
        &&& crate::ir::float::scaled_value(self.x) >= 0
        &&& crate::ir::float::scaled_value(self.y) >= 0
        &&& crate::ir::float::scaled_value(self.x) + crate::ir::float::scaled_value(self.width)
            <= extent.width * crate::ir::float::scaled_one()
        &&& crate::ir::float::scaled_value(self.y) + crate::ir::float::scaled_value(self.height)
            <= extent.height * crate::ir::float::scaled_one()
    }
}

/// A viewport with finite fields, a positive size and an ordered depth range.
/// Fields are single-precision bit patterns.
#[derive(Debug, Clone, Copy, PartialEq, Eq, Structural)]
pub struct Viewport {
    x: u32,
    y: u32,
    width: u32,
    height: u32,
    min_depth: u32,
    max_depth: u32,
}

impl View for Viewport {
    type V = ViewportView;

    closed spec fn view(&self) -> ViewportView {
        ViewportView {
            x: self.x,
            y: self.y,
            width: self.width,
            height: self.height,
            min_depth: self.min_depth,
            max_depth: self.max_depth,
        }
    }
}

impl Viewport {
    #[verifier::type_invariant]
    spec fn well_formed(self) -> bool {
        self@.valid()
    }

    /// Construct a viewport from single-precision bit patterns.
    ///
    /// Returns `Error::InvalidValue` for a field that is not finite, a size that
    /// is not positive, or a depth range that is out of order or leaves the unit
    /// interval.
    pub fn new(x: u32, y: u32, width: u32, height: u32, min_depth: u32, max_depth: u32) -> (r:
        Result<Self, Error>)
        ensures
            ({
                let view = ViewportView { x, y, width, height, min_depth, max_depth };
                match r {
                    Ok(viewport) => viewport@ == view && view.valid(),
                    Err(error) => error == Error::InvalidValue && !view.valid(),
                }
            }),
    {
        if !is_finite(x) || !is_finite(y) || !is_finite(width) || !is_finite(height) || is_at_most(
            width,
            0,
        ) || is_at_most(height, 0) {
            return Err(Error::InvalidValue);
        }
        if !is_in_unit_interval(min_depth) || !is_in_unit_interval(max_depth) || !is_at_most(
            min_depth,
            max_depth,
        ) {
            return Err(Error::InvalidValue);
        }
        Ok(Self { x, y, width, height, min_depth, max_depth })
    }

    /// Return whether the rectangle lies within an extent placed at the origin.
    /// The far edges are compared as real numbers, without rounding.
    pub fn is_within(self, extent: Extent2D) -> (r: bool)
        ensures
            r == self@.within(extent@),
    {
        proof {
            use_type_invariant(&self);
        }
        is_at_most(0, self.x) && is_at_most(0, self.y) && sum_is_at_most(
            self.x,
            self.width,
            extent.width(),
        ) && sum_is_at_most(self.y, self.height, extent.height())
    }

    /// Return the left edge as a bit pattern.
    pub fn x(self) -> (r: u32)
        ensures
            r == self@.x,
    {
        self.x
    }

    /// Return the top edge as a bit pattern.
    pub fn y(self) -> (r: u32)
        ensures
            r == self@.y,
    {
        self.y
    }

    /// Return the width as a bit pattern.
    pub fn width(self) -> (r: u32)
        ensures
            r == self@.width,
    {
        self.width
    }

    /// Return the height as a bit pattern.
    pub fn height(self) -> (r: u32)
        ensures
            r == self@.height,
    {
        self.height
    }

    /// Return the near depth as a bit pattern.
    pub fn min_depth(self) -> (r: u32)
        ensures
            r == self@.min_depth,
    {
        self.min_depth
    }

    /// Return the far depth as a bit pattern.
    pub fn max_depth(self) -> (r: u32)
        ensures
            r == self@.max_depth,
    {
        self.max_depth
    }
}

} // verus!
