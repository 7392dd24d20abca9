//! Pure geometry over rectangular bounds and points.
//!
//! Coordinates are fixed-point thousandths of a pixel (see `crate::num`).
//! Halving uses floor division, the `/ 2` of mathematical integers.

use vstd::prelude::*;
use crate::num::{div_mod_floor, in_range, Fixed, FIXED_LIMIT};

verus! {

/// Overall screen dimensions, in thousandths of a pixel.
#[derive(Debug, Clone, Copy, PartialEq, Eq, Structural)]
pub struct Screen {
    pub width: Fixed,
    pub height: Fixed,
}

/// A point, in thousandths of a pixel.
#[derive(Debug, Clone, Copy, PartialEq, Eq, Structural)]
pub struct Point {
    pub x: Fixed,
    pub y: Fixed,
}

/// An axis-aligned rectangle, in thousandths of a pixel.
#[derive(Debug, Clone, Copy, PartialEq, Eq, Structural)]
pub struct Bounds {
    pub x: Fixed,
    pub y: Fixed,
    pub width: Fixed,
    pub height: Fixed,
}

/// All four fields are within the fixed-point working range.
pub open spec fn bounds_in_range(b: Bounds) -> bool {
    in_range(b.x) && in_range(b.y) && in_range(b.width) && in_range(b.height)
}

impl Bounds {
    /// Whether all four fields lie within the fixed-point working range,
    /// as the geometric queries below require; a gauge whose bounds fail
    /// this is a configuration error.
    pub fn within_range(&self) -> (r: bool)
        ensures
            r == bounds_in_range(*self),
    {
        -FIXED_LIMIT <= self.x && self.x <= FIXED_LIMIT
            && -FIXED_LIMIT <= self.y && self.y <= FIXED_LIMIT
            && -FIXED_LIMIT <= self.width && self.width <= FIXED_LIMIT
            && -FIXED_LIMIT <= self.height && self.height <= FIXED_LIMIT
    }

    /// Centre of the rectangle: each coordinate is offset by half the
    /// extent, rounded toward negative infinity.
    pub fn center(&self) -> (r: (Fixed, Fixed))
        requires
            bounds_in_range(*self),
        ensures
            r.0 == self.x + self.width as int / 2,
            r.1 == self.y + self.height as int / 2,
    {
        let (hw, _) = div_mod_floor(self.width, 2);
        let (hh, _) = div_mod_floor(self.height, 2);
        (self.x + hw, self.y + hh)
    }

    /// Radius of the largest circle fitting the rectangle: half the
    /// smaller extent, rounded toward negative infinity.
    pub fn radius(&self) -> (r: Fixed)
        requires
            bounds_in_range(*self),
        ensures
            r == (if self.width <= self.height { self.width } else { self.height }) as int / 2,
    {
        let m: i64 = if self.width <= self.height { self.width } else { self.height };
        let (h, _) = div_mod_floor(m, 2);
        h
    }

    /// Shrink all four edges inward by `pixels`. A `pixels` larger than
    /// half the smaller extent yields a negative width or height; callers
    /// are responsible for avoiding that where it matters.
    pub fn inset(&self, pixels: Fixed) -> (r: Bounds)
        requires
            bounds_in_range(*self),
            in_range(pixels),
        ensures
            r.x == self.x + pixels,
            r.y == self.y + pixels,
            r.width == self.width - 2 * pixels,
            r.height == self.height - 2 * pixels,
    {
        Bounds {
            x: self.x + pixels,
            y: self.y + pixels,
            width: self.width - 2 * pixels,
            height: self.height - 2 * pixels,
        }
    }

    pub fn top_left(&self) -> (r: (Fixed, Fixed))
        ensures
            r.0 == self.x,
            r.1 == self.y,
    {
        (self.x, self.y)
    }

    pub fn top_right(&self) -> (r: (Fixed, Fixed))
        requires
            bounds_in_range(*self),
        ensures
            r.0 == self.x + self.width,
            r.1 == self.y,
    {
        (self.x + self.width, self.y)
    }

    pub fn bottom_left(&self) -> (r: (Fixed, Fixed))
        requires
            bounds_in_range(*self),
        ensures
            r.0 == self.x,
            r.1 == self.y + self.height,
    {
        (self.x, self.y + self.height)
    }

    pub fn bottom_right(&self) -> (r: (Fixed, Fixed))
        requires
            bounds_in_range(*self),
        ensures
            r.0 == self.x + self.width,
            r.1 == self.y + self.height,
    {
        (self.x + self.width, self.y + self.height)
    }
}

} // verus!
