//! Axis-aligned rectangles in pixel units and the selectors built on them.

use vstd::prelude::*;

verus! {

/// An axis-aligned rectangle: origin `(x, y)`, width `w` and height `h`.
#[derive(Clone, Copy, Debug, PartialEq, Eq)]
pub struct Rectangle<T> {
    pub x: T,
    pub y: T,
    pub w: T,
    pub h: T,
}

/// One visible top-level window, by its extended-frame bounding box at the
/// instant of capture.
#[derive(Clone, Copy, Debug, PartialEq, Eq)]
pub struct Window {
    pub bounds: Rectangle<u32>,
}

/// What to select from a captured image.
#[derive(Clone, Copy, Debug, PartialEq, Eq)]
pub enum Bounds {
    /// The whole captured image.
    FullScreen,
    /// A freeform rectangle in image coordinates.
    Explicit(Rectangle<u32>),
    /// The window at this position of the captured window list.
    Window(usize),
}

impl Rectangle<i32> {
    /// At least one pixel lies inside.
    pub open spec fn has_extent(self) -> bool {
        self.w > 0 && self.h > 0
    }
}

impl Rectangle<u32> {
    /// The column just past the right edge.
    pub open spec fn right(self) -> int {
        self.x + self.w
    }

    /// The row just past the bottom edge.
    pub open spec fn bottom(self) -> int {
        self.y + self.h
    }

    /// No pixel lies inside.
    pub open spec fn is_empty(self) -> bool {
        self.w == 0 || self.h == 0
    }

    /// Every pixel of the rectangle lies inside an image of the given width
    /// and height whose origin is `(0, 0)`.
    pub open spec fn fits_within(self, dimensions: (u32, u32)) -> bool {
        self.right() <= dimensions.0 && self.bottom() <= dimensions.1
    }

    /// The rectangle that covers an image of the given dimensions.
    pub open spec fn covering(dimensions: (u32, u32)) -> Rectangle<u32> {
        Rectangle { x: 0, y: 0, w: dimensions.0, h: dimensions.1 }
    }

    /// Whether no pixel lies inside.
    pub fn has_no_pixels(&self) -> (empty: bool)
        ensures
            empty == self.is_empty(),
    {
        self.w == 0 || self.h == 0
    }

    /// Whether every pixel of the rectangle lies inside an image of the given
    /// width and height. The sums are taken in 64 bits: a rectangle whose
    /// right or bottom edge is past `u32::MAX` lies outside every image.
    pub fn lies_within(&self, dimensions: (u32, u32)) -> (inside: bool)
        ensures
            inside == self.fits_within(dimensions),
    {
        let right: u64 = self.x as u64 + self.w as u64;
        let bottom: u64 = self.y as u64 + self.h as u64;
        right <= dimensions.0 as u64 && bottom <= dimensions.1 as u64
    }

    /// The rectangle that covers an image of the given dimensions.
    pub fn full(dimensions: (u32, u32)) -> (r: Rectangle<u32>)
        ensures
            r == Self::covering(dimensions),
    {
        Rectangle { x: 0, y: 0, w: dimensions.0, h: dimensions.1 }
    }
}

} // verus!
