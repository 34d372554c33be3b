//! Spot bounding boxes clipped to the canvas rectangle.
use vstd::prelude::*;

verus! {

/// Clamps `v` into the closed range `[0, hi]`.
pub open spec fn clamp_to(v: int, hi: int) -> int {
    if v < 0 {
        0
    } else if v > hi {
        hi
    } else {
        v
    }
}

/// Spot bounding box coordinates in pixels.
///
/// Covers the pixels `(j, i)` with `x0 <= j < x1` and `y0 <= i < y1`.
#[derive(Debug, Clone, Copy, PartialEq, Eq, Structural)]
pub struct BoundingBox {
    /// Top left corner X (inclusive)
    pub x0: u32,
    /// Top left corner Y (inclusive)
    pub y0: u32,
    /// Bottom right corner X (exclusive)
    pub x1: u32,
    /// Bottom right corner Y (exclusive)
    pub y1: u32,
}

impl BoundingBox {
    /// The box obtained by clamping the extents `[x0, x1] x [y0, y1]`
    /// into `[0, width] x [0, height]`.
    pub open spec fn clipped(x0: int, y0: int, x1: int, y1: int, width: int, height: int) -> BoundingBox {
        BoundingBox {
            x0: clamp_to(x0, width) as u32,
            y0: clamp_to(y0, height) as u32,
            x1: clamp_to(x1, width) as u32,
            y1: clamp_to(y1, height) as u32,
        }
    }

    /// The box holds no pixel.
    pub open spec fn spec_is_empty(self) -> bool {
        self.x0 == self.x1 || self.y0 == self.y1
    }

    /// The box is ordered and lies within a `width` x `height` canvas.
    pub open spec fn fits(self, width: int, height: int) -> bool {
        self.x0 <= self.x1 <= width && self.y0 <= self.y1 <= height
    }

    /// Number of pixel columns of the box.
    pub open spec fn spec_width(self) -> int {
        self.x1 - self.x0
    }

    /// Number of pixel rows of the box.
    pub open spec fn spec_height(self) -> int {
        self.y1 - self.y0
    }

    /// The box covers pixel `(x, y)`.
    pub open spec fn covers(self, x: int, y: int) -> bool {
        self.x0 <= x < self.x1 && self.y0 <= y < self.y1
    }

    /// Clips the integer spot extents to a `width` x `height` canvas.
    ///
    /// `x0`, `y0` are the floors of the spot's left and top extents,
    /// `x1`, `y1` the ceilings of its right and bottom extents.
    pub fn new(x0: i64, y0: i64, x1: i64, y1: i64, width: u32, height: u32) -> (r: BoundingBox)
        ensures
            r == Self::clipped(x0 as int, y0 as int, x1 as int, y1 as int, width as int, height as int),
    {
        BoundingBox {
            x0: clamp_coord(x0, width),
            y0: clamp_coord(y0, height),
            x1: clamp_coord(x1, width),
            y1: clamp_coord(y1, height),
        }
    }

    /// Checks if the bounding box contains no pixels.
    pub fn is_empty(&self) -> (r: bool)
        ensures
            r == self.spec_is_empty(),
    {
        self.x0 == self.x1 || self.y0 == self.y1
    }
}

/// Clamps a pixel coordinate into `[0, hi]`.
fn clamp_coord(v: i64, hi: u32) -> (r: u32)
    ensures
        r == clamp_to(v as int, hi as int),
{
    if v < 0 {
        0
    } else if v > hi as i64 {
        hi
    } else {
        v as u32
    }
}

/// A clipped box is ordered and lies within the canvas whenever the
/// extents it was made from are ordered.
pub proof fn lemma_clipped_fits(x0: int, y0: int, x1: int, y1: int, width: u32, height: u32)
    requires
        x0 <= x1,
        y0 <= y1,
    ensures
        BoundingBox::clipped(x0, y0, x1, y1, width as int, height as int).fits(
            width as int,
            height as int,
        ),
{
}

/// A spot whose extents lie wholly left of, right of, above or below the
/// canvas gets an empty box, and so draws nothing.
pub proof fn lemma_clipped_outside_is_empty(
    x0: int,
    y0: int,
    x1: int,
    y1: int,
    width: u32,
    height: u32,
)
    requires
        x0 <= x1,
        y0 <= y1,
        x1 <= 0 || x0 >= width || y1 <= 0 || y0 >= height,
    ensures
        BoundingBox::clipped(x0, y0, x1, y1, width as int, height as int).spec_is_empty(),
{
}

} // verus!
