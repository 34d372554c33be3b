//! Rectangular canvas windows used to select the exported image area.
use vstd::prelude::*;

verus! {

/// Canvas image window coordinates.
///
/// The window origin is its upper left corner; `w` and `h` are its
/// extents in the X and Y directions.
#[derive(Debug, Clone, Copy, PartialEq, Eq, Structural)]
pub struct Window {
    /// Window origin X coordinate
    pub x: u32,
    /// Window origin Y coordinate
    pub y: u32,
    /// Width in X direction
    pub w: u32,
    /// Height in Y direction
    pub h: u32,
}

impl Window {
    /// The window lies within a `width` x `height` canvas rectangle.
    pub open spec fn spec_inside(self, width: int, height: int) -> bool {
        self.x + self.w <= width && self.y + self.h <= height
    }

    /// Number of pixels covered by the window.
    pub open spec fn spec_len(self) -> int {
        self.w * self.h
    }

    /// The window of the given dimensions located at the origin.
    pub open spec fn new_spec(width: u32, height: u32) -> Window {
        Window { x: 0, y: 0, w: width, h: height }
    }

    /// Creates a new window with given dimensions located at the origin.
    pub fn new(width: u32, height: u32) -> (r: Window)
        ensures
            r == Window::new_spec(width, height),
    {
        Window { x: 0, y: 0, w: width, h: height }
    }

    /// Moves the window origin to the given coordinates, keeping its size.
    pub fn at(&self, x: u32, y: u32) -> (r: Window)
        ensures
            r == (Window { x, y, w: self.w, h: self.h }),
    {
        Window { x, y, w: self.w, h: self.h }
    }

    /// Checks if the window rectangle is inside the canvas rectangle.
    pub fn is_inside(&self, width: u32, height: u32) -> (r: bool)
        ensures
            r == self.spec_inside(width as int, height as int),
    {
        self.x as u64 + self.w as u64 <= width as u64 && self.y as u64 + self.h as u64
            <= height as u64
    }

    /// Returns the total number of pixels in the window.
    pub fn len(&self) -> (r: u64)
        ensures
            r == self.spec_len(),
    {
        proof {
            vstd::arithmetic::mul::lemma_mul_upper_bound(
                self.w as int,
                u32::MAX as int,
                self.h as int,
                u32::MAX as int,
            );
        }
        self.w as u64 * self.h as u64
    }
}

impl From<((u32, u32), (u32, u32))> for Window {
    /// Creates a window from a tuple `((x, y), (w, h))`.
    fn from(t: ((u32, u32), (u32, u32))) -> (r: Window) {
        Window { x: t.0.0, y: t.0.1, w: t.1.0, h: t.1.1 }
    }
}

impl vstd::std_specs::convert::FromSpecImpl<((u32, u32), (u32, u32))> for Window {
    open spec fn obeys_from_spec() -> bool {
        true
    }

    open spec fn from_spec(t: ((u32, u32), (u32, u32))) -> Window {
        Window { x: t.0.0, y: t.0.1, w: t.1.0, h: t.1.1 }
    }
}

} // verus!
