//! Screen-side value types: normalized cursor positions and screen sizes.

use vstd::prelude::*;
use crate::fixed::SCALE;

verus! {

/// Cursor position in normalized coordinates.
///
/// The center of the screen is at `(0, 0)` and each coordinate covers
/// `[-1, 1]` in fixed-point units, aspect ratio taken into account.
#[derive(Clone, Copy, PartialEq, Eq, Structural, Debug)]
pub struct NormalizedScreenPosition {
    /// The x coordinate of the position, within `[-SCALE, SCALE]`.
    pub x: i64,
    /// The y coordinate of the position, within `[-SCALE, SCALE]`.
    pub y: i64,
}

impl NormalizedScreenPosition {
    /// A normalized position lies within one unit of the center.
    pub open spec fn wf(&self) -> bool {
        -(SCALE as int) <= self.x as int <= SCALE as int && -(SCALE as int) <= self.y as int
            <= SCALE as int
    }
}

/// The size of the screen in pixels.
#[derive(Clone, Copy, PartialEq, Eq, Structural, Debug)]
pub struct ScreenSize {
    /// The width of the screen.
    pub width: u32,
    /// The height of the screen.
    pub height: u32,
}

impl ScreenSize {
    /// A size a frame can be derived for: neither side is zero.
    pub open spec fn wf(&self) -> bool {
        self.width > 0 && self.height > 0
    }
}

/// Implemented by types that can serve as a screen to render to.
pub trait Screen {
    /// Access the size of the screen.
    fn size(&self) -> ScreenSize;
}

} // verus!
