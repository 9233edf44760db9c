//! Plain screen-coordinate types shared by the geometry calculator, the
//! edge-trigger state machine and the animation planner.

use vstd::prelude::*;

verus! {

/// A cursor position in screen coordinates.
#[derive(Debug, Clone, Copy, PartialEq, Eq, Structural)]
pub struct Point {
    pub x: i32,
    pub y: i32,
}

/// A rectangle in screen coordinates, as the pair of its top-left corner
/// (`left`, `top`) and its exclusive bottom-right corner (`right`, `bottom`).
/// The monitor work area (the usable screen minus taskbars and docks) is
/// handed to the core in this form.
#[derive(Debug, Clone, Copy, PartialEq, Eq, Structural)]
pub struct Rect {
    pub left: i32,
    pub top: i32,
    pub right: i32,
    pub bottom: i32,
}

impl Rect {
    /// Width and height are nonnegative and the edge differences fit in `i32`.
    pub open spec fn well_formed(self) -> bool {
        &&& self.left <= self.right
        &&& self.top <= self.bottom
        &&& self.right - self.left <= i32::MAX
        &&& self.bottom - self.top <= i32::MAX
    }
}

} // verus!
