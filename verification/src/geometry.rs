//! Screen rectangles and the border-compensation delta applied to a layout
//! rectangle before it is handed to the platform.

use vstd::prelude::*;

verus! {

/// A rectangle in screen coordinates: `left`/`top` is the upper-left corner,
/// `right`/`bottom` the lower-right.
#[derive(Clone, Copy, PartialEq, Eq, Debug)]
pub struct Rect {
    pub left: i32,
    pub top: i32,
    pub right: i32,
    pub bottom: i32,
}

/// Border compensation for one window: each component widens the layout
/// rectangle on its side, so that the visible frame ends up where the layout
/// intended it despite the window's invisible native border.
#[derive(Clone, Copy, PartialEq, Eq, Debug)]
pub struct BorderDelta {
    pub left: i32,
    pub top: i32,
    pub right: i32,
    pub bottom: i32,
}

/// The delta-adjusted rectangle stays within `i32` on every side.
pub open spec fn delta_fits(r: Rect, d: BorderDelta) -> bool {
    &&& i32::MIN <= r.left - d.left <= i32::MAX
    &&& i32::MIN <= r.top - d.top <= i32::MAX
    &&& i32::MIN <= r.right + d.right <= i32::MAX
    &&& i32::MIN <= r.bottom + d.bottom <= i32::MAX
}

/// The rectangle widened by a border-compensation delta.
pub open spec fn spec_apply_delta(r: Rect, d: BorderDelta) -> Rect {
    Rect {
        left: (r.left - d.left) as i32,
        top: (r.top - d.top) as i32,
        right: (r.right + d.right) as i32,
        bottom: (r.bottom + d.bottom) as i32,
    }
}

impl Rect {
    /// Widen the rectangle by the window's border-compensation delta.
    pub fn apply_delta(&self, delta: &BorderDelta) -> (r: Rect)
        requires
            delta_fits(*self, *delta),
        ensures
            r == spec_apply_delta(*self, *delta),
    {
        Rect {
            left: self.left - delta.left,
            top: self.top - delta.top,
            right: self.right + delta.right,
            bottom: self.bottom + delta.bottom,
        }
    }
}

} // verus!
