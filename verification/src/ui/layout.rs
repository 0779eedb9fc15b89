//! Screen rectangles and the placement of centred dialogs.
use vstd::prelude::*;

verus! {

/// A rectangle of terminal cells.
#[derive(Debug, Clone, Copy, PartialEq, Eq, Structural)]
pub struct Rect {
    /// Column of the left edge.
    pub x: u16,
    /// Row of the top edge.
    pub y: u16,
    /// Width in cells.
    pub width: u16,
    /// Height in cells.
    pub height: u16,
}

impl Rect {
    /// A rectangle at (`x`, `y`) of the given size.
    pub fn new(x: u16, y: u16, width: u16, height: u16) -> (r: Rect)
        ensures
            r == (Rect { x, y, width, height }),
    {
        Rect { x, y, width, height }
    }
}

/// `a - b`, or 0 when `b` is larger.
pub open spec fn sat_sub(a: u16, b: u16) -> int {
    if a >= b {
        a - b
    } else {
        0
    }
}

/// The smaller of two values.
pub open spec fn min_u16(a: u16, b: u16) -> u16 {
    if a <= b {
        a
    } else {
        b
    }
}

/// A `width` x `height` rectangle centred in `area`, clipped to the area's size.
pub fn centered_rect(area: Rect, width: u16, height: u16) -> (r: Rect)
    requires
        area.x + sat_sub(area.width, width) / 2 <= u16::MAX,
        area.y + sat_sub(area.height, height) / 2 <= u16::MAX,
    ensures
        r.x == area.x + sat_sub(area.width, width) / 2,
        r.y == area.y + sat_sub(area.height, height) / 2,
        r.width == min_u16(width, area.width),
        r.height == min_u16(height, area.height),
{
    let x = area.x + area.width.saturating_sub(width) / 2;
    let y = area.y + area.height.saturating_sub(height) / 2;
    let w = if width <= area.width { width } else { area.width };
    let h = if height <= area.height { height } else { area.height };
    Rect::new(x, y, w, h)
}

} // verus!
