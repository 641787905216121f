//! What the crate asks its caller to draw.

use vstd::prelude::*;
use crate::color::Color;
use crate::geometry::WorldPoint;

verus! {

/// One primitive to be drawn, in world coordinates.
#[derive(Clone, Copy, Debug, PartialEq, Eq)]
pub enum DrawCommand {
    /// A straight segment.
    Line { from: WorldPoint, to: WorldPoint, thickness: i32, color: Color },
    /// A filled circle.
    Circle { center: WorldPoint, radius: i64, color: Color },
    /// A filled rectangle, given by the corner with the smallest coordinates.
    Rectangle { corner: WorldPoint, width: i64, height: i64, color: Color },
    /// A filled triangle.
    Triangle { v1: WorldPoint, v2: WorldPoint, v3: WorldPoint, color: Color },
    /// The number `value / unit`, printed with `decimal_places` decimals and
    /// centred on `pos`.
    Label {
        value: i32,
        unit: u32,
        pos: WorldPoint,
        font_size: u16,
        decimal_places: usize,
        color: Color,
    },
}

} // verus!
