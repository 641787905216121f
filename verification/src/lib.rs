//! Layout core of a fixed-resolution drawing canvas: letterboxed scaling to a
//! window of any size, a graph primitive with axes, ticks and plots, and two
//! small widgets. The crate computes what is to be drawn and where; putting
//! it on a screen is left to the caller.

use vstd::prelude::*;

pub mod canvas;
pub mod color;
pub mod draw;
pub mod geometry;
pub mod plot;
pub mod ui;

pub use crate::canvas::Animation;
pub use crate::geometry::map_wide;

verus! {

/// Linear interpolation from `[min1, max1]` onto `[min2, max2]`. Nothing is
/// clamped: a `val` outside the source range lands outside the target range.
/// The image must fit 64 bits; [`map_wide`] takes any arguments.
pub fn map(val: i32, min1: i32, max1: i32, min2: i32, max2: i32) -> (r: i64)
    requires
        min1 != max1,
        crate::geometry::map_fits(val as int, min1 as int, max1 as int, min2 as int, max2 as int),
    ensures
        r == crate::geometry::map_value(
            val as int,
            min1 as int,
            max1 as int,
            min2 as int,
            max2 as int,
        ),
{
    let wide: i128 = crate::geometry::map_wide(val, min1, max1, min2, max2);
    wide as i64
}

} // verus!
