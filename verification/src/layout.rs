//! Where a piece of rendered text goes on a canvas.

use vstd::prelude::*;

verus! {

/// A rectangle on the canvas, in pixels, by its top-left corner and its size.
#[derive(Debug, Clone, Copy, PartialEq, Eq)]
pub struct TextRect {
    pub x: i32,
    pub y: i32,
    pub width: u32,
    pub height: u32,
}

/// Half of `x`, rounded toward zero.
pub open spec fn half(x: int) -> int {
    if x >= 0 {
        x / 2
    } else {
        -((-x) / 2)
    }
}

/// The extent read as a signed 32-bit coordinate: itself up to `i32::MAX`,
/// and wrapped to the negative number 2^32 below it beyond that.
pub open spec fn signed_extent(extent: u32) -> int {
    if extent <= 0x7fff_ffff {
        extent as int
    } else {
        extent - 0x1_0000_0000
    }
}

/// The middle of an extent of `extent` pixels: half of the extent read as a
/// signed 32-bit coordinate, rounded toward zero.
pub open spec fn middle(extent: u32) -> int {
    half(signed_extent(extent))
}

/// The middle of an extent, as a coordinate.
pub fn middle_of(extent: u32) -> (at: i32)
    ensures
        at == middle(extent),
        -0x4000_0000 <= at < 0x4000_0000,
        extent <= 0x7fff_ffff ==> at == extent / 2,
{
    if extent <= 0x7fff_ffff {
        (extent / 2) as i32
    } else {
        let signed: i64 = extent as i64 - 0x1_0000_0000;
        (signed / 2) as i32
    }
}

/// The rectangle of a text of the given size whose middle is the canvas's middle.
pub open spec fn centered(canvas_width: u32, canvas_height: u32, text_width: u32, text_height: u32) -> TextRect {
    TextRect {
        x: (middle(canvas_width) - middle(text_width)) as i32,
        y: (middle(canvas_height) - middle(text_height)) as i32,
        width: text_width,
        height: text_height,
    }
}

/// Centres a text of the given size on the canvas, in both directions.
pub fn center(canvas_width: u32, canvas_height: u32, text_width: u32, text_height: u32) -> (rect: TextRect)
    ensures
        rect == centered(canvas_width, canvas_height, text_width, text_height),
        rect.x == middle(canvas_width) - middle(text_width),
        rect.y == middle(canvas_height) - middle(text_height),
{
    TextRect {
        x: middle_of(canvas_width) - middle_of(text_width),
        y: middle_of(canvas_height) - middle_of(text_height),
        width: text_width,
        height: text_height,
    }
}

} // verus!
