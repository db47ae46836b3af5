//! The part of a display that is redrawn, and how large it is.
//!
//! The graphics library names a part by its corners, both inside the part,
//! and hands over the colours of its pixels row by row.
use vstd::prelude::*;

verus! {

/// A rectangle of the display that is being updated: its corners, both
/// inside the rectangle.
pub struct Area {
    pub x1: i16,
    pub x2: i16,
    pub y1: i16,
    pub y2: i16,
}

/// How large a part of the display is: its columns, its rows, and its
/// pixels.
pub struct Extent {
    pub width: u32,
    pub height: u32,
    pub pixels: usize,
}

/// The number of coordinates from `from` to `to`, both counted.
pub open spec fn span(from: i32, to: i32) -> int {
    to - from + 1
}

/// Whether the part between the corners has an extent: neither side is
/// negative, each fits the width of a side, and the pixels can be counted.
pub open spec fn measurable(x1: i32, y1: i32, x2: i32, y2: i32) -> bool {
    &&& 0 <= span(x1, x2) <= u32::MAX
    &&& 0 <= span(y1, y2) <= u32::MAX
    &&& span(x1, x2) * span(y1, y2) <= usize::MAX
}

/// The extent of the part of the display between the corners `(x1, y1)`
/// and `(x2, y2)`, where it has one.
pub fn extent_between(x1: i32, y1: i32, x2: i32, y2: i32) -> (r: Option<Extent>)
    ensures
        match r {
            Some(extent) => {
                &&& measurable(x1, y1, x2, y2)
                &&& extent.width == span(x1, x2)
                &&& extent.height == span(y1, y2)
                &&& extent.pixels == span(x1, x2) * span(y1, y2)
            },
            None => !measurable(x1, y1, x2, y2),
        },
{
    let width: i64 = x2 as i64 - x1 as i64 + 1;
    let height: i64 = y2 as i64 - y1 as i64 + 1;
    if width < 0 || height < 0 || width > 0xffff_ffff || height > 0xffff_ffff {
        return None;
    }
    assert(width * height <= 0xffff_ffff * 0xffff_ffff) by (nonlinear_arith)
        requires
            0 <= width <= 0xffff_ffff,
            0 <= height <= 0xffff_ffff,
    ;
    assert(0 <= width * height) by (nonlinear_arith)
        requires
            0 <= width,
            0 <= height,
    ;
    let pixels: u64 = (width as u64) * (height as u64);
    if pixels > usize::MAX as u64 {
        return None;
    }
    Some(Extent { width: width as u32, height: height as u32, pixels: pixels as usize })
}

/// The place of a pixel among the colours of a part that is `width` pixels
/// wide: the pixels of the rows above it come first, then those to its left.
pub open spec fn place(width: usize, column: usize, row: usize) -> int {
    width * row + column
}

/// The place of the pixel in column `column` of row `row`, where it can
/// be told.
pub fn pixel_index(width: usize, column: usize, row: usize) -> (r: Option<usize>)
    ensures
        match r {
            Some(index) => index == place(width, column, row),
            None => place(width, column, row) > usize::MAX,
        },
{
    match width.checked_mul(row) {
        Some(above) => above.checked_add(column),
        None => None,
    }
}

/// Whether a buffer of `len` pixels holds a part of `width` by `height`
/// pixels, no more and no less.
pub fn buffer_holds(width: u32, height: u32, len: usize) -> (r: bool)
    ensures
        r == (width * height == len),
{
    assert(width * height <= 0xffff_ffff * 0xffff_ffff) by (nonlinear_arith)
        requires
            0 <= width <= 0xffff_ffff,
            0 <= height <= 0xffff_ffff,
    ;
    let pixels: u64 = (width as u64) * (height as u64);
    pixels == len as u64
}

} // verus!
