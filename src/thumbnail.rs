//! The size of a thumbnail that keeps a page's aspect ratio.
use vstd::prelude::*;

verus! {

/// The length across that keeps the ratio `across : along` when `along` is
/// scaled to `size`, rounded down, and never below one pixel.
pub open spec fn scaled_side(size: int, along: int, across: int) -> int {
    if size * across / along < 1 {
        1
    } else {
        size * across / along
    }
}

/// The thumbnail size (width, height) of a `width` by `height` bitmap:
/// `size` wide when `fit_width`, else `size` tall; the other side follows the
/// aspect ratio, with a floor of one pixel.
pub fn thumbnail_size(width: u32, height: u32, size: u32, fit_width: bool) -> (r: (u32, u32))
    requires
        width > 0,
        height > 0,
        fit_width ==> scaled_side(size as int, width as int, height as int) <= u32::MAX,
        !fit_width ==> scaled_side(size as int, height as int, width as int) <= u32::MAX,
    ensures
        fit_width ==> r == (size, scaled_side(size as int, width as int, height as int) as u32),
        !fit_width ==> r == (scaled_side(size as int, height as int, width as int) as u32, size),
{
    let (along, across) = if fit_width { (width as u64, height as u64) } else { (height as u64, width as u64) };
    assert(size as u64 * across <= u32::MAX as u64 * u32::MAX as u64) by (nonlinear_arith)
        requires size <= u32::MAX, across <= u32::MAX;
    let v = (size as u64 * across) / along;
    let other = if v < 1 { 1u32 } else { v as u32 };
    if fit_width {
        (size, other)
    } else {
        (other, size)
    }
}

} // verus!
