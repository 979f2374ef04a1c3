//! One RGBA pixel, 8 bits per channel.

use vstd::prelude::*;

verus! {

/// A colour with red, green, blue and alpha channels.
#[derive(Clone, Copy, Debug, PartialEq, Eq)]
pub struct Rgba {
    pub red: u8,
    pub green: u8,
    pub blue: u8,
    pub alpha: u8,
}

/// The pixel stored in `bytes` from `offset` on, channels in the order
/// red, green, blue, alpha.
pub open spec fn rgba_at(bytes: Seq<u8>, offset: int) -> Rgba {
    Rgba {
        red: bytes[offset],
        green: bytes[offset + 1],
        blue: bytes[offset + 2],
        alpha: bytes[offset + 3],
    }
}

/// Where the pixel `(x, y)` starts in a row-major buffer of `width` pixels
/// per row and four bytes per pixel.
pub open spec fn pixel_offset(width: int, x: int, y: int) -> int {
    4 * (y * width + x)
}

/// The pixel `(x, y)` of a row-major RGBA buffer.
pub open spec fn pixel_in(bytes: Seq<u8>, width: int, x: int, y: int) -> Rgba {
    rgba_at(bytes, pixel_offset(width, x, y))
}

} // verus!
