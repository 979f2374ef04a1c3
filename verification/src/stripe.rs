//! The image generator: a grey square with a reddish band along the
//! anti-diagonal.
//!
//! For a side of `side` pixels the band has half-width `3 * side / 64`
//! (that is `0.046875 * side`, rounded down). A pixel belongs to the band
//! when `x + y` lies strictly between `side - half_width` and
//! `side + half_width`.

use vstd::prelude::*;
use vstd::arithmetic::power2::pow2;
use crate::pixel::{Rgba, pixel_offset};
use crate::raster::{
    Image, ImageView, MAX_SIZE_POWER, buffer_from_fn, buffer_len, image_fits, lemma_side_bound,
    side_length,
};

verus! {

/// Half the width of the band, in pixels.
pub open spec fn half_width(side: nat) -> nat {
    3 * side / 64
}

/// Whether `(x, y)` lies in the band of an image of side `side`.
pub open spec fn near_midline(x: int, y: int, side: nat) -> bool {
    x + y < side + half_width(side) && x + y > side - half_width(side)
}

/// The colour of the band.
pub open spec fn band_color() -> Rgba {
    Rgba { red: 196, green: 50, blue: 50, alpha: 255 }
}

/// The colour of everything else.
pub open spec fn background_color() -> Rgba {
    Rgba { red: 50, green: 50, blue: 50, alpha: 255 }
}

/// The colour of the pixel `(x, y)` in the image of side `side`.
pub open spec fn pixel_color(x: int, y: int, side: nat) -> Rgba {
    if near_midline(x, y, side) {
        band_color()
    } else {
        background_color()
    }
}

/// `image` is the striped image of side `2^size_power`.
pub open spec fn is_stripe_image(image: ImageView, size_power: nat) -> bool {
    &&& image.size_power == size_power
    &&& image.wf()
    &&& forall|x: int, y: int|
        image.contains(x, y) ==> #[trigger] image.pixel(x, y) == pixel_color(x, y, image.side())
}

/// Whether a pixel belongs to the band depends on `x + y` alone.
pub proof fn lemma_band_depends_on_sum(x1: int, y1: int, x2: int, y2: int, side: nat)
    requires
        x1 + y1 == x2 + y2,
    ensures
        near_midline(x1, y1, side) == near_midline(x2, y2, side),
{
}

/// The band is an open interval of diagonals: a pixel is in it exactly when
/// `x + y` lies strictly between `side - half_width` and `side + half_width`,
/// so the two bounding diagonals themselves are outside.
pub proof fn lemma_band_is_open(x: int, y: int, side: nat)
    ensures
        near_midline(x, y, side) <==> side - half_width(side) < x + y < side + half_width(side),
        x + y == side - half_width(side) ==> !near_midline(x, y, side),
        x + y == side + half_width(side) ==> !near_midline(x, y, side),
{
}

/// Where the half-width rounds down to zero the band is empty: not even the
/// anti-diagonal `x + y == side` belongs to it.
pub proof fn lemma_band_empty_when_narrow(x: int, y: int, side: nat)
    requires
        half_width(side) == 0,
    ensures
        !near_midline(x, y, side),
{
}

/// The half-width is zero exactly for sides below 22, which among the
/// powers of two are the sides up to 16.
pub proof fn lemma_half_width_zero(side: nat)
    ensures
        half_width(side) == 0 <==> side < 22,
{
}

/// Every pixel of a striped image has one of two colours, and which one is
/// decided by the band alone: band pixels are (196, 50, 50, 255), all others
/// (50, 50, 50, 255).
pub proof fn lemma_two_colors(image: ImageView, size_power: nat, x: int, y: int)
    requires
        is_stripe_image(image, size_power),
        image.contains(x, y),
    ensures
        near_midline(x, y, image.side()) ==> image.pixel(x, y) == (Rgba {
            red: 196,
            green: 50,
            blue: 50,
            alpha: 255,
        }),
        !near_midline(x, y, image.side()) ==> image.pixel(x, y) == (Rgba {
            red: 50,
            green: 50,
            blue: 50,
            alpha: 255,
        }),
{
}

/// A striped image is square with side `2^size_power`, four bytes a pixel.
pub proof fn lemma_stripe_image_dimensions(image: ImageView, size_power: nat)
    requires
        is_stripe_image(image, size_power),
    ensures
        image.side() == pow2(size_power),
        image.bytes.len() == 4 * pow2(size_power) * pow2(size_power),
{
}

/// Splits a byte index of a row-major RGBA buffer into column, row and
/// channel.
proof fn lemma_locate_byte(i: int, side: int)
    requires
        side > 0,
        0 <= i < 4 * side * side,
    ensures
        0 <= (i / 4) % side < side,
        0 <= (i / 4) / side < side,
        0 <= i % 4 < 4,
        i == pixel_offset(side, (i / 4) % side, (i / 4) / side) + i % 4,
{
    let q = i / 4;
    assert(0 <= q < side * side) by (nonlinear_arith)
        requires
            q == i / 4,
            0 <= i < 4 * side * side,
    ;
    assert(0 <= q / side < side && 0 <= q % side < side && q == (q / side) * side + q % side)
        by (nonlinear_arith)
        requires
            side > 0,
            0 <= q < side * side,
    ;
}

/// There is only one striped image of a given size: two images that both
/// meet the generator's contract for the same exponent agree byte for byte.
pub proof fn lemma_stripe_image_unique(a: ImageView, b: ImageView, size_power: nat)
    requires
        is_stripe_image(a, size_power),
        is_stripe_image(b, size_power),
    ensures
        a == b,
{
    let side = pow2(size_power) as int;
    lemma_side_bound(size_power);
    assert forall|i: int| 0 <= i < a.bytes.len() implies a.bytes[i] == b.bytes[i] by {
        lemma_locate_byte(i, side);
        let x = (i / 4) % side;
        let y = (i / 4) / side;
        assert(a.pixel(x, y) == b.pixel(x, y));
    }
    assert(a.bytes =~= b.bytes);
}

/// Half-width of the band for a side of `side` pixels.
pub fn stripe_half_width(side: u32) -> (diff: u32)
    ensures
        diff == half_width(side as nat),
{
    let scaled: u64 = 3 * (side as u64);
    (scaled / 64) as u32
}

/// Decides whether `(x, y)` lies in the band.
pub fn is_near_midline(x: u32, y: u32, side: u32) -> (near: bool)
    ensures
        near == near_midline(x as int, y as int, side as nat),
{
    let diff: u64 = stripe_half_width(side) as u64;
    let sum: u64 = x as u64 + y as u64;
    let middle: u64 = side as u64;
    sum < middle + diff && sum > middle - diff
}

/// Colour of the pixel `(x, y)`.
pub fn stripe_pixel(x: u32, y: u32, side: u32) -> (p: Rgba)
    ensures
        p == pixel_color(x as int, y as int, side as nat),
{
    if is_near_midline(x, y, side) {
        Rgba { red: 196, green: 50, blue: 50, alpha: 255 }
    } else {
        Rgba { red: 50, green: 50, blue: 50, alpha: 255 }
    }
}

/// Generates the striped image of side `2^size_power`.
///
/// The image has to fit a vector on this machine; [`try_generate_image`]
/// tests that first.
pub fn generate_image(size_power: u32) -> (image: Image)
    requires
        image_fits(size_power as nat),
    ensures
        is_stripe_image(image@, size_power as nat),
        image@.side() == pow2(size_power as nat),
{
    let side = side_length(size_power);
    let paint = |x: u32, y: u32| -> (p: Rgba)
        ensures
            p == pixel_color(x as int, y as int, side as nat),
        { stripe_pixel(x, y, side) };
    proof {
        lemma_side_bound(size_power as nat);
        assert(4 * side <= 4 * side * side) by (nonlinear_arith)
            requires
                side >= 1,
        ;
    }
    let raw = buffer_from_fn(side, side, paint);
    let image = Image::from_raw(size_power, raw).unwrap();
    assert forall|x: int, y: int| image@.contains(x, y) implies #[trigger] image@.pixel(x, y)
        == pixel_color(x, y, image@.side()) by {
        assert(call_ensures(paint, (x as u32, y as u32), image@.pixel(x, y)));
    }
    image
}

/// Generates the striped image of side `2^size_power` if such an image fits
/// this machine, and says so with `None` if it does not.
pub fn try_generate_image(size_power: u32) -> (result: Option<Image>)
    ensures
        result is Some <==> image_fits(size_power as nat),
        result matches Some(image) ==> is_stripe_image(image@, size_power as nat),
{
    if size_power > MAX_SIZE_POWER {
        return None;
    }
    let needed: u64 = buffer_len(size_power);
    if needed > isize::MAX as u64 {
        return None;
    }
    Some(generate_image(size_power))
}

} // verus!
