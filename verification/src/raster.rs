//! The host-side image: a square RGBA bitmap whose side is a power of two.
//!
//! The pixels live in one byte vector, row by row, four bytes per pixel. The
//! two places where the crate builds such a buffer or reads a pixel out of it
//! go through the `image` crate's `ImageBuffer`.

use vstd::prelude::*;
use vstd::arithmetic::power2::{pow2, lemma_pow2_pos, lemma_pow2_strictly_increases, lemma2_to64};
use vstd::bits::lemma_u64_shl_is_mul;
use crate::pixel::{Rgba, pixel_in};

verus! {

/// The largest exponent an image side can have: `2^30` pixels per side.
pub const MAX_SIZE_POWER: u32 = 30;

/// What an [`Image`] is, mathematically: the exponent of its side and its
/// bytes in row-major order.
pub struct ImageView {
    pub size_power: nat,
    pub bytes: Seq<u8>,
}

impl ImageView {
    /// Pixels per row, which is also the number of rows.
    pub open spec fn side(self) -> nat {
        pow2(self.size_power)
    }

    /// The buffer holds exactly `side * side` pixels of four bytes.
    pub open spec fn wf(self) -> bool {
        &&& self.size_power <= MAX_SIZE_POWER
        &&& self.bytes.len() == 4 * self.side() * self.side()
    }

    /// `(x, y)` names a pixel of the image.
    pub open spec fn contains(self, x: int, y: int) -> bool {
        0 <= x < self.side() && 0 <= y < self.side()
    }

    /// The pixel in column `x` of row `y`.
    pub open spec fn pixel(self, x: int, y: int) -> Rgba {
        pixel_in(self.bytes, self.side() as int, x, y)
    }
}

/// A square RGBA image of side `2^size_power`.
#[derive(Debug, PartialEq, Eq)]
pub struct Image {
    size_power: u32,
    data: Vec<u8>,
}

impl View for Image {
    type V = ImageView;

    closed spec fn view(&self) -> ImageView {
        ImageView { size_power: self.size_power as nat, bytes: self.data@ }
    }
}

impl Clone for Image {
    fn clone(&self) -> (copy: Image)
        ensures
            copy@ == self@,
    {
        Image { size_power: self.size_power, data: self.data.clone() }
    }
}

/// Whether a buffer for an image of side `2^size_power` can exist on this
/// machine: its length in bytes has to fit a vector.
pub open spec fn image_fits(size_power: nat) -> bool {
    &&& size_power <= MAX_SIZE_POWER
    &&& 4 * pow2(size_power) * pow2(size_power) <= isize::MAX
}

/// Sides up to the largest exponent fit 31 bits.
pub proof fn lemma_side_bound(size_power: nat)
    requires
        size_power <= MAX_SIZE_POWER,
    ensures
        1 <= pow2(size_power) <= 0x4000_0000,
{
    lemma_pow2_pos(size_power);
    lemma2_to64();
    if size_power < 30 {
        lemma_pow2_strictly_increases(size_power, 30);
    }
}

/// `2^size_power` as a machine integer.
pub fn side_length(size_power: u32) -> (side: u32)
    requires
        size_power <= MAX_SIZE_POWER,
    ensures
        side == pow2(size_power as nat),
{
    proof {
        lemma_side_bound(size_power as nat);
        lemma_u64_shl_is_mul(1, size_power as u64);
    }
    let wide: u64 = 1u64 << (size_power as u64);
    wide as u32
}

/// The number of bytes that the pixels of an image of side `2^size_power`
/// take: four for each of `side * side` pixels.
pub fn buffer_len(size_power: u32) -> (len: u64)
    requires
        size_power <= MAX_SIZE_POWER,
    ensures
        len == 4 * pow2(size_power as nat) * pow2(size_power as nat),
{
    let side: u64 = side_length(size_power) as u64;
    proof {
        lemma_side_bound(size_power as nat);
        assert(side * side <= 0x4000_0000 * 0x4000_0000) by (nonlinear_arith)
            requires
                side <= 0x4000_0000,
        ;
        assert(4 * (side * side) == 4 * side * side) by (nonlinear_arith);
    }
    4 * (side * side)
}

/// Reads one pixel out of a row-major RGBA buffer.
///
/// This views the bytes through `image::ImageBuffer::from_raw` and calls
/// `get_pixel`. For a buffer of exactly `width * height` pixels the view
/// exists, and for in-range coordinates `get_pixel` hands out the four bytes
/// that start at `4 * (y * width + x)`; out of range it panics, which the
/// precondition rules out.
#[verifier::external_body]
fn buffer_get_pixel(data: &[u8], width: u32, height: u32, x: u32, y: u32) -> (p: Rgba)
    requires
        data@.len() == 4 * width * height,
        x < width,
        y < height,
    ensures
        p == pixel_in(data@, width as int, x as int, y as int),
{
    let buffer = image::ImageBuffer::<image::Rgba<u8>, &[u8]>::from_raw(width, height, data).unwrap();
    let p = buffer.get_pixel(x, y).0;
    Rgba { red: p[0], green: p[1], blue: p[2], alpha: p[3] }
}

/// Builds a row-major RGBA buffer by asking `f` for every pixel.
///
/// This is `image::ImageBuffer::from_fn` followed by `into_raw`. The contract
/// restates what that function documents: the buffer has four bytes for each
/// of the `width * height` pixels, `f` is called with in-range coordinates
/// only, and the pixel at `(x, y)` holds what `f` returned for `(x, y)`.
///
/// The outside function works the length out as four times the width, then
/// times the height, and panics when either product leaves `usize`, also for
/// a height of zero; after that it panics when the length is more than a
/// vector can hold. The first two preconditions keep all of these out.
#[verifier::external_body]
pub(crate) fn buffer_from_fn<F: Fn(u32, u32) -> Rgba>(width: u32, height: u32, f: F) -> (raw: Vec<u8>)
    requires
        4 * width <= usize::MAX,
        4 * width * height <= isize::MAX,
        forall|x: u32, y: u32| x < width && y < height ==> call_requires(f, (x, y)),
    ensures
        raw@.len() == 4 * width * height,
        forall|x: int, y: int|
            0 <= x < width && 0 <= y < height ==> call_ensures(
                f,
                (x as u32, y as u32),
                #[trigger] pixel_in(raw@, width as int, x, y),
            ),
{
    image::ImageBuffer::from_fn(
        width,
        height,
        |x, y| {
            let p = f(x, y);
            image::Rgba([p.red, p.green, p.blue, p.alpha])
        },
    ).into_raw()
}

impl Image {
    /// The invariant of the type, stated on its view.
    pub open spec fn wf(&self) -> bool {
        self@.wf()
    }

    /// Takes ownership of `data` as the pixels of an image of side
    /// `2^size_power`; `None` unless the exponent is in range and the buffer
    /// has exactly the length such an image needs.
    pub fn from_raw(size_power: u32, data: Vec<u8>) -> (result: Option<Image>)
        ensures
            result is Some <==> size_power <= MAX_SIZE_POWER && data@.len() == 4 * pow2(
                size_power as nat,
            ) * pow2(size_power as nat),
            result matches Some(image) ==> image.wf() && image@.size_power == size_power
                && image@.bytes == data@,
    {
        if size_power > MAX_SIZE_POWER {
            return None;
        }
        let needed: u64 = buffer_len(size_power);
        if data.len() as u64 != needed {
            return None;
        }
        Some(Image { size_power, data })
    }

    /// Gives the pixel buffer back.
    pub fn into_raw(self) -> (data: Vec<u8>)
        ensures
            data@ == self@.bytes,
    {
        self.data
    }

    /// The pixels as bytes, row by row.
    pub fn as_bytes(&self) -> (bytes: &[u8])
        ensures
            bytes@ == self@.bytes,
    {
        self.data.as_slice()
    }

    /// The exponent of the side.
    pub fn size_power(&self) -> (size_power: u32)
        ensures
            size_power == self@.size_power,
    {
        self.size_power
    }

    /// Pixels per row.
    pub fn width(&self) -> (width: u32)
        requires
            self.wf(),
        ensures
            width == self@.side(),
    {
        side_length(self.size_power)
    }

    /// Number of rows.
    pub fn height(&self) -> (height: u32)
        requires
            self.wf(),
        ensures
            height == self@.side(),
    {
        side_length(self.size_power)
    }

    /// Size of the pixel buffer in bytes: `width * height * 4`.
    pub fn byte_len(&self) -> (len: usize)
        requires
            self.wf(),
        ensures
            len == 4 * self@.side() * self@.side(),
    {
        self.data.len()
    }

    /// The pixel in column `x` of row `y`.
    pub fn pixel(&self, x: u32, y: u32) -> (p: Rgba)
        requires
            self.wf(),
            self@.contains(x as int, y as int),
        ensures
            p == self@.pixel(x as int, y as int),
    {
        let side = side_length(self.size_power);
        buffer_get_pixel(self.data.as_slice(), side, side, x, y)
    }
}

} // verus!
