//! Spot checks: three pixels on the main diagonal of a frame, compared with
//! the values the caller expects there.
//!
//! The points sit a quarter, a half and three quarters of the way along the
//! diagonal. Only the red and the green channel are compared. What to expect
//! depends on the kernel that produced the frame, so the expected values are
//! the caller's to give.

use vstd::prelude::*;
use crate::pixel::Rgba;
use crate::raster::{Image, ImageView, lemma_side_bound};

verus! {

/// A pixel coordinate.
#[derive(Clone, Copy, Debug, PartialEq, Eq)]
pub struct SamplePoint {
    pub x: u32,
    pub y: u32,
}

/// The three sample points of an image.
#[derive(Clone, Copy, Debug, PartialEq, Eq)]
pub struct SamplePoints {
    pub quarter: SamplePoint,
    pub half: SamplePoint,
    pub three_quarter: SamplePoint,
}

/// The red and green values expected at one sample point.
#[derive(Clone, Copy, Debug, PartialEq, Eq)]
pub struct Expected {
    pub red: u8,
    pub green: u8,
}

/// The values expected at the three sample points.
#[derive(Clone, Copy, Debug, PartialEq, Eq)]
pub struct Expectations {
    pub quarter: Expected,
    pub half: Expected,
    pub three_quarter: Expected,
}

/// A sample point whose pixel is not what was expected.
#[derive(Clone, Copy, Debug, PartialEq, Eq)]
pub struct Mismatch {
    pub point: SamplePoint,
    pub expected: Expected,
    pub actual: Rgba,
}

/// The point `(c, c)` on the main diagonal.
pub open spec fn diagonal_point(c: nat) -> SamplePoint {
    SamplePoint { x: c as u32, y: c as u32 }
}

/// The sample points of an image of side `side`: `side / 4`, `side / 2` and
/// `side / 4 * 3` along the diagonal, each division rounding down.
pub open spec fn sample_points_of(side: nat) -> SamplePoints {
    SamplePoints {
        quarter: diagonal_point(side / 4),
        half: diagonal_point(side / 2),
        three_quarter: diagonal_point(side / 4 * 3),
    }
}

/// The red and green channels of `pixel` are the expected ones.
pub open spec fn sample_matches(pixel: Rgba, expected: Expected) -> bool {
    pixel.red == expected.red && pixel.green == expected.green
}

/// What a check of `point` yields: nothing if the pixel there is as
/// expected, else a record of what was found.
pub open spec fn mismatch_at(image: ImageView, point: SamplePoint, expected: Expected) -> Option<
    Mismatch,
> {
    let actual = image.pixel(point.x as int, point.y as int);
    if sample_matches(actual, expected) {
        None
    } else {
        Some(Mismatch { point, expected, actual })
    }
}

/// The first sample point, in the order quarter, half, three quarters, whose
/// pixel is not as expected; `None` if all three are.
pub open spec fn first_mismatch(image: ImageView, expected: Expectations) -> Option<Mismatch> {
    let points = sample_points_of(image.side());
    if mismatch_at(image, points.quarter, expected.quarter) is Some {
        mismatch_at(image, points.quarter, expected.quarter)
    } else if mismatch_at(image, points.half, expected.half) is Some {
        mismatch_at(image, points.half, expected.half)
    } else {
        mismatch_at(image, points.three_quarter, expected.three_quarter)
    }
}

/// All three sample points lie inside the image, whatever its side.
pub proof fn lemma_sample_points_inside(image: ImageView)
    requires
        image.wf(),
    ensures
        ({
            let points = sample_points_of(image.side());
            &&& image.contains(points.quarter.x as int, points.quarter.y as int)
            &&& image.contains(points.half.x as int, points.half.y as int)
            &&& image.contains(points.three_quarter.x as int, points.three_quarter.y as int)
            &&& points.quarter.x == image.side() / 4
            &&& points.half.x == image.side() / 2
            &&& points.three_quarter.x == image.side() / 4 * 3
        }),
{
    lemma_side_bound(image.size_power);
}

/// A frame passes the check exactly when red and green are as expected at
/// each of the three points.
pub proof fn lemma_no_mismatch(image: ImageView, expected: Expectations)
    ensures
        first_mismatch(image, expected) is None <==> ({
            let points = sample_points_of(image.side());
            &&& sample_matches(
                image.pixel(points.quarter.x as int, points.quarter.y as int),
                expected.quarter,
            )
            &&& sample_matches(
                image.pixel(points.half.x as int, points.half.y as int),
                expected.half,
            )
            &&& sample_matches(
                image.pixel(points.three_quarter.x as int, points.three_quarter.y as int),
                expected.three_quarter,
            )
        }),
{
}

/// Computes the three sample points for an image of side `side`.
pub fn sample_points(side: u32) -> (points: SamplePoints)
    ensures
        points == sample_points_of(side as nat),
{
    let quarter: u32 = side / 4;
    let half: u32 = side / 2;
    let three_quarter: u32 = quarter * 3;
    SamplePoints {
        quarter: SamplePoint { x: quarter, y: quarter },
        half: SamplePoint { x: half, y: half },
        three_quarter: SamplePoint { x: three_quarter, y: three_quarter },
    }
}

/// Checks one sample point of `image`.
pub fn check_sample(image: &Image, point: SamplePoint, expected: Expected) -> (result: Option<
    Mismatch,
>)
    requires
        image.wf(),
        image@.contains(point.x as int, point.y as int),
    ensures
        result == mismatch_at(image@, point, expected),
{
    let actual = image.pixel(point.x, point.y);
    if actual.red == expected.red && actual.green == expected.green {
        None
    } else {
        Some(Mismatch { point, expected, actual })
    }
}

/// Checks the three sample points of `image` in order and reports the first
/// that is not as expected.
pub fn check_samples(image: &Image, expected: &Expectations) -> (result: Option<Mismatch>)
    requires
        image.wf(),
    ensures
        result == first_mismatch(image@, *expected),
{
    proof {
        lemma_sample_points_inside(image@);
    }
    let points = sample_points(image.width());
    let quarter = check_sample(image, points.quarter, expected.quarter);
    if quarter.is_some() {
        return quarter;
    }
    let half = check_sample(image, points.half, expected.half);
    if half.is_some() {
        return half;
    }
    check_sample(image, points.three_quarter, expected.three_quarter)
}

} // verus!
