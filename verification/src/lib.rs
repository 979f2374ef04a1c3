//! Deterministic diagonal-stripe test images and the decision logic of a
//! benchmark that pushes such an image through a compute device.
//!
//! The crate is split in two halves. The first half builds the image: a
//! square RGBA bitmap whose side is a power of two, grey with a reddish band
//! along the anti-diagonal. The second half is a small state machine that
//! tells its caller what to do next (prepare the device, dispatch a pass,
//! report, abort) and digests what came back: it spot-checks every frame,
//! records how long every pass took and sums the run up at the end. The
//! device, the clock and the console stay with the caller.

pub mod driver;
pub mod pixel;
pub mod raster;
pub mod sampling;
pub mod stats;
pub mod stripe;
