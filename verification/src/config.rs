//! Render configuration: image geometry defaults and the runtime options.

use vstd::prelude::*;

verus! {

/// Width over height of the output image, fixed-point (3 : 2).
pub const ASPECT_RATIO: i64 = 1572864;

/// Output image width, pixels.
pub const IMAGE_WIDTH: i32 = 512;

/// Output image height, pixels: the width divided by the aspect ratio.
pub const IMAGE_HEIGHT: i32 = 341;

/// Default number of samples per pixel.
pub const SAMPLES_PER_PIXEL: i32 = 50;

/// Default bounce budget per ray.
pub const MAX_DEPTH: i32 = 50;

/// Whether the scene shows the coordinate axes.
pub const SHOW_AXES: bool = false;

/// Whether import statistics are printed.
pub const SHOW_DIAGONISTICS: bool = false;

/// Runtime options: the output path, the bounce budget, and the number of
/// samples per pixel. Command-line parsing happens outside the library and
/// hands values over in this form.
#[derive(Clone, Debug)]
pub struct Args {
    pub out: String,
    pub maxdepth: i32,
    pub samples: i32,
    pub verbose: bool,
}

} // verus!
