//! The settings of the picture that the renderer makes.

use vstd::prelude::*;

verus! {

/// The file that the picture is written to.
pub const OUTPUT_PATH: &'static str = "image.ppm";

/// The picture's width in pixels.
pub const IMAGE_WIDTH: usize = 1200;

/// The picture's height in pixels: its width at three to two.
pub const IMAGE_HEIGHT: usize = 800;

/// The rays that are averaged for a pixel.
pub const SAMPLES_PER_PIXEL: usize = 500;

/// The bounces after which a path is given up.
pub const MAX_DEPTH: usize = 50;

} // verus!
