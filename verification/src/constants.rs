//! The discrete render parameters: image size, sampling effort, recursion
//! cap and worker count. The continuous camera parameters (field of view,
//! aspect ratio, eye placement) belong to the floating-point front end and
//! live with it.

use vstd::prelude::*;

verus! {

/// Pixels horizontally.
pub const IMAGE_WIDTH: i32 = 1200;

/// Rays traced per pixel.
pub const SAMPLES_PER_PIXEL: i32 = 500;

/// Recursion cap of the path integrator.
pub const MAX_DEPTH: i32 = 50;

/// Size of the worker pool.
pub const THREADS_NUM: i32 = 7;

} // verus!
