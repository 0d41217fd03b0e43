//! The size of the rendering buffer that a host hands to the emulator.

use vstd::prelude::*;

verus! {

/// Width of a rendering buffer, in pixels.
pub const WIDTH: usize = 512;

/// Height of a rendering buffer, in pixels.
pub const HEIGHT: usize = 480;

/// Pixels in a rendering buffer.
pub const PIXELS: usize = WIDTH * HEIGHT;

} // verus!
