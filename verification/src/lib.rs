//! Border renderer for a raster display driven by a cycle-accurate clock.
//!
//! Color-change events, each stamped with a hardware clock count, are turned
//! into a fully rendered border pixel buffer: the renderer maps clock values
//! to raster positions and paints the spans the beam crossed with the color
//! that was active while it crossed them.

pub mod beam;
pub mod border;
pub mod colors;
pub mod laws;
pub mod timing;

use vstd::prelude::*;

verus! {

/// Number of bytes one rendered pixel occupies in the buffer (RGBA).
pub const BYTES_PER_PIXEL: usize = 4;

} // verus!
