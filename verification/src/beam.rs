//! Beam position bookkeeping: a raster position and the color active since
//! the beam passed it.

use vstd::prelude::*;
use crate::colors::ZXColor;

verus! {

/// A raster position `(line, pixel)` together with the color that has been
/// active since the beam passed that position.
#[derive(Clone, Copy, Debug, PartialEq, Eq, Structural)]
pub struct BeamInfo {
    pub line: usize,
    pub pixel: usize,
    pub color: ZXColor,
}

impl BeamInfo {
    /// A beam at the first pixel of the frame with the given color.
    pub fn first_pixel(color: ZXColor) -> (r: BeamInfo)
        ensures
            r == (BeamInfo { line: 0, pixel: 0, color }),
    {
        BeamInfo::new(0, 0, color)
    }

    /// A beam at the given position with the given color.
    pub fn new(line: usize, pixel: usize, color: ZXColor) -> (r: BeamInfo)
        ensures
            r == (BeamInfo { line, pixel, color }),
    {
        BeamInfo { line, pixel, color }
    }

    /// Whether the beam stands on the first pixel of the frame.
    pub fn is_first_pixel(&self) -> (r: bool)
        ensures
            r == (self.line == 0 && self.pixel == 0),
    {
        self.line == 0 && self.pixel == 0
    }

    /// Moves the position back to the first pixel, keeping the color.
    pub fn reset(&mut self)
        ensures
            *final(self) == (BeamInfo { line: 0, pixel: 0, color: old(self).color }),
    {
        self.line = 0;
        self.pixel = 0;
    }
}

} // verus!
