//! Hardware timing parameters and the clock-to-raster-position mapping.

use vstd::prelude::*;
use vstd::arithmetic::div_mod::{
    lemma_div_is_ordered, lemma_fundamental_div_mod, lemma_mod_bound,
};
use vstd::arithmetic::mul::lemma_mul_inequality;
use crate::BYTES_PER_PIXEL;

verus! {

/// A hardware clock count: a monotonically increasing cycle counter used as
/// the timestamp of border color-change events.
#[derive(Clone, Copy, Debug, PartialEq, Eq, Structural)]
pub struct Clocks(pub usize);

impl Clocks {
    /// The raw cycle count.
    pub fn count(&self) -> (r: usize)
        ensures
            r == self.0,
    {
        self.0
    }
}

/// Per-model timing parameters of the raster hardware, together with the
/// frame geometry they drive.
#[derive(Clone, Copy, Debug, PartialEq, Eq, Structural)]
pub struct ZXTimings {
    /// Clock count at which the first visible pixel of the main screen area
    /// is drawn.
    pub clocks_first_pixel: usize,
    /// Clock length of one scanline.
    pub clocks_line: usize,
    /// Beam shift offset added when deriving the frame origin.
    pub beam_shift: usize,
    /// Clocks spent per border column.
    pub clocks_per_col: usize,
    /// Pixels painted per clock cycle.
    pub pixels_per_clock: usize,
    /// Border scanlines above the main screen area.
    pub border_rows: usize,
    /// Border columns left of the main screen area.
    pub border_cols: usize,
    /// Frame width in pixels.
    pub screen_width: usize,
    /// Frame height in scanlines.
    pub screen_height: usize,
}

impl ZXTimings {
    /// Clock count at which the very first border pixel of a frame is drawn.
    pub open spec fn origin(self) -> int {
        self.clocks_first_pixel + self.beam_shift - self.border_rows * self.clocks_line
            - self.border_cols * self.clocks_per_col
    }

    /// The parameters describe a realizable raster: positive geometry, a
    /// width the per-clock pixel step divides evenly, a non-negative origin,
    /// and products that fit the machine word.
    pub open spec fn wf(self) -> bool {
        &&& 1 <= self.clocks_line
        &&& 1 <= self.pixels_per_clock
        &&& 1 <= self.screen_width
        &&& 1 <= self.screen_height
        &&& self.screen_width % self.pixels_per_clock == 0
        &&& self.clocks_first_pixel + self.beam_shift <= usize::MAX
        &&& self.border_rows * self.clocks_line + self.border_cols * self.clocks_per_col
            <= self.clocks_first_pixel + self.beam_shift
        &&& self.clocks_line * self.pixels_per_clock <= usize::MAX
        &&& self.screen_width * self.screen_height * BYTES_PER_PIXEL <= usize::MAX
    }

    /// Number of pixels in one frame.
    pub open spec fn pixel_count(self) -> int {
        self.screen_width * self.screen_height
    }
}

/// The raster position `(line, pixel)` the beam occupies at a clock count,
/// and whether the beam has left the visible frame.
///
/// Before the frame origin the mapping reports the first pixel. From the
/// origin on, the scanline is the relative count divided by the line length,
/// and the pixel is the next pixel boundary after the cycles spent on that
/// line; a pixel at or past the right edge wraps to the start of the next
/// line, and a line at or past the bottom reports the end of the frame.
pub open spec fn beam_pos(t: ZXTimings, clock: int) -> (int, int, bool) {
    if clock < t.origin() {
        (0, 0, false)
    } else {
        let rel = clock - t.origin();
        let line = rel / (t.clocks_line as int);
        let rem = rel % (t.clocks_line as int);
        if rem * t.pixels_per_clock >= t.screen_width {
            if line + 1 >= t.screen_height {
                (0, 0, true)
            } else {
                (line + 1, 0, false)
            }
        } else {
            if line >= t.screen_height {
                (0, 0, true)
            } else {
                (line, (rem + 1) * t.pixels_per_clock, false)
            }
        }
    }
}

/// The scanline the mapping computes for a clock at or past the origin,
/// after a right-edge wrap but before the bottom-of-frame check.
pub open spec fn beam_line(t: ZXTimings, clock: int) -> int {
    let rel = clock - t.origin();
    let line = rel / (t.clocks_line as int);
    if (rel % (t.clocks_line as int)) * t.pixels_per_clock >= t.screen_width {
        line + 1
    } else {
        line
    }
}

/// Law: for every clock value below the computed origin, the mapping
/// returns `(0, 0, false)`.
pub proof fn lemma_beam_pos_before_origin(t: ZXTimings, clock: int)
    requires
        t.wf(),
        clock < t.origin(),
    ensures
        beam_pos(t, clock) == (0int, 0int, false),
{
}

/// Law: for every clock value whose computed scanline reaches or exceeds
/// the frame height, the mapping returns exactly `(0, 0, true)`.
pub proof fn lemma_beam_pos_past_frame(t: ZXTimings, clock: int)
    requires
        t.wf(),
        t.origin() <= clock,
        beam_line(t, clock) >= t.screen_height,
    ensures
        beam_pos(t, clock) == (0int, 0int, true),
{
}

/// Flat pixel index of a raster position.
pub open spec fn pos_index(t: ZXTimings, line: int, pixel: int) -> int {
    line * t.screen_width + pixel
}

/// Every clock value maps to a position inside the frame: a visible position
/// lies strictly before the bottom line, at or left of the right edge, and
/// its flat index stays within the frame's pixel count, while a clock past
/// the frame reports the first pixel.
pub proof fn lemma_beam_pos_bounds(t: ZXTimings, clock: int)
    requires
        t.wf(),
    ensures
        0 <= beam_pos(t, clock).0,
        0 <= beam_pos(t, clock).1,
        !beam_pos(t, clock).2 ==> beam_pos(t, clock).0 < t.screen_height,
        !beam_pos(t, clock).2 ==> beam_pos(t, clock).1 <= t.screen_width,
        pos_index(t, beam_pos(t, clock).0, beam_pos(t, clock).1) <= t.pixel_count(),
        beam_pos(t, clock).2 ==> beam_pos(t, clock).0 == 0 && beam_pos(t, clock).1 == 0,
{
    let w = t.screen_width as int;
    let h = t.screen_height as int;
    let ppc = t.pixels_per_clock as int;
    let cpl = t.clocks_line as int;
    if clock < t.origin() {
    } else {
        let rel = clock - t.origin();
        let line = rel / cpl;
        let rem = rel % cpl;
        lemma_mod_bound(rel, cpl);
        lemma_div_is_ordered(0, rel, cpl);
        if rem * ppc >= w {
            if line + 1 >= h {
            } else {
                assert((line + 1) * w + 0 <= h * w) by (nonlinear_arith)
                    requires line + 1 <= h, w >= 0;
            }
        } else {
            if line >= h {
            } else {
                lemma_pixel_step_within_width(t, rem);
                assert(line * w <= (h - 1) * w) by (nonlinear_arith)
                    requires line <= h - 1, w >= 0;
                assert((h - 1) * w + w == h * w) by (nonlinear_arith);
            }
        }
    }
}

/// The mapping respects raster order: of two clock values that both map to
/// visible positions, the earlier clock maps to a position whose flat index
/// is at or before the later one's.
pub proof fn lemma_beam_pos_monotonic(t: ZXTimings, c1: int, c2: int)
    requires
        t.wf(),
        c1 <= c2,
        !beam_pos(t, c1).2,
        !beam_pos(t, c2).2,
    ensures
        pos_index(t, beam_pos(t, c1).0, beam_pos(t, c1).1)
            <= pos_index(t, beam_pos(t, c2).0, beam_pos(t, c2).1),
{
    let w = t.screen_width as int;
    let cpl = t.clocks_line as int;
    let ppc = t.pixels_per_clock as int;
    let bp1 = beam_pos(t, c1);
    let bp2 = beam_pos(t, c2);
    lemma_beam_pos_bounds(t, c1);
    lemma_beam_pos_bounds(t, c2);
    assert(pos_index(t, bp1.0, bp1.1) == bp1.0 * w + bp1.1);
    assert(pos_index(t, bp2.0, bp2.1) == bp2.0 * w + bp2.1);
    if c1 < t.origin() {
        assert(bp2.0 * w >= 0) by (nonlinear_arith)
            requires bp2.0 >= 0, w >= 0;
        assert(bp1.0 * w == 0) by (nonlinear_arith)
            requires bp1.0 == 0;
        assert(bp1.0 * w + bp1.1 <= bp2.0 * w + bp2.1);
    } else {
        let r1 = c1 - t.origin();
        let r2 = c2 - t.origin();
        let l1 = r1 / cpl;
        let m1 = r1 % cpl;
        let l2 = r2 / cpl;
        let m2 = r2 % cpl;
        lemma_div_is_ordered(r1, r2, cpl);
        lemma_mod_bound(r1, cpl);
        lemma_mod_bound(r2, cpl);
        if l1 == l2 {
            lemma_fundamental_div_mod(r1, cpl);
            lemma_fundamental_div_mod(r2, cpl);
            assert(m1 <= m2);
            assert(bp1.0 * w + bp1.1 <= bp2.0 * w + bp2.1) by {
                lemma_mul_inequality(m1, m2, ppc);
                if m1 * ppc >= w {
                } else if m2 * ppc >= w {
                    lemma_pixel_step_within_width(t, m1);
                    assert(l1 * w + (m1 + 1) * ppc <= (l1 + 1) * w) by (nonlinear_arith)
                        requires (m1 + 1) * ppc <= w;
                } else {
                    lemma_mul_inequality(m1 + 1, m2 + 1, ppc);
                }
            }
        } else {
            assert(l1 + 1 <= l2);
            if m1 * ppc >= w {
                assert(bp1.0 == l1 + 1 && bp1.1 == 0);
            } else {
                lemma_pixel_step_within_width(t, m1);
                assert(l1 * w + (m1 + 1) * ppc <= (l1 + 1) * w) by (nonlinear_arith)
                    requires (m1 + 1) * ppc <= w;
            }
            assert(bp1.0 * w + bp1.1 <= (l1 + 1) * w);
            lemma_mul_inequality(l1 + 1, bp2.0, w);
            assert((l1 + 1) * w <= bp2.0 * w + bp2.1);
            assert(bp1.0 * w + bp1.1 <= bp2.0 * w + bp2.1);
        }
    }
}

/// A pixel step that starts strictly left of the right edge ends at or left
/// of it, because the width is a whole number of per-clock steps.
pub proof fn lemma_pixel_step_within_width(t: ZXTimings, rem: int)
    requires
        t.wf(),
        0 <= rem,
        rem * t.pixels_per_clock < t.screen_width,
    ensures
        (rem + 1) * t.pixels_per_clock <= t.screen_width,
{
    let w = t.screen_width as int;
    let ppc = t.pixels_per_clock as int;
    let k = w / ppc;
    lemma_fundamental_div_mod(w, ppc);
    assert(w == k * ppc);
    assert(rem + 1 <= k) by (nonlinear_arith)
        requires rem * ppc < k * ppc, ppc >= 1, 0 <= rem;
    lemma_mul_inequality(rem + 1, k, ppc);
}

} // verus!
