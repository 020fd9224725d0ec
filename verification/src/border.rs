//! The border renderer: owns the rendered pixel buffer, the last beam state,
//! and the per-frame bookkeeping flags, and paints spans of the buffer as
//! color-change events arrive.

use vstd::prelude::*;
use vstd::pervasive::VecAdditionalExecFns;
use crate::BYTES_PER_PIXEL;
use crate::beam::BeamInfo;
use crate::colors::{palette_rgba, ZXBrightness, ZXColor, ZXPalette};
use crate::timing::{beam_pos, lemma_beam_pos_bounds, pos_index, Clocks, ZXTimings};

verus! {

/// The buffer that results from painting every pixel index in
/// `[start, end)` of `buf` with the four bytes of `rgba`, leaving every
/// other byte unchanged. An empty range (`end <= start`) paints nothing.
pub open spec fn fill_bytes(buf: Seq<u8>, start: int, end: int, rgba: Seq<u8>) -> Seq<u8> {
    Seq::new(buf.len(), |i: int| if start * 4 <= i < end * 4 {
        rgba[i % 4]
    } else {
        buf[i]
    })
}

/// The four buffer bytes of the pixel at flat index `p`.
pub open spec fn pixel_at(buf: Seq<u8>, p: int) -> Seq<u8> {
    buf.subrange(p * 4, p * 4 + 4)
}

/// A pixel inside the painted range of `fill_bytes` reads back exactly the
/// four painted bytes.
pub proof fn lemma_pixel_at_filled(buf: Seq<u8>, start: int, end: int, rgba: Seq<u8>, p: int)
    requires
        rgba.len() == 4,
        0 <= start <= p < end,
        end * 4 <= buf.len(),
    ensures
        pixel_at(fill_bytes(buf, start, end, rgba), p) == rgba,
{
    vstd::arithmetic::div_mod::lemma_mod_multiples_vanish(p, 0, 4);
    vstd::arithmetic::div_mod::lemma_mod_multiples_vanish(p, 1, 4);
    vstd::arithmetic::div_mod::lemma_mod_multiples_vanish(p, 2, 4);
    vstd::arithmetic::div_mod::lemma_mod_multiples_vanish(p, 3, 4);
    assert(pixel_at(fill_bytes(buf, start, end, rgba), p) =~= rgba);
}

/// Relation between renderer states across one `new_frame` call: if no
/// color change was accepted during the ending frame, the beam position is
/// first reset so that the whole next frame repaints; unless the frame tail
/// was already painted, the buffer is filled from that position to the end
/// of the frame with the carried color; the beam returns to the first pixel
/// keeping its color, and both per-frame flags clear.
pub open spec fn frame_step(pre: ZXBorder, post: ZXBorder) -> bool {
    let t = pre.timings();
    let beam0 = if !pre.changed() {
        BeamInfo { line: 0, pixel: 0, color: pre.beam().color }
    } else {
        pre.beam()
    };
    let start = pos_index(t, beam0.line as int, beam0.pixel as int);
    let filled = if !pre.blocked() {
        fill_bytes(
            pre.buf(),
            start,
            t.pixel_count(),
            palette_rgba(pre.pal(), beam0.color, ZXBrightness::Normal),
        )
    } else {
        pre.buf()
    };
    &&& post.timings() == t
    &&& post.pal() == pre.pal()
    &&& post.buf() == filled
    &&& post.beam() == (BeamInfo { line: 0, pixel: 0, color: pre.beam().color })
    &&& post.changed() == false
    &&& post.blocked() == false
}

/// Relation between renderer states across one `set_border(clock, color)`
/// call: the span from the last beam position to the position the clock
/// maps to — or to the end of the frame, when the clock maps past it — is
/// painted with the previous color, unless the frame tail was already
/// painted; the beam moves to the mapped position carrying the new color,
/// the frame is marked changed, and a clock past the frame blocks further
/// painting until the next frame.
pub open spec fn set_step(pre: ZXBorder, post: ZXBorder, clock: int, color: ZXColor) -> bool {
    let t = pre.timings();
    let bp = beam_pos(t, clock);
    let rgba = palette_rgba(pre.pal(), pre.beam().color, ZXBrightness::Normal);
    let filled = if pre.blocked() {
        pre.buf()
    } else if bp.2 {
        fill_bytes(pre.buf(), pre.beam_index(), t.pixel_count(), rgba)
    } else {
        fill_bytes(pre.buf(), pre.beam_index(), pos_index(t, bp.0, bp.1), rgba)
    };
    &&& post.timings() == t
    &&& post.pal() == pre.pal()
    &&& post.buf() == filled
    &&& post.beam().line as int == bp.0
    &&& post.beam().pixel as int == bp.1
    &&& post.beam().color == color
    &&& post.changed() == true
    &&& post.blocked() == (pre.blocked() || bp.2)
}

/// Border rendering device: reconciles timestamped color-change events with
/// the raster-scan timing model and keeps the buffer consistent with what
/// the beam would have painted.
pub struct ZXBorder {
    timings: ZXTimings,
    palette: ZXPalette,
    buffer: Vec<u8>,
    beam_last: BeamInfo,
    border_changed: bool,
    beam_block: bool,
}

impl ZXBorder {
    /// The timing parameters the renderer was built with.
    pub closed spec fn timings(self) -> ZXTimings {
        self.timings
    }

    /// The color table the renderer was built with.
    pub closed spec fn pal(self) -> Seq<u8> {
        self.palette@
    }

    /// The rendered pixel buffer.
    pub closed spec fn buf(self) -> Seq<u8> {
        self.buffer@
    }

    /// The last recorded beam state.
    pub closed spec fn beam(self) -> BeamInfo {
        self.beam_last
    }

    /// Whether a color change has been accepted since the last frame reset.
    pub closed spec fn changed(self) -> bool {
        self.border_changed
    }

    /// Whether the remainder of the current frame has already been painted.
    pub closed spec fn blocked(self) -> bool {
        self.beam_block
    }

    /// Flat pixel index of the last recorded beam position.
    pub open spec fn beam_index(self) -> int {
        pos_index(self.timings(), self.beam().line as int, self.beam().pixel as int)
    }

    /// Internal invariant: valid timing parameters, a complete color table,
    /// a buffer of exactly one frame, and a beam position inside the frame.
    pub open spec fn wf(self) -> bool {
        &&& self.timings().wf()
        &&& self.pal().len() == 64
        &&& self.buf().len() == self.timings().pixel_count() * BYTES_PER_PIXEL
        &&& 0 <= self.beam_index() <= self.timings().pixel_count()
    }

    /// Builds a renderer with a zeroed buffer, the beam at the first pixel
    /// holding white, a changed frame, and no end-of-frame block.
    pub fn new(timings: ZXTimings, palette: ZXPalette) -> (r: ZXBorder)
        requires
            timings.wf(),
            palette.wf(),
        ensures
            r.wf(),
            r.timings() == timings,
            r.pal() == palette@,
            r.buf() == Seq::new((timings.pixel_count() * BYTES_PER_PIXEL) as nat, |i: int| 0u8),
            r.beam() == (BeamInfo { line: 0, pixel: 0, color: ZXColor::White }),
            r.changed() == true,
            r.blocked() == false,
    {
        let pixels: usize = timings.screen_width * timings.screen_height;
        let total: usize = pixels * BYTES_PER_PIXEL;
        let mut buffer: Vec<u8> = Vec::new();
        let mut i: usize = 0;
        while i < total
            invariant
                i <= total,
                buffer@.len() == i,
                forall|j: int| 0 <= j < i ==> buffer@[j] == 0u8,
            decreases total - i,
        {
            buffer.push(0);
            i += 1;
        }
        proof {
            assert(buffer@ =~= Seq::new((timings.pixel_count() * BYTES_PER_PIXEL) as nat, |i: int| 0u8));
        }
        ZXBorder {
            timings,
            palette,
            buffer,
            beam_last: BeamInfo::first_pixel(ZXColor::White),
            border_changed: true,
            beam_block: false,
        }
    }

    /// Raster position the beam occupies at the given clock count, and
    /// whether the beam has left the visible frame. The hardware paints
    /// `pixels_per_clock` pixels per cycle, so the reported pixel is the
    /// next pixel boundary after the given clock. A clock below the frame
    /// origin reports the first pixel with the frame still open.
    pub fn next_border_pixel(&self, clocks: Clocks) -> (r: (usize, usize, bool))
        requires
            self.timings().wf(),
        ensures
            (r.0 as int, r.1 as int, r.2) == beam_pos(self.timings(), clocks.0 as int),
            clocks.0 < self.timings().origin() ==> r.0 == 0 && r.1 == 0 && !r.2,
            r.2 ==> r.0 == 0 && r.1 == 0,
    {
        let t = self.timings;
        let above: usize = t.border_rows * t.clocks_line;
        let left: usize = t.border_cols * t.clocks_per_col;
        let clocks_origin: usize = t.clocks_first_pixel + t.beam_shift - above - left;
        let c = clocks.count();
        if c < clocks_origin {
            return (0, 0, false);
        }
        let rel: usize = c - clocks_origin;
        let line: usize = rel / t.clocks_line;
        let rem: usize = rel % t.clocks_line;
        proof {
            vstd::arithmetic::div_mod::lemma_mod_bound(rel as int, t.clocks_line as int);
            vstd::arithmetic::mul::lemma_mul_inequality(
                rem as int,
                t.clocks_line as int,
                t.pixels_per_clock as int,
            );
            vstd::arithmetic::mul::lemma_mul_inequality(
                rem + 1,
                t.clocks_line as int,
                t.pixels_per_clock as int,
            );
        }
        if rem * t.pixels_per_clock >= t.screen_width {
            if line >= t.screen_height - 1 {
                (0, 0, true)
            } else {
                (line + 1, 0, false)
            }
        } else {
            if line >= t.screen_height {
                (0, 0, true)
            } else {
                (line, (rem + 1) * t.pixels_per_clock, false)
            }
        }
    }

    /// Paints every pixel from the last recorded beam position (inclusive)
    /// up to the target position (exclusive) with the color active over that
    /// span, resolved at normal brightness; a target not strictly after the
    /// last position leaves the buffer unchanged. The beam state itself is
    /// not moved — the caller updates it afterwards.
    pub fn fill_to(&mut self, line: usize, pixel: usize)
        requires
            old(self).wf(),
            pos_index(old(self).timings(), line as int, pixel as int)
                <= old(self).timings().pixel_count(),
        ensures
            final(self).wf(),
            final(self).buf() == fill_bytes(
                old(self).buf(),
                old(self).beam_index(),
                pos_index(old(self).timings(), line as int, pixel as int),
                palette_rgba(old(self).pal(), old(self).beam().color, ZXBrightness::Normal),
            ),
            pos_index(old(self).timings(), line as int, pixel as int) <= old(self).beam_index()
                ==> final(self).buf() == old(self).buf(),
            final(self).timings() == old(self).timings(),
            final(self).pal() == old(self).pal(),
            final(self).beam() == old(self).beam(),
            final(self).changed() == old(self).changed(),
            final(self).blocked() == old(self).blocked(),
    {
        let last = self.beam_last;
        let rgba = self.palette.get_rgba(last.color, ZXBrightness::Normal);
        let w = self.timings.screen_width;
        let start: usize = last.line * w + last.pixel;
        let end: usize = line * w + pixel;
        let ghost buf0 = self.buffer@;
        let mut p: usize = start;
        while p < end
            invariant
                start <= p,
                p <= end || p == start,
                end <= old(self).timings().pixel_count(),
                self.timings == old(self).timings,
                self.palette == old(self).palette,
                self.beam_last == old(self).beam_last,
                self.border_changed == old(self).border_changed,
                self.beam_block == old(self).beam_block,
                old(self).wf(),
                rgba@.len() == 4,
                self.buffer@.len() == buf0.len(),
                buf0.len() == old(self).timings().pixel_count() * BYTES_PER_PIXEL,
                forall|i: int|
                    0 <= i < buf0.len() ==> self.buffer@[i] == (if start * 4 <= i < p * 4 {
                        rgba@[i % 4]
                    } else {
                        buf0[i]
                    }),
            decreases end - p,
        {
            let base: usize = p * 4;
            self.buffer.set(base, rgba[0]);
            self.buffer.set(base + 1, rgba[1]);
            self.buffer.set(base + 2, rgba[2]);
            self.buffer.set(base + 3, rgba[3]);
            proof {
                vstd::arithmetic::div_mod::lemma_mod_multiples_vanish(p as int, 0, 4);
                vstd::arithmetic::div_mod::lemma_mod_multiples_vanish(p as int, 1, 4);
                vstd::arithmetic::div_mod::lemma_mod_multiples_vanish(p as int, 2, 4);
                vstd::arithmetic::div_mod::lemma_mod_multiples_vanish(p as int, 3, 4);
            }
            p += 1;
        }
        proof {
            let endi = pos_index(old(self).timings(), line as int, pixel as int);
            assert(self.buffer@ =~= fill_bytes(buf0, start as int, endi, rgba@));
            if endi <= start as int {
                assert(fill_bytes(buf0, start as int, endi, rgba@) =~= buf0);
            }
        }
    }

    /// Starts a new frame: repaints the remainder of the ending frame (the
    /// whole frame, if no color change was accepted during it), returns the
    /// beam to the first pixel with its color carried forward, and clears
    /// the per-frame flags.
    pub fn new_frame(&mut self)
        requires
            old(self).wf(),
        ensures
            final(self).wf(),
            frame_step(*old(self), *final(self)),
    {
        if !self.border_changed {
            self.beam_last.reset();
        }
        if !self.beam_block {
            let h = self.timings.screen_height;
            let w = self.timings.screen_width;
            proof {
                assert((h - 1) * w + w == w * h) by (nonlinear_arith)
                    requires h >= 1;
            }
            self.fill_to(h - 1, w);
        }
        self.beam_last.reset();
        self.border_changed = false;
        self.beam_block = false;
    }

    /// Accepts a border color-change event at the given clock count: paints
    /// the span the beam crossed since the last event with the previous
    /// color (up to the end of the frame, if the clock maps past it), then
    /// records the mapped position with the new color. Every clock value is
    /// accepted; degenerate ones paint nothing.
    pub fn set_border(&mut self, clocks: Clocks, color: ZXColor)
        requires
            old(self).wf(),
        ensures
            final(self).wf(),
            set_step(*old(self), *final(self), clocks.0 as int, color),
    {
        self.border_changed = true;
        let (line, pixel, frame_end) = self.next_border_pixel(clocks);
        proof {
            lemma_beam_pos_bounds(self.timings(), clocks.0 as int);
            assert(pos_index(self.timings(), 0, 0) == 0) by (nonlinear_arith);
        }
        if !self.beam_block {
            if frame_end {
                let h = self.timings.screen_height;
                let w = self.timings.screen_width;
                proof {
                    assert((h - 1) * w + w == w * h) by (nonlinear_arith)
                        requires h >= 1;
                }
                self.fill_to(h - 1, w);
                self.beam_block = true;
            }
            self.fill_to(line, pixel);
        }
        self.beam_last = BeamInfo::new(line, pixel, color);
    }

    /// The last recorded beam state: the position of the most recent
    /// accepted event and the color active since then.
    pub fn beam_position(&self) -> (r: BeamInfo)
        ensures
            r == self.beam(),
    {
        self.beam_last
    }

    /// Read-only view of the rendered buffer; its length is always exactly
    /// one frame of pixels and never changes over the renderer's lifetime.
    pub fn texture(&self) -> (r: &[u8])
        requires
            self.wf(),
        ensures
            r@ == self.buf(),
            r@.len() == self.timings().pixel_count() * BYTES_PER_PIXEL,
    {
        self.buffer.as_slice()
    }
}

} // verus!
