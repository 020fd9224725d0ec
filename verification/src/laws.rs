//! Frame-level laws of the renderer: consequences of the state transitions
//! that `new_frame` and `set_border` are proved to make.

use vstd::prelude::*;
use crate::border::{
    fill_bytes, frame_step, lemma_pixel_at_filled, pixel_at, set_step, ZXBorder,
};
use crate::colors::{palette_rgba, ZXBrightness, ZXColor};
use crate::timing::{beam_pos, lemma_beam_pos_bounds, lemma_beam_pos_monotonic, pos_index};

verus! {

/// Law: a frame boundary taken with the beam at the first pixel and the
/// frame tail not yet painted — in particular, immediately after
/// construction — paints the entire buffer with the carried color and
/// leaves the beam at the first pixel with that color.
pub proof fn lemma_new_frame_fills_whole_frame(pre: ZXBorder, post: ZXBorder)
    requires
        pre.wf(),
        pre.beam().line == 0,
        pre.beam().pixel == 0,
        !pre.blocked(),
        frame_step(pre, post),
    ensures
        forall|p: int|
            0 <= p < pre.timings().pixel_count() ==> pixel_at(post.buf(), p) == palette_rgba(
                pre.pal(),
                pre.beam().color,
                ZXBrightness::Normal,
            ),
        post.beam().line == 0,
        post.beam().pixel == 0,
        post.beam().color == pre.beam().color,
{
    let t = pre.timings();
    let rgba = palette_rgba(pre.pal(), pre.beam().color, ZXBrightness::Normal);
    assert(pos_index(t, 0, 0) == 0) by (nonlinear_arith);
    assert forall|p: int| 0 <= p < t.pixel_count() implies pixel_at(post.buf(), p) == rgba by {
        lemma_pixel_at_filled(pre.buf(), 0, t.pixel_count(), rgba, p);
    }
}

/// Law: two frame boundaries in a row with no color change accepted in
/// between produce the same buffer both times — each is a full repaint
/// with the carried color.
pub proof fn lemma_new_frame_idempotent(b0: ZXBorder, b1: ZXBorder, b2: ZXBorder)
    requires
        b0.wf(),
        !b0.changed(),
        !b0.blocked(),
        frame_step(b0, b1),
        frame_step(b1, b2),
    ensures
        b2.buf() == b1.buf(),
        forall|p: int|
            0 <= p < b0.timings().pixel_count() ==> pixel_at(b1.buf(), p) == palette_rgba(
                b0.pal(),
                b0.beam().color,
                ZXBrightness::Normal,
            ),
{
    let t = b0.timings();
    let rgba = palette_rgba(b0.pal(), b0.beam().color, ZXBrightness::Normal);
    assert(pos_index(t, 0, 0) == 0) by (nonlinear_arith);
    assert(b2.buf() =~= b1.buf());
    assert forall|p: int| 0 <= p < t.pixel_count() implies pixel_at(b1.buf(), p) == rgba by {
        lemma_pixel_at_filled(b0.buf(), 0, t.pixel_count(), rgba, p);
    }
}

/// Law: after two color-change events in one frame, the earlier at clock
/// `c1` with `color1` and the later at clock `c2` with `color2`, both
/// mapping to visible positions, every pixel between the two mapped
/// positions holds `color1`'s bytes, and the beam stands at the second
/// position carrying `color2` for whatever is painted next.
pub proof fn lemma_two_changes_paint_span(
    b0: ZXBorder,
    b1: ZXBorder,
    b2: ZXBorder,
    c1: int,
    c2: int,
    color1: ZXColor,
    color2: ZXColor,
)
    requires
        b0.wf(),
        !b0.blocked(),
        set_step(b0, b1, c1, color1),
        set_step(b1, b2, c2, color2),
        c1 <= c2,
        !beam_pos(b0.timings(), c1).2,
        !beam_pos(b0.timings(), c2).2,
    ensures
        forall|p: int|
            pos_index(b0.timings(), beam_pos(b0.timings(), c1).0, beam_pos(b0.timings(), c1).1)
                <= p < pos_index(
                b0.timings(),
                beam_pos(b0.timings(), c2).0,
                beam_pos(b0.timings(), c2).1,
            ) ==> pixel_at(b2.buf(), p) == palette_rgba(b0.pal(), color1, ZXBrightness::Normal),
        b2.beam().line as int == beam_pos(b0.timings(), c2).0,
        b2.beam().pixel as int == beam_pos(b0.timings(), c2).1,
        b2.beam().color == color2,
{
    let t = b0.timings();
    let bp1 = beam_pos(t, c1);
    let bp2 = beam_pos(t, c2);
    let i1 = pos_index(t, bp1.0, bp1.1);
    let i2 = pos_index(t, bp2.0, bp2.1);
    let rgba = palette_rgba(b0.pal(), color1, ZXBrightness::Normal);
    lemma_beam_pos_bounds(t, c1);
    lemma_beam_pos_bounds(t, c2);
    lemma_beam_pos_monotonic(t, c1, c2);
    assert(b1.beam_index() == i1);
    assert(b2.buf() == fill_bytes(b1.buf(), i1, i2, rgba));
    assert forall|p: int| i1 <= p < i2 implies pixel_at(b2.buf(), p) == rgba by {
        lemma_pixel_at_filled(b1.buf(), i1, i2, rgba, p);
    }
}

} // verus!
