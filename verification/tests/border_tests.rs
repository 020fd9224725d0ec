use zx_border::beam::BeamInfo;
use zx_border::border::ZXBorder;
use zx_border::colors::{ZXBrightness, ZXColor, ZXPalette};
use zx_border::timing::{Clocks, ZXTimings};
use zx_border::BYTES_PER_PIXEL;

/// A table where the entry for color `c` at brightness `b` is the four
/// consecutive bytes starting at `(b * 8 + c) * 4`, so every entry is
/// distinct and easy to predict.
fn test_palette() -> ZXPalette {
    let mut table: Vec<u8> = Vec::new();
    for i in 0..64u8 {
        table.push(i);
    }
    ZXPalette::from_table(table).unwrap()
}

fn rgba_of(color: ZXColor) -> [u8; 4] {
    let ci = match color {
        ZXColor::Black => 0u8,
        ZXColor::Blue => 1,
        ZXColor::Red => 2,
        ZXColor::Purple => 3,
        ZXColor::Green => 4,
        ZXColor::Cyan => 5,
        ZXColor::Yellow => 6,
        ZXColor::White => 7,
    };
    let base = ci * 4;
    [base, base + 1, base + 2, base + 3]
}

/// Timing parameters giving an origin of 100 clocks, 224 clocks per line,
/// two pixels per clock and a 256 x 192 frame.
fn test_timings() -> ZXTimings {
    ZXTimings {
        clocks_first_pixel: 100,
        clocks_line: 224,
        beam_shift: 0,
        clocks_per_col: 8,
        pixels_per_clock: 2,
        border_rows: 0,
        border_cols: 0,
        screen_width: 256,
        screen_height: 192,
    }
}

const W: usize = 256;
const H: usize = 192;

fn make_border() -> ZXBorder {
    ZXBorder::new(test_timings(), test_palette())
}

fn pixel(buf: &[u8], p: usize) -> [u8; 4] {
    [
        buf[p * BYTES_PER_PIXEL],
        buf[p * BYTES_PER_PIXEL + 1],
        buf[p * BYTES_PER_PIXEL + 2],
        buf[p * BYTES_PER_PIXEL + 3],
    ]
}

#[test]
fn palette_rejects_short_table() {
    let table: Vec<u8> = vec![0; 63];
    assert!(ZXPalette::from_table(table).is_none());
    let table: Vec<u8> = vec![0; 65];
    assert!(ZXPalette::from_table(table).is_none());
}

#[test]
fn palette_resolves_entries() {
    let palette = test_palette();
    assert_eq!(palette.get_rgba(ZXColor::Black, ZXBrightness::Normal), vec![0, 1, 2, 3]);
    assert_eq!(palette.get_rgba(ZXColor::Red, ZXBrightness::Normal), vec![8, 9, 10, 11]);
    assert_eq!(palette.get_rgba(ZXColor::White, ZXBrightness::Normal), vec![28, 29, 30, 31]);
    assert_eq!(palette.get_rgba(ZXColor::Red, ZXBrightness::Bright), vec![40, 41, 42, 43]);
    assert_eq!(palette.get_rgba(ZXColor::White, ZXBrightness::Bright), vec![60, 61, 62, 63]);
}

#[test]
fn beam_info_helpers() {
    let b = BeamInfo::first_pixel(ZXColor::Cyan);
    assert!(b.is_first_pixel());
    assert_eq!(b.color, ZXColor::Cyan);
    let mut b = BeamInfo::new(5, 30, ZXColor::Yellow);
    assert!(!b.is_first_pixel());
    b.reset();
    assert!(b.is_first_pixel());
    assert_eq!(b.color, ZXColor::Yellow);
}

#[test]
fn clocks_count() {
    assert_eq!(Clocks(12345).count(), 12345);
}

#[test]
fn map_before_origin_is_first_pixel() {
    let b = make_border();
    assert_eq!(b.next_border_pixel(Clocks(0)), (0, 0, false));
    assert_eq!(b.next_border_pixel(Clocks(99)), (0, 0, false));
}

#[test]
fn map_mid_frame_position() {
    let b = make_border();
    // relative clock 2290 is line 10 plus 50 cycles: next boundary is pixel 102
    assert_eq!(b.next_border_pixel(Clocks(100 + 224 * 10 + 50)), (10, 102, false));
    // relative clock 0 is line 0: next boundary is pixel 2
    assert_eq!(b.next_border_pixel(Clocks(100)), (0, 2, false));
}

#[test]
fn map_wraps_at_right_edge() {
    let b = make_border();
    // 128 cycles into a line paint up to pixel 256: the next boundary is the
    // first pixel of the next line
    assert_eq!(b.next_border_pixel(Clocks(100 + 128)), (1, 0, false));
}

#[test]
fn map_past_frame_is_end() {
    let b = make_border();
    assert_eq!(b.next_border_pixel(Clocks(100 + 224 * 192)), (0, 0, true));
    // a wrap off the last line also ends the frame
    assert_eq!(b.next_border_pixel(Clocks(100 + 224 * 191 + 128)), (0, 0, true));
    assert_eq!(b.next_border_pixel(Clocks(usize::MAX)), (0, 0, true));
}

#[test]
fn fill_to_not_after_is_noop() {
    let mut b = make_border();
    // move the beam mid-frame so the last position is not the first pixel
    b.set_border(Clocks(100 + 224 * 10 + 50), ZXColor::Blue);
    let before = b.texture().to_vec();
    // target equal to the last position: nothing painted
    b.fill_to(10, 102);
    assert_eq!(b.texture(), before.as_slice());
    // target strictly before the last position: nothing painted
    b.fill_to(0, 0);
    assert_eq!(b.texture(), before.as_slice());
    b.fill_to(10, 0);
    assert_eq!(b.texture(), before.as_slice());
}

#[test]
fn first_new_frame_fills_buffer() {
    let mut b = make_border();
    b.new_frame();
    let buf = b.texture();
    let white = rgba_of(ZXColor::White);
    for p in 0..W * H {
        assert_eq!(pixel(buf, p), white);
    }
    let beam = b.beam_position();
    assert!(beam.is_first_pixel());
    assert_eq!(beam.color, ZXColor::White);
}

#[test]
fn new_frame_twice_same_buffer() {
    let mut b = make_border();
    b.new_frame();
    let first = b.texture().to_vec();
    b.new_frame();
    assert_eq!(b.texture(), first.as_slice());
}

#[test]
fn new_frame_twice_after_change_same_buffer() {
    let mut b = make_border();
    b.set_border(Clocks(100 + 224 * 10 + 50), ZXColor::Green);
    b.new_frame();
    b.new_frame();
    let first = b.texture().to_vec();
    b.new_frame();
    assert_eq!(b.texture(), first.as_slice());
    // the carried color repaints the whole frame
    let green = rgba_of(ZXColor::Green);
    for p in 0..W * H {
        assert_eq!(pixel(b.texture(), p), green);
    }
}

#[test]
fn two_changes_paint_span_between() {
    let mut b = make_border();
    // first event at the start of the visible frame: maps to (0, 2)
    b.set_border(Clocks(100), ZXColor::Red);
    // second event ten lines and 50 cycles later: maps to (10, 102)
    b.set_border(Clocks(100 + 224 * 10 + 50), ZXColor::Blue);
    let buf = b.texture();
    let red = rgba_of(ZXColor::Red);
    let i1 = 2;
    let i2 = 10 * W + 102;
    for p in i1..i2 {
        assert_eq!(pixel(buf, p), red);
    }
    // pixels past the second position are untouched so far
    assert_eq!(pixel(buf, i2), [0, 0, 0, 0]);
    // the beam carries the second color for what is painted next
    let beam = b.beam_position();
    assert_eq!((beam.line, beam.pixel, beam.color), (10, 102, ZXColor::Blue));
}

#[test]
fn end_to_end_scenario() {
    let mut b = make_border();
    // before the origin: no visible fill, beam bookkeeping at first pixel
    b.set_border(Clocks(50), ZXColor::Red);
    let beam = b.beam_position();
    assert!(beam.is_first_pixel());
    assert_eq!(beam.color, ZXColor::Red);
    // ten lines plus 50 cycles in: the first ten lines (and a bit) become red
    b.set_border(Clocks(100 + 224 * 10 + 50), ZXColor::Blue);
    let red = rgba_of(ZXColor::Red);
    let split = 10 * W + 102;
    for p in 0..split {
        assert_eq!(pixel(b.texture(), p), red);
    }
    let beam = b.beam_position();
    assert_eq!((beam.line, beam.pixel, beam.color), (10, 102, ZXColor::Blue));
    // frame boundary: the remainder becomes blue
    b.new_frame();
    let blue = rgba_of(ZXColor::Blue);
    for p in 0..split {
        assert_eq!(pixel(b.texture(), p), red);
    }
    for p in split..W * H {
        assert_eq!(pixel(b.texture(), p), blue);
    }
    let beam = b.beam_position();
    assert!(beam.is_first_pixel());
    assert_eq!(beam.color, ZXColor::Blue);
}

#[test]
fn event_past_frame_fills_tail_and_blocks() {
    let mut b = make_border();
    b.set_border(Clocks(100 + 224 * 10 + 50), ZXColor::Red);
    // an event past the end of the frame paints the remainder with the
    // previous color
    b.set_border(Clocks(100 + 224 * 200), ZXColor::Green);
    let red = rgba_of(ZXColor::Red);
    let split = 10 * W + 102;
    for p in split..W * H {
        assert_eq!(pixel(b.texture(), p), red);
    }
    let before = b.texture().to_vec();
    // further events this frame paint nothing more, but move the beam
    b.set_border(Clocks(100 + 224 * 20), ZXColor::Cyan);
    assert_eq!(b.texture(), before.as_slice());
    let beam = b.beam_position();
    assert_eq!((beam.line, beam.pixel, beam.color), (20, 2, ZXColor::Cyan));
}

#[test]
fn texture_len_is_constant() {
    let mut b = make_border();
    let expected = W * H * BYTES_PER_PIXEL;
    assert_eq!(b.texture().len(), expected);
    b.set_border(Clocks(500), ZXColor::Purple);
    assert_eq!(b.texture().len(), expected);
    b.new_frame();
    assert_eq!(b.texture().len(), expected);
    b.set_border(Clocks(usize::MAX), ZXColor::Black);
    assert_eq!(b.texture().len(), expected);
    b.new_frame();
    assert_eq!(b.texture().len(), expected);
}

#[test]
fn new_buffer_starts_zeroed() {
    let b = make_border();
    assert!(b.texture().iter().all(|&x| x == 0));
}
