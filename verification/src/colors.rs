//! Logical border colors and the table resolving them to pixel bytes.

use vstd::prelude::*;

verus! {

/// A logical hardware color, one of the eight the border port can select.
#[derive(Clone, Copy, Debug, PartialEq, Eq, Structural)]
pub enum ZXColor {
    Black,
    Blue,
    Red,
    Purple,
    Green,
    Cyan,
    Yellow,
    White,
}

/// Brightness attribute used when a color is resolved to pixel bytes.
#[derive(Clone, Copy, Debug, PartialEq, Eq, Structural)]
pub enum ZXBrightness {
    Normal,
    Bright,
}

/// Index of a color within one brightness half of the table.
pub open spec fn color_index(color: ZXColor) -> int {
    match color {
        ZXColor::Black => 0,
        ZXColor::Blue => 1,
        ZXColor::Red => 2,
        ZXColor::Purple => 3,
        ZXColor::Green => 4,
        ZXColor::Cyan => 5,
        ZXColor::Yellow => 6,
        ZXColor::White => 7,
    }
}

/// Index of a brightness half within the table.
pub open spec fn brightness_index(brightness: ZXBrightness) -> int {
    match brightness {
        ZXBrightness::Normal => 0,
        ZXBrightness::Bright => 1,
    }
}

/// Byte offset of a color's entry inside the flat table.
pub open spec fn rgba_base(color: ZXColor, brightness: ZXBrightness) -> int {
    (brightness_index(brightness) * 8 + color_index(color)) * 4
}

/// The four pixel bytes a table assigns to a color at a brightness.
pub open spec fn palette_rgba(table: Seq<u8>, color: ZXColor, brightness: ZXBrightness) -> Seq<u8> {
    table.subrange(rgba_base(color, brightness), rgba_base(color, brightness) + 4)
}

/// Color-to-pixel conversion table: four bytes for each of the eight colors
/// at each of the two brightness levels, brightness-major.
pub struct ZXPalette {
    table: Vec<u8>,
}

impl View for ZXPalette {
    type V = Seq<u8>;

    closed spec fn view(&self) -> Seq<u8> {
        self.table@
    }
}

impl ZXPalette {
    /// The table holds exactly its 2 * 8 entries of 4 bytes.
    pub open spec fn wf(self) -> bool {
        self@.len() == 64
    }

    /// Builds a palette from a flat table of 64 bytes; any other length is
    /// rejected.
    pub fn from_table(table: Vec<u8>) -> (r: Option<ZXPalette>)
        ensures
            r is Some <==> table@.len() == 64,
            r matches Some(p) ==> p.wf() && p@ == table@,
    {
        if table.len() == 64 {
            Some(ZXPalette { table })
        } else {
            None
        }
    }

    /// The four pixel bytes for one color at one brightness.
    pub fn get_rgba(&self, color: ZXColor, brightness: ZXBrightness) -> (r: Vec<u8>)
        requires
            self.wf(),
        ensures
            r@ == palette_rgba(self@, color, brightness),
            r@.len() == 4,
    {
        let ci: usize = match color {
            ZXColor::Black => 0,
            ZXColor::Blue => 1,
            ZXColor::Red => 2,
            ZXColor::Purple => 3,
            ZXColor::Green => 4,
            ZXColor::Cyan => 5,
            ZXColor::Yellow => 6,
            ZXColor::White => 7,
        };
        let bi: usize = match brightness {
            ZXBrightness::Normal => 0,
            ZXBrightness::Bright => 1,
        };
        let base: usize = (bi * 8 + ci) * 4;
        let mut r: Vec<u8> = Vec::new();
        r.push(self.table[base]);
        r.push(self.table[base + 1]);
        r.push(self.table[base + 2]);
        r.push(self.table[base + 3]);
        proof {
            assert(r@ =~= palette_rgba(self@, color, brightness));
        }
        r
    }
}

} // verus!
