//! The eight programmable glyphs of the display's character generator.
//!
//! Slots 0 to 4 hold the buffering cursor: a one-column vertical bar over a
//! full-width base line, the bar moving one pixel column to the right per slot.
//! Slots 5 to 7 hold the accented letters that the built-in font lacks.

use vstd::prelude::*;

verus! {

/// Number of programmable glyph slots.
pub const GLYPH_COUNT: usize = 8;

/// Number of pixel rows in a glyph.
pub const GLYPH_ROWS: usize = 8;

/// The glyph patterns as a mathematical table: slot, then row from the top.
/// Each row uses the low five bits, the most significant of them leftmost.
pub open spec fn bitmaps() -> Seq<Seq<u8>> {
    seq![
        seq![0x10u8, 0x10u8, 0x10u8, 0x10u8, 0x10u8, 0x10u8, 0x10u8, 0x1fu8],
        seq![0x08u8, 0x08u8, 0x08u8, 0x08u8, 0x08u8, 0x08u8, 0x08u8, 0x1fu8],
        seq![0x04u8, 0x04u8, 0x04u8, 0x04u8, 0x04u8, 0x04u8, 0x04u8, 0x1fu8],
        seq![0x02u8, 0x02u8, 0x02u8, 0x02u8, 0x02u8, 0x02u8, 0x02u8, 0x1fu8],
        seq![0x01u8, 0x01u8, 0x01u8, 0x01u8, 0x01u8, 0x01u8, 0x01u8, 0x1fu8],
        seq![0x02u8, 0x04u8, 0x0eu8, 0x11u8, 0x1fu8, 0x10u8, 0x0eu8, 0x00u8],
        seq![0x08u8, 0x04u8, 0x0eu8, 0x11u8, 0x1fu8, 0x10u8, 0x0eu8, 0x00u8],
        seq![0x08u8, 0x04u8, 0x0eu8, 0x01u8, 0x0fu8, 0x11u8, 0x0fu8, 0x00u8],
    ]
}

/// One row of one glyph.
pub fn bitmap_row(slot: usize, row: usize) -> (bits: u8)
    requires
        slot < GLYPH_COUNT,
        row < GLYPH_ROWS,
    ensures
        bits == bitmaps()[slot as int][row as int],
        bits < 0x20,
{
    if row == 7 {
        if slot < 5 { 0x1f } else { 0x00 }
    } else if slot == 0 {
        0x10
    } else if slot == 1 {
        0x08
    } else if slot == 2 {
        0x04
    } else if slot == 3 {
        0x02
    } else if slot == 4 {
        0x01
    } else if row == 0 {
        if slot == 5 { 0x02 } else { 0x08 }
    } else if row == 1 {
        0x04
    } else if row == 2 {
        0x0e
    } else if slot == 7 {
        if row == 3 { 0x01 } else if row == 4 { 0x0f } else if row == 5 { 0x11 } else { 0x0f }
    } else {
        if row == 3 { 0x11 } else if row == 4 { 0x1f } else if row == 5 { 0x10 } else { 0x0e }
    }
}

} // verus!
