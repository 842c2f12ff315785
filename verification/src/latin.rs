use vstd::prelude::*;
use crate::render::{render_entries, spec_render_set};
use crate::unicode::{
    lemma_find_absent, lemma_find_present, sorted_by_character, spec_find, spec_find_bitmap,
    FontError, FontUnicode, UnicodeFonts,
};

verus! {

/// The character code at position `i` of the Extended Latin table: the
/// block starts at `U+00A0` and runs without gaps.
pub open spec fn latin_code(i: int) -> int {
    0xA0 + i
}

/// The authored 8-byte row bitmap at position `i` of the Extended Latin
/// table.
pub open spec fn latin_rows(i: int) -> Seq<u8> {
    if i == 0 {
        seq![0x00u8, 0x00, 0x00, 0x00, 0x00, 0x00, 0x00, 0x00]
    } else if i == 1 {
        seq![0x18u8, 0x18, 0x00, 0x18, 0x18, 0x18, 0x18, 0x00]
    } else if i == 2 {
        seq![0x18u8, 0x18, 0x7E, 0x03, 0x03, 0x7E, 0x18, 0x18]
    } else if i == 3 {
        seq![0x1Cu8, 0x36, 0x26, 0x0F, 0x06, 0x67, 0x3F, 0x00]
    } else if i == 4 {
        seq![0x00u8, 0x00, 0x63, 0x3E, 0x36, 0x3E, 0x63, 0x00]
    } else if i == 5 {
        seq![0x33u8, 0x33, 0x1E, 0x3F, 0x0C, 0x3F, 0x0C, 0x0C]
    } else if i == 6 {
        seq![0x18u8, 0x18, 0x18, 0x00, 0x18, 0x18, 0x18, 0x00]
    } else if i == 7 {
        seq![0x7Cu8, 0xC6, 0x1C, 0x36, 0x36, 0x1C, 0x33, 0x1E]
    } else if i == 8 {
        seq![0x33u8, 0x00, 0x00, 0x00, 0x00, 0x00, 0x00, 0x00]
    } else if i == 9 {
        seq![0x3Cu8, 0x42, 0x99, 0x85, 0x85, 0x99, 0x42, 0x3C]
    } else if i == 10 {
        seq![0x3Cu8, 0x36, 0x36, 0x7C, 0x00, 0x00, 0x00, 0x00]
    } else if i == 11 {
        seq![0x00u8, 0xCC, 0x66, 0x33, 0x66, 0xCC, 0x00, 0x00]
    } else if i == 12 {
        seq![0x00u8, 0x00, 0x00, 0x3F, 0x30, 0x30, 0x00, 0x00]
    } else if i == 13 {
        seq![0x00u8, 0x00, 0x00, 0x00, 0x00, 0x00, 0x00, 0x00]
    } else if i == 14 {
        seq![0x3Cu8, 0x42, 0x9D, 0xA5, 0x9D, 0xA5, 0x42, 0x3C]
    } else if i == 15 {
        seq![0x7Eu8, 0x00, 0x00, 0x00, 0x00, 0x00, 0x00, 0x00]
    } else if i == 16 {
        seq![0x1Cu8, 0x36, 0x36, 0x1C, 0x00, 0x00, 0x00, 0x00]
    } else if i == 17 {
        seq![0x18u8, 0x18, 0x7E, 0x18, 0x18, 0x00, 0x7E, 0x00]
    } else if i == 18 {
        seq![0x1Cu8, 0x30, 0x18, 0x0C, 0x3C, 0x00, 0x00, 0x00]
    } else if i == 19 {
        seq![0x1Cu8, 0x30, 0x18, 0x30, 0x1C, 0x00, 0x00, 0x00]
    } else if i == 20 {
        seq![0x18u8, 0x0C, 0x00, 0x00, 0x00, 0x00, 0x00, 0x00]
    } else if i == 21 {
        seq![0x00u8, 0x00, 0x66, 0x66, 0x66, 0x3E, 0x06, 0x03]
    } else if i == 22 {
        seq![0xFEu8, 0xDB, 0xDB, 0xDE, 0xD8, 0xD8, 0xD8, 0x00]
    } else if i == 23 {
        seq![0x00u8, 0x00, 0x00, 0x18, 0x18, 0x00, 0x00, 0x00]
    } else if i == 24 {
        seq![0x00u8, 0x00, 0x00, 0x00, 0x00, 0x18, 0x30, 0x1E]
    } else if i == 25 {
        seq![0x08u8, 0x0C, 0x08, 0x1C, 0x00, 0x00, 0x00, 0x00]
    } else if i == 26 {
        seq![0x1Cu8, 0x36, 0x36, 0x1C, 0x00, 0x00, 0x00, 0x00]
    } else if i == 27 {
        seq![0x00u8, 0x33, 0x66, 0xCC, 0x66, 0x33, 0x00, 0x00]
    } else if i == 28 {
        seq![0xC3u8, 0x63, 0x33, 0xBD, 0xEC, 0xF6, 0xF3, 0x03]
    } else if i == 29 {
        seq![0xC3u8, 0x63, 0x33, 0x7B, 0xCC, 0x66, 0x33, 0xF0]
    } else if i == 30 {
        seq![0x03u8, 0xC4, 0x63, 0xB4, 0xDB, 0xAC, 0xE6, 0x80]
    } else if i == 31 {
        seq![0x0Cu8, 0x00, 0x0C, 0x06, 0x03, 0x33, 0x1E, 0x00]
    } else if i == 32 {
        seq![0x07u8, 0x00, 0x1C, 0x36, 0x63, 0x7F, 0x63, 0x00]
    } else if i == 33 {
        seq![0x70u8, 0x00, 0x1C, 0x36, 0x63, 0x7F, 0x63, 0x00]
    } else if i == 34 {
        seq![0x1Cu8, 0x36, 0x00, 0x3E, 0x63, 0x7F, 0x63, 0x00]
    } else if i == 35 {
        seq![0x6Eu8, 0x3B, 0x00, 0x3E, 0x63, 0x7F, 0x63, 0x00]
    } else if i == 36 {
        seq![0x63u8, 0x1C, 0x36, 0x63, 0x7F, 0x63, 0x63, 0x00]
    } else if i == 37 {
        seq![0x0Cu8, 0x0C, 0x00, 0x1E, 0x33, 0x3F, 0x33, 0x00]
    } else if i == 38 {
        seq![0x7Cu8, 0x36, 0x33, 0x7F, 0x33, 0x33, 0x73, 0x00]
    } else if i == 39 {
        seq![0x1Eu8, 0x33, 0x03, 0x33, 0x1E, 0x18, 0x30, 0x1E]
    } else if i == 40 {
        seq![0x07u8, 0x00, 0x3F, 0x06, 0x1E, 0x06, 0x3F, 0x00]
    } else if i == 41 {
        seq![0x38u8, 0x00, 0x3F, 0x06, 0x1E, 0x06, 0x3F, 0x00]
    } else if i == 42 {
        seq![0x0Cu8, 0x12, 0x3F, 0x06, 0x1E, 0x06, 0x3F, 0x00]
    } else if i == 43 {
        seq![0x36u8, 0x00, 0x3F, 0x06, 0x1E, 0x06, 0x3F, 0x00]
    } else if i == 44 {
        seq![0x07u8, 0x00, 0x1E, 0x0C, 0x0C, 0x0C, 0x1E, 0x00]
    } else if i == 45 {
        seq![0x38u8, 0x00, 0x1E, 0x0C, 0x0C, 0x0C, 0x1E, 0x00]
    } else if i == 46 {
        seq![0x0Cu8, 0x12, 0x00, 0x1E, 0x0C, 0x0C, 0x1E, 0x00]
    } else if i == 47 {
        seq![0x33u8, 0x00, 0x1E, 0x0C, 0x0C, 0x0C, 0x1E, 0x00]
    } else if i == 48 {
        seq![0x3Fu8, 0x66, 0x6F, 0x6F, 0x66, 0x66, 0x3F, 0x00]
    } else if i == 49 {
        seq![0x3Fu8, 0x00, 0x33, 0x37, 0x3F, 0x3B, 0x33, 0x00]
    } else if i == 50 {
        seq![0x0Eu8, 0x00, 0x18, 0x3C, 0x66, 0x3C, 0x18, 0x00]
    } else if i == 51 {
        seq![0x70u8, 0x00, 0x18, 0x3C, 0x66, 0x3C, 0x18, 0x00]
    } else if i == 52 {
        seq![0x3Cu8, 0x66, 0x18, 0x3C, 0x66, 0x3C, 0x18, 0x00]
    } else if i == 53 {
        seq![0x6Eu8, 0x3B, 0x00, 0x3E, 0x63, 0x63, 0x3E, 0x00]
    } else if i == 54 {
        seq![0xC3u8, 0x18, 0x3C, 0x66, 0x66, 0x3C, 0x18, 0x00]
    } else if i == 55 {
        seq![0x00u8, 0x36, 0x1C, 0x08, 0x1C, 0x36, 0x00, 0x00]
    } else if i == 56 {
        seq![0x5Cu8, 0x36, 0x73, 0x7B, 0x6F, 0x36, 0x1D, 0x00]
    } else if i == 57 {
        seq![0x0Eu8, 0x00, 0x66, 0x66, 0x66, 0x66, 0x3C, 0x00]
    } else if i == 58 {
        seq![0x70u8, 0x00, 0x66, 0x66, 0x66, 0x66, 0x3C, 0x00]
    } else if i == 59 {
        seq![0x3Cu8, 0x66, 0x00, 0x66, 0x66, 0x66, 0x3C, 0x00]
    } else if i == 60 {
        seq![0x33u8, 0x00, 0x33, 0x33, 0x33, 0x33, 0x1E, 0x00]
    } else if i == 61 {
        seq![0x70u8, 0x00, 0x66, 0x66, 0x3C, 0x18, 0x18, 0x00]
    } else if i == 62 {
        seq![0x0Fu8, 0x06, 0x3E, 0x66, 0x66, 0x3E, 0x06, 0x0F]
    } else if i == 63 {
        seq![0x00u8, 0x1E, 0x33, 0x1F, 0x33, 0x1F, 0x03, 0x03]
    } else if i == 64 {
        seq![0x07u8, 0x00, 0x1E, 0x30, 0x3E, 0x33, 0x7E, 0x00]
    } else if i == 65 {
        seq![0x38u8, 0x00, 0x1E, 0x30, 0x3E, 0x33, 0x7E, 0x00]
    } else if i == 66 {
        seq![0x7Eu8, 0xC3, 0x3C, 0x60, 0x7C, 0x66, 0xFC, 0x00]
    } else if i == 67 {
        seq![0x6Eu8, 0x3B, 0x1E, 0x30, 0x3E, 0x33, 0x7E, 0x00]
    } else if i == 68 {
        seq![0x33u8, 0x00, 0x1E, 0x30, 0x3E, 0x33, 0x7E, 0x00]
    } else if i == 69 {
        seq![0x0Cu8, 0x0C, 0x1E, 0x30, 0x3E, 0x33, 0x7E, 0x00]
    } else if i == 70 {
        seq![0x00u8, 0x00, 0xFE, 0x30, 0xFE, 0x33, 0xFE, 0x00]
    } else if i == 71 {
        seq![0x00u8, 0x00, 0x1E, 0x03, 0x03, 0x1E, 0x30, 0x1C]
    } else if i == 72 {
        seq![0x07u8, 0x00, 0x1E, 0x33, 0x3F, 0x03, 0x1E, 0x00]
    } else if i == 73 {
        seq![0x38u8, 0x00, 0x1E, 0x33, 0x3F, 0x03, 0x1E, 0x00]
    } else if i == 74 {
        seq![0x7Eu8, 0xC3, 0x3C, 0x66, 0x7E, 0x06, 0x3C, 0x00]
    } else if i == 75 {
        seq![0x33u8, 0x00, 0x1E, 0x33, 0x3F, 0x03, 0x1E, 0x00]
    } else if i == 76 {
        seq![0x07u8, 0x00, 0x0E, 0x0C, 0x0C, 0x0C, 0x1E, 0x00]
    } else if i == 77 {
        seq![0x1Cu8, 0x00, 0x0E, 0x0C, 0x0C, 0x0C, 0x1E, 0x00]
    } else if i == 78 {
        seq![0x3Eu8, 0x63, 0x1C, 0x18, 0x18, 0x18, 0x3C, 0x00]
    } else if i == 79 {
        seq![0x33u8, 0x00, 0x0E, 0x0C, 0x0C, 0x0C, 0x1E, 0x00]
    } else if i == 80 {
        seq![0x1Bu8, 0x0E, 0x1B, 0x30, 0x3E, 0x33, 0x1E, 0x00]
    } else if i == 81 {
        seq![0x00u8, 0x1F, 0x00, 0x1F, 0x33, 0x33, 0x33, 0x00]
    } else if i == 82 {
        seq![0x00u8, 0x07, 0x00, 0x1E, 0x33, 0x33, 0x1E, 0x00]
    } else if i == 83 {
        seq![0x00u8, 0x38, 0x00, 0x1E, 0x33, 0x33, 0x1E, 0x00]
    } else if i == 84 {
        seq![0x1Eu8, 0x33, 0x00, 0x1E, 0x33, 0x33, 0x1E, 0x00]
    } else if i == 85 {
        seq![0x6Eu8, 0x3B, 0x00, 0x1E, 0x33, 0x33, 0x1E, 0x00]
    } else if i == 86 {
        seq![0x00u8, 0x33, 0x00, 0x1E, 0x33, 0x33, 0x1E, 0x00]
    } else if i == 87 {
        seq![0x18u8, 0x18, 0x00, 0x7E, 0x00, 0x18, 0x18, 0x00]
    } else if i == 88 {
        seq![0x00u8, 0x60, 0x3C, 0x76, 0x7E, 0x6E, 0x3C, 0x06]
    } else if i == 89 {
        seq![0x00u8, 0x07, 0x00, 0x33, 0x33, 0x33, 0x7E, 0x00]
    } else if i == 90 {
        seq![0x00u8, 0x38, 0x00, 0x33, 0x33, 0x33, 0x7E, 0x00]
    } else if i == 91 {
        seq![0x1Eu8, 0x33, 0x00, 0x33, 0x33, 0x33, 0x7E, 0x00]
    } else if i == 92 {
        seq![0x00u8, 0x33, 0x00, 0x33, 0x33, 0x33, 0x7E, 0x00]
    } else if i == 93 {
        seq![0x00u8, 0x38, 0x00, 0x33, 0x33, 0x3E, 0x30, 0x1F]
    } else if i == 94 {
        seq![0x00u8, 0x00, 0x06, 0x3E, 0x66, 0x3E, 0x06, 0x00]
    } else {
        seq![0x00u8, 0x33, 0x00, 0x33, 0x33, 0x3E, 0x30, 0x1F]
    }
}

/// Position `i` of the table holds `g`: the character of code
/// `0xA0 + i`, drawn by the authored bitmap of that position.
pub open spec fn glyph_wf(g: FontUnicode, i: int) -> bool {
    g.character as u32 == latin_code(i) && g.bitmap@ == latin_rows(i)
}

/// A well-formed Extended Latin table: 96 entries, position `i` holding
/// the authored glyph of character `U+00A0 + i`.
pub open spec fn latin_table_wf(s: Seq<FontUnicode>) -> bool {
    s.len() == 96 && (forall|i: int| 0 <= i < 96 ==> glyph_wf(s[i], i))
}

/// The authored glyph at position `i` of the Extended Latin table.
pub fn glyph_at(i: usize) -> (g: FontUnicode)
    requires
        i < 96,
    ensures
        glyph_wf(g, i as int),
{
    let g = if i == 0 {
        FontUnicode { character: '\u{00A0}', bitmap: [0x00, 0x00, 0x00, 0x00, 0x00, 0x00, 0x00, 0x00] }
    } else if i == 1 {
        FontUnicode { character: '\u{00A1}', bitmap: [0x18, 0x18, 0x00, 0x18, 0x18, 0x18, 0x18, 0x00] }
    } else if i == 2 {
        FontUnicode { character: '\u{00A2}', bitmap: [0x18, 0x18, 0x7E, 0x03, 0x03, 0x7E, 0x18, 0x18] }
    } else if i == 3 {
        FontUnicode { character: '\u{00A3}', bitmap: [0x1C, 0x36, 0x26, 0x0F, 0x06, 0x67, 0x3F, 0x00] }
    } else if i == 4 {
        FontUnicode { character: '\u{00A4}', bitmap: [0x00, 0x00, 0x63, 0x3E, 0x36, 0x3E, 0x63, 0x00] }
    } else if i == 5 {
        FontUnicode { character: '\u{00A5}', bitmap: [0x33, 0x33, 0x1E, 0x3F, 0x0C, 0x3F, 0x0C, 0x0C] }
    } else if i == 6 {
        FontUnicode { character: '\u{00A6}', bitmap: [0x18, 0x18, 0x18, 0x00, 0x18, 0x18, 0x18, 0x00] }
    } else if i == 7 {
        FontUnicode { character: '\u{00A7}', bitmap: [0x7C, 0xC6, 0x1C, 0x36, 0x36, 0x1C, 0x33, 0x1E] }
    } else if i == 8 {
        FontUnicode { character: '\u{00A8}', bitmap: [0x33, 0x00, 0x00, 0x00, 0x00, 0x00, 0x00, 0x00] }
    } else if i == 9 {
        FontUnicode { character: '\u{00A9}', bitmap: [0x3C, 0x42, 0x99, 0x85, 0x85, 0x99, 0x42, 0x3C] }
    } else if i == 10 {
        FontUnicode { character: '\u{00AA}', bitmap: [0x3C, 0x36, 0x36, 0x7C, 0x00, 0x00, 0x00, 0x00] }
    } else if i == 11 {
        FontUnicode { character: '\u{00AB}', bitmap: [0x00, 0xCC, 0x66, 0x33, 0x66, 0xCC, 0x00, 0x00] }
    } else if i == 12 {
        FontUnicode { character: '\u{00AC}', bitmap: [0x00, 0x00, 0x00, 0x3F, 0x30, 0x30, 0x00, 0x00] }
    } else if i == 13 {
        FontUnicode { character: '\u{00AD}', bitmap: [0x00, 0x00, 0x00, 0x00, 0x00, 0x00, 0x00, 0x00] }
    } else if i == 14 {
        FontUnicode { character: '\u{00AE}', bitmap: [0x3C, 0x42, 0x9D, 0xA5, 0x9D, 0xA5, 0x42, 0x3C] }
    } else if i == 15 {
        FontUnicode { character: '\u{00AF}', bitmap: [0x7E, 0x00, 0x00, 0x00, 0x00, 0x00, 0x00, 0x00] }
    } else if i == 16 {
        FontUnicode { character: '\u{00B0}', bitmap: [0x1C, 0x36, 0x36, 0x1C, 0x00, 0x00, 0x00, 0x00] }
    } else if i == 17 {
        FontUnicode { character: '\u{00B1}', bitmap: [0x18, 0x18, 0x7E, 0x18, 0x18, 0x00, 0x7E, 0x00] }
    } else if i == 18 {
        FontUnicode { character: '\u{00B2}', bitmap: [0x1C, 0x30, 0x18, 0x0C, 0x3C, 0x00, 0x00, 0x00] }
    } else if i == 19 {
        FontUnicode { character: '\u{00B3}', bitmap: [0x1C, 0x30, 0x18, 0x30, 0x1C, 0x00, 0x00, 0x00] }
    } else if i == 20 {
        FontUnicode { character: '\u{00B4}', bitmap: [0x18, 0x0C, 0x00, 0x00, 0x00, 0x00, 0x00, 0x00] }
    } else if i == 21 {
        FontUnicode { character: '\u{00B5}', bitmap: [0x00, 0x00, 0x66, 0x66, 0x66, 0x3E, 0x06, 0x03] }
    } else if i == 22 {
        FontUnicode { character: '\u{00B6}', bitmap: [0xFE, 0xDB, 0xDB, 0xDE, 0xD8, 0xD8, 0xD8, 0x00] }
    } else if i == 23 {
        FontUnicode { character: '\u{00B7}', bitmap: [0x00, 0x00, 0x00, 0x18, 0x18, 0x00, 0x00, 0x00] }
    } else if i == 24 {
        FontUnicode { character: '\u{00B8}', bitmap: [0x00, 0x00, 0x00, 0x00, 0x00, 0x18, 0x30, 0x1E] }
    } else if i == 25 {
        FontUnicode { character: '\u{00B9}', bitmap: [0x08, 0x0C, 0x08, 0x1C, 0x00, 0x00, 0x00, 0x00] }
    } else if i == 26 {
        FontUnicode { character: '\u{00BA}', bitmap: [0x1C, 0x36, 0x36, 0x1C, 0x00, 0x00, 0x00, 0x00] }
    } else if i == 27 {
        FontUnicode { character: '\u{00BB}', bitmap: [0x00, 0x33, 0x66, 0xCC, 0x66, 0x33, 0x00, 0x00] }
    } else if i == 28 {
        FontUnicode { character: '\u{00BC}', bitmap: [0xC3, 0x63, 0x33, 0xBD, 0xEC, 0xF6, 0xF3, 0x03] }
    } else if i == 29 {
        FontUnicode { character: '\u{00BD}', bitmap: [0xC3, 0x63, 0x33, 0x7B, 0xCC, 0x66, 0x33, 0xF0] }
    } else if i == 30 {
        FontUnicode { character: '\u{00BE}', bitmap: [0x03, 0xC4, 0x63, 0xB4, 0xDB, 0xAC, 0xE6, 0x80] }
    } else if i == 31 {
        FontUnicode { character: '\u{00BF}', bitmap: [0x0C, 0x00, 0x0C, 0x06, 0x03, 0x33, 0x1E, 0x00] }
    } else if i == 32 {
        FontUnicode { character: '\u{00C0}', bitmap: [0x07, 0x00, 0x1C, 0x36, 0x63, 0x7F, 0x63, 0x00] }
    } else if i == 33 {
        FontUnicode { character: '\u{00C1}', bitmap: [0x70, 0x00, 0x1C, 0x36, 0x63, 0x7F, 0x63, 0x00] }
    } else if i == 34 {
        FontUnicode { character: '\u{00C2}', bitmap: [0x1C, 0x36, 0x00, 0x3E, 0x63, 0x7F, 0x63, 0x00] }
    } else if i == 35 {
        FontUnicode { character: '\u{00C3}', bitmap: [0x6E, 0x3B, 0x00, 0x3E, 0x63, 0x7F, 0x63, 0x00] }
    } else if i == 36 {
        FontUnicode { character: '\u{00C4}', bitmap: [0x63, 0x1C, 0x36, 0x63, 0x7F, 0x63, 0x63, 0x00] }
    } else if i == 37 {
        FontUnicode { character: '\u{00C5}', bitmap: [0x0C, 0x0C, 0x00, 0x1E, 0x33, 0x3F, 0x33, 0x00] }
    } else if i == 38 {
        FontUnicode { character: '\u{00C6}', bitmap: [0x7C, 0x36, 0x33, 0x7F, 0x33, 0x33, 0x73, 0x00] }
    } else if i == 39 {
        FontUnicode { character: '\u{00C7}', bitmap: [0x1E, 0x33, 0x03, 0x33, 0x1E, 0x18, 0x30, 0x1E] }
    } else if i == 40 {
        FontUnicode { character: '\u{00C8}', bitmap: [0x07, 0x00, 0x3F, 0x06, 0x1E, 0x06, 0x3F, 0x00] }
    } else if i == 41 {
        FontUnicode { character: '\u{00C9}', bitmap: [0x38, 0x00, 0x3F, 0x06, 0x1E, 0x06, 0x3F, 0x00] }
    } else if i == 42 {
        FontUnicode { character: '\u{00CA}', bitmap: [0x0C, 0x12, 0x3F, 0x06, 0x1E, 0x06, 0x3F, 0x00] }
    } else if i == 43 {
        FontUnicode { character: '\u{00CB}', bitmap: [0x36, 0x00, 0x3F, 0x06, 0x1E, 0x06, 0x3F, 0x00] }
    } else if i == 44 {
        FontUnicode { character: '\u{00CC}', bitmap: [0x07, 0x00, 0x1E, 0x0C, 0x0C, 0x0C, 0x1E, 0x00] }
    } else if i == 45 {
        FontUnicode { character: '\u{00CD}', bitmap: [0x38, 0x00, 0x1E, 0x0C, 0x0C, 0x0C, 0x1E, 0x00] }
    } else if i == 46 {
        FontUnicode { character: '\u{00CE}', bitmap: [0x0C, 0x12, 0x00, 0x1E, 0x0C, 0x0C, 0x1E, 0x00] }
    } else if i == 47 {
        FontUnicode { character: '\u{00CF}', bitmap: [0x33, 0x00, 0x1E, 0x0C, 0x0C, 0x0C, 0x1E, 0x00] }
    } else if i == 48 {
        FontUnicode { character: '\u{00D0}', bitmap: [0x3F, 0x66, 0x6F, 0x6F, 0x66, 0x66, 0x3F, 0x00] }
    } else if i == 49 {
        FontUnicode { character: '\u{00D1}', bitmap: [0x3F, 0x00, 0x33, 0x37, 0x3F, 0x3B, 0x33, 0x00] }
    } else if i == 50 {
        FontUnicode { character: '\u{00D2}', bitmap: [0x0E, 0x00, 0x18, 0x3C, 0x66, 0x3C, 0x18, 0x00] }
    } else if i == 51 {
        FontUnicode { character: '\u{00D3}', bitmap: [0x70, 0x00, 0x18, 0x3C, 0x66, 0x3C, 0x18, 0x00] }
    } else if i == 52 {
        FontUnicode { character: '\u{00D4}', bitmap: [0x3C, 0x66, 0x18, 0x3C, 0x66, 0x3C, 0x18, 0x00] }
    } else if i == 53 {
        FontUnicode { character: '\u{00D5}', bitmap: [0x6E, 0x3B, 0x00, 0x3E, 0x63, 0x63, 0x3E, 0x00] }
    } else if i == 54 {
        FontUnicode { character: '\u{00D6}', bitmap: [0xC3, 0x18, 0x3C, 0x66, 0x66, 0x3C, 0x18, 0x00] }
    } else if i == 55 {
        FontUnicode { character: '\u{00D7}', bitmap: [0x00, 0x36, 0x1C, 0x08, 0x1C, 0x36, 0x00, 0x00] }
    } else if i == 56 {
        FontUnicode { character: '\u{00D8}', bitmap: [0x5C, 0x36, 0x73, 0x7B, 0x6F, 0x36, 0x1D, 0x00] }
    } else if i == 57 {
        FontUnicode { character: '\u{00D9}', bitmap: [0x0E, 0x00, 0x66, 0x66, 0x66, 0x66, 0x3C, 0x00] }
    } else if i == 58 {
        FontUnicode { character: '\u{00DA}', bitmap: [0x70, 0x00, 0x66, 0x66, 0x66, 0x66, 0x3C, 0x00] }
    } else if i == 59 {
        FontUnicode { character: '\u{00DB}', bitmap: [0x3C, 0x66, 0x00, 0x66, 0x66, 0x66, 0x3C, 0x00] }
    } else if i == 60 {
        FontUnicode { character: '\u{00DC}', bitmap: [0x33, 0x00, 0x33, 0x33, 0x33, 0x33, 0x1E, 0x00] }
    } else if i == 61 {
        FontUnicode { character: '\u{00DD}', bitmap: [0x70, 0x00, 0x66, 0x66, 0x3C, 0x18, 0x18, 0x00] }
    } else if i == 62 {
        FontUnicode { character: '\u{00DE}', bitmap: [0x0F, 0x06, 0x3E, 0x66, 0x66, 0x3E, 0x06, 0x0F] }
    } else if i == 63 {
        FontUnicode { character: '\u{00DF}', bitmap: [0x00, 0x1E, 0x33, 0x1F, 0x33, 0x1F, 0x03, 0x03] }
    } else if i == 64 {
        FontUnicode { character: '\u{00E0}', bitmap: [0x07, 0x00, 0x1E, 0x30, 0x3E, 0x33, 0x7E, 0x00] }
    } else if i == 65 {
        FontUnicode { character: '\u{00E1}', bitmap: [0x38, 0x00, 0x1E, 0x30, 0x3E, 0x33, 0x7E, 0x00] }
    } else if i == 66 {
        FontUnicode { character: '\u{00E2}', bitmap: [0x7E, 0xC3, 0x3C, 0x60, 0x7C, 0x66, 0xFC, 0x00] }
    } else if i == 67 {
        FontUnicode { character: '\u{00E3}', bitmap: [0x6E, 0x3B, 0x1E, 0x30, 0x3E, 0x33, 0x7E, 0x00] }
    } else if i == 68 {
        FontUnicode { character: '\u{00E4}', bitmap: [0x33, 0x00, 0x1E, 0x30, 0x3E, 0x33, 0x7E, 0x00] }
    } else if i == 69 {
        FontUnicode { character: '\u{00E5}', bitmap: [0x0C, 0x0C, 0x1E, 0x30, 0x3E, 0x33, 0x7E, 0x00] }
    } else if i == 70 {
        FontUnicode { character: '\u{00E6}', bitmap: [0x00, 0x00, 0xFE, 0x30, 0xFE, 0x33, 0xFE, 0x00] }
    } else if i == 71 {
        FontUnicode { character: '\u{00E7}', bitmap: [0x00, 0x00, 0x1E, 0x03, 0x03, 0x1E, 0x30, 0x1C] }
    } else if i == 72 {
        FontUnicode { character: '\u{00E8}', bitmap: [0x07, 0x00, 0x1E, 0x33, 0x3F, 0x03, 0x1E, 0x00] }
    } else if i == 73 {
        FontUnicode { character: '\u{00E9}', bitmap: [0x38, 0x00, 0x1E, 0x33, 0x3F, 0x03, 0x1E, 0x00] }
    } else if i == 74 {
        FontUnicode { character: '\u{00EA}', bitmap: [0x7E, 0xC3, 0x3C, 0x66, 0x7E, 0x06, 0x3C, 0x00] }
    } else if i == 75 {
        FontUnicode { character: '\u{00EB}', bitmap: [0x33, 0x00, 0x1E, 0x33, 0x3F, 0x03, 0x1E, 0x00] }
    } else if i == 76 {
        FontUnicode { character: '\u{00EC}', bitmap: [0x07, 0x00, 0x0E, 0x0C, 0x0C, 0x0C, 0x1E, 0x00] }
    } else if i == 77 {
        FontUnicode { character: '\u{00ED}', bitmap: [0x1C, 0x00, 0x0E, 0x0C, 0x0C, 0x0C, 0x1E, 0x00] }
    } else if i == 78 {
        FontUnicode { character: '\u{00EE}', bitmap: [0x3E, 0x63, 0x1C, 0x18, 0x18, 0x18, 0x3C, 0x00] }
    } else if i == 79 {
        FontUnicode { character: '\u{00EF}', bitmap: [0x33, 0x00, 0x0E, 0x0C, 0x0C, 0x0C, 0x1E, 0x00] }
    } else if i == 80 {
        FontUnicode { character: '\u{00F0}', bitmap: [0x1B, 0x0E, 0x1B, 0x30, 0x3E, 0x33, 0x1E, 0x00] }
    } else if i == 81 {
        FontUnicode { character: '\u{00F1}', bitmap: [0x00, 0x1F, 0x00, 0x1F, 0x33, 0x33, 0x33, 0x00] }
    } else if i == 82 {
        FontUnicode { character: '\u{00F2}', bitmap: [0x00, 0x07, 0x00, 0x1E, 0x33, 0x33, 0x1E, 0x00] }
    } else if i == 83 {
        FontUnicode { character: '\u{00F3}', bitmap: [0x00, 0x38, 0x00, 0x1E, 0x33, 0x33, 0x1E, 0x00] }
    } else if i == 84 {
        FontUnicode { character: '\u{00F4}', bitmap: [0x1E, 0x33, 0x00, 0x1E, 0x33, 0x33, 0x1E, 0x00] }
    } else if i == 85 {
        FontUnicode { character: '\u{00F5}', bitmap: [0x6E, 0x3B, 0x00, 0x1E, 0x33, 0x33, 0x1E, 0x00] }
    } else if i == 86 {
        FontUnicode { character: '\u{00F6}', bitmap: [0x00, 0x33, 0x00, 0x1E, 0x33, 0x33, 0x1E, 0x00] }
    } else if i == 87 {
        FontUnicode { character: '\u{00F7}', bitmap: [0x18, 0x18, 0x00, 0x7E, 0x00, 0x18, 0x18, 0x00] }
    } else if i == 88 {
        FontUnicode { character: '\u{00F8}', bitmap: [0x00, 0x60, 0x3C, 0x76, 0x7E, 0x6E, 0x3C, 0x06] }
    } else if i == 89 {
        FontUnicode { character: '\u{00F9}', bitmap: [0x00, 0x07, 0x00, 0x33, 0x33, 0x33, 0x7E, 0x00] }
    } else if i == 90 {
        FontUnicode { character: '\u{00FA}', bitmap: [0x00, 0x38, 0x00, 0x33, 0x33, 0x33, 0x7E, 0x00] }
    } else if i == 91 {
        FontUnicode { character: '\u{00FB}', bitmap: [0x1E, 0x33, 0x00, 0x33, 0x33, 0x33, 0x7E, 0x00] }
    } else if i == 92 {
        FontUnicode { character: '\u{00FC}', bitmap: [0x00, 0x33, 0x00, 0x33, 0x33, 0x33, 0x7E, 0x00] }
    } else if i == 93 {
        FontUnicode { character: '\u{00FD}', bitmap: [0x00, 0x38, 0x00, 0x33, 0x33, 0x3E, 0x30, 0x1F] }
    } else if i == 94 {
        FontUnicode { character: '\u{00FE}', bitmap: [0x00, 0x00, 0x06, 0x3E, 0x66, 0x3E, 0x06, 0x00] }
    } else {
        FontUnicode { character: '\u{00FF}', bitmap: [0x00, 0x33, 0x00, 0x33, 0x33, 0x3E, 0x30, 0x1F] }
    };
    proof {
        assert(g.bitmap@ =~= latin_rows(i as int));
    }
    g
}

/// The sorted Extended Latin glyph table (`U+00A0`..`U+00FF`) with its
/// binary-search lookup.
#[derive(Debug)]
pub struct LatinFonts {
    table: Vec<FontUnicode>,
}

impl LatinFonts {
    /// The table invariant: the entries are exactly the 96 authored
    /// Extended Latin glyphs, in ascending character order.
    pub open spec fn wf(&self) -> bool {
        latin_table_wf(self.entries())
    }

    /// Build the table: the 96 authored glyphs, in ascending character
    /// order.
    pub fn new() -> (r: Self)
        ensures
            r.wf(),
    {
        let mut table: Vec<FontUnicode> = Vec::new();
        let mut i: usize = 0;
        while i < 96
            invariant
                i <= 96,
                table@.len() == i,
                forall|j: int| 0 <= j < i ==> glyph_wf(table@[j], j),
            decreases 96 - i,
        {
            let g = glyph_at(i);
            table.push(g);
            i = i + 1;
        }
        LatinFonts { table }
    }

    /// The number of entries the table holds.
    pub fn length(&self) -> (n: usize)
        ensures
            n == self.entries().len(),
    {
        self.table.len()
    }

    /// The entry at a position, or `FontError::OutOfRange` when `index`
    /// is not below `length()`.
    pub fn entry_at(&self, index: usize) -> (r: Result<FontUnicode, FontError>)
        ensures
            index < self.entries().len() ==> r == Result::<FontUnicode, FontError>::Ok(
                self.entries()[index as int],
            ),
            index >= self.entries().len() ==> r == Result::<FontUnicode, FontError>::Err(
                FontError::OutOfRange,
            ),
    {
        if index < self.table.len() {
            Ok(self.table[index])
        } else {
            Err(FontError::OutOfRange)
        }
    }

    /// Render the whole table, one section per glyph: presentation only,
    /// for documentation or visual checks.
    pub fn render_set(&self) -> (r: Vec<char>)
        ensures
            r@ == spec_render_set(self.entries()),
    {
        render_entries(&self.table)
    }
}

/// Binary search over a table sorted by character code. On a sorted table
/// the answer is exact: the position of `key`'s entry, or `None` when no
/// entry carries `key`.
fn search(v: &Vec<FontUnicode>, key: char) -> (r: Option<usize>)
    ensures
        r matches Some(i) ==> i < v@.len(),
        sorted_by_character(v@) ==> match r {
            Some(i) => i < v@.len() && v@[i as int].character == key,
            None => forall|i: int| 0 <= i < v@.len() ==> v@[i].character != key,
        },
{
    let k = key as u32;
    let mut lo: usize = 0;
    let mut hi: usize = v.len();
    while lo < hi
        invariant
            k == key as u32,
            lo <= hi <= v@.len(),
            sorted_by_character(v@) ==> forall|i: int|
                0 <= i < lo ==> (v@[i].character as u32) < k,
            sorted_by_character(v@) ==> forall|i: int|
                hi <= i < v@.len() ==> k < (v@[i].character as u32),
        decreases hi - lo,
    {
        let mid = lo + (hi - lo) / 2;
        let c = v[mid].character;
        if c == key {
            return Some(mid);
        } else if (c as u32) < k {
            lo = mid + 1;
        } else {
            proof {
                if sorted_by_character(v@) {
                    assert forall|i: int| mid <= i < v@.len() implies k < (
                    v@[i].character as u32) by {
                        if i > mid {
                            assert((v@[mid as int].character as u32) < (v@[i].character as u32));
                        }
                    }
                }
            }
            hi = mid;
        }
    }
    None
}

impl UnicodeFonts for LatinFonts {
    closed spec fn entries(&self) -> Seq<FontUnicode> {
        self.table@
    }

    fn get(&self, key: char) -> (r: Option<[u8; 8]>) {
        match self.get_font(key) {
            Some(font) => Some(font.byte_array()),
            None => None,
        }
    }

    fn get_font(&self, key: char) -> (r: Option<FontUnicode>) {
        match search(&self.table, key) {
            Some(idx) => {
                proof {
                    if sorted_by_character(self.entries()) {
                        lemma_find_present(self.entries(), key, idx as int);
                    }
                }
                Some(self.table[idx])
            },
            None => {
                proof {
                    if sorted_by_character(self.entries()) {
                        lemma_find_absent(self.entries(), key);
                    }
                }
                None
            },
        }
    }

    fn contains(&self, key: char) -> (r: bool) {
        self.get_font(key).is_some()
    }

    fn to_vec(&self) -> (r: Vec<(char, FontUnicode)>) {
        let mut pairs: Vec<(char, FontUnicode)> = Vec::new();
        let mut i: usize = 0;
        while i < self.table.len()
            invariant
                i <= self.table@.len(),
                pairs@.len() == i,
                forall|j: int| 0 <= j < i ==> pairs@[j] == (self.table@[j].character, self.table@[j]),
            decreases self.table@.len() - i,
        {
            let font = self.table[i];
            pairs.push((font.character, font));
            i = i + 1;
        }
        proof {
            assert(pairs@ =~= self.entries().map_values(|g: FontUnicode| (g.character, g)));
        }
        pairs
    }
}

impl PartialEq for LatinFonts {
    fn eq(&self, other: &LatinFonts) -> (r: bool) {
        if self.table.len() != other.table.len() {
            return false;
        }
        let mut i: usize = 0;
        while i < self.table.len()
            invariant
                i <= self.table@.len(),
                self.table@.len() == other.table@.len(),
                forall|j: int| 0 <= j < i ==> self.table@[j] == other.table@[j],
            decreases self.table@.len() - i,
        {
            if !(self.table[i] == other.table[i]) {
                proof {
                    if self.table@[i as int].character == other.table@[i as int].character {
                        assert(self.table@[i as int].bitmap@ != other.table@[i as int].bitmap@);
                    }
                }
                return false;
            }
            proof {
                assert(self.table@[i as int].bitmap =~= other.table@[i as int].bitmap);
            }
            i = i + 1;
        }
        proof {
            assert(self.table@ =~= other.table@);
        }
        true
    }
}

impl vstd::std_specs::cmp::PartialEqSpecImpl for LatinFonts {
    open spec fn obeys_eq_spec() -> bool {
        true
    }

    open spec fn eq_spec(&self, other: &LatinFonts) -> bool {
        self.entries() == other.entries()
    }
}

impl Default for LatinFonts {
    /// The default table is the freshly built one.
    fn default() -> (r: Self)
        ensures
            r.wf(),
    {
        LatinFonts::new()
    }
}

/// A well-formed table is sorted: character codes strictly ascend with the
/// position, adjacent entries included.
pub proof fn lemma_latin_sorted(s: Seq<FontUnicode>)
    requires
        latin_table_wf(s),
    ensures
        sorted_by_character(s),
        forall|i: int|
            0 <= i < s.len() - 1 ==> ((#[trigger] s[i]).character as u32) < (s[i
                + 1].character as u32),
{
    assert forall|i: int, j: int| 0 <= i < j < s.len() implies (s[i].character as u32) < (
    s[j].character as u32) by {
        assert(glyph_wf(s[i], i));
        assert(glyph_wf(s[j], j));
    }
    assert forall|i: int| 0 <= i < s.len() - 1 implies ((#[trigger] s[i]).character as u32) < (
    s[i + 1].character as u32) by {
        assert(glyph_wf(s[i], i));
        assert(glyph_wf(s[i + 1], i + 1));
    }
}

/// A well-formed table carries no character twice.
pub proof fn lemma_latin_no_duplicates(s: Seq<FontUnicode>)
    requires
        latin_table_wf(s),
    ensures
        forall|i: int, j: int|
            0 <= i < s.len() && 0 <= j < s.len() && i != j ==> s[i].character != s[j].character,
{
    assert forall|i: int, j: int|
        0 <= i < s.len() && 0 <= j < s.len() && i != j implies s[i].character
        != s[j].character by {
        assert(glyph_wf(s[i], i));
        assert(glyph_wf(s[j], j));
    }
}

/// Every character of the block is served: on a well-formed table, the
/// search for a character of `U+00A0`..`U+00FF` returns exactly the entry
/// at its position, drawn by the authored bitmap of that character.
pub proof fn lemma_block_lookup(s: Seq<FontUnicode>, c: char)
    requires
        latin_table_wf(s),
        0xA0 <= c as u32 <= 0xFF,
    ensures
        spec_find(s, c) == Some(s[c as u32 - 0xA0]),
        spec_find_bitmap(s, c) == Some(s[c as u32 - 0xA0].bitmap),
        s[c as u32 - 0xA0].bitmap@ == latin_rows(c as u32 - 0xA0),
{
    lemma_latin_sorted(s);
    let i = c as u32 - 0xA0;
    assert(glyph_wf(s[i], i));
    assert(s[i].character as u32 == c as u32);
    lemma_find_present(s, c, i);
}

/// Characters outside the block are absent: the search misses, and no
/// error is raised.
pub proof fn lemma_outside_block(s: Seq<FontUnicode>, c: char)
    requires
        latin_table_wf(s),
        !(0xA0 <= c as u32 <= 0xFF),
    ensures
        spec_find(s, c) is None,
        spec_find_bitmap(s, c) is None,
{
    assert forall|i: int| 0 <= i < s.len() implies s[i].character != c by {
        assert(glyph_wf(s[i], i));
    }
    lemma_find_absent(s, c);
}

} // verus!
