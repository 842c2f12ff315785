//! Fixed 8x8 bitmap font lookup for the Extended Latin Unicode block.
//!
//! The crate holds one sorted table of glyphs, one per character of
//! `U+00A0`..`U+00FF`, and answers per-character queries with the 8-byte
//! row bitmap of the matching glyph.

mod latin;
mod render;
mod unicode;

pub use latin::{
    glyph_at, glyph_wf, latin_code, latin_rows, latin_table_wf, lemma_block_lookup,
    lemma_latin_no_duplicates, lemma_latin_sorted, lemma_outside_block, LatinFonts,
};
pub use render::{
    render_entries, render_entry, render_glyph, render_row, spec_render_entry, spec_render_row,
    spec_render_rows, spec_render_set,
};
pub use unicode::{
    blank, lemma_contains_iff_get, lemma_find_absent, lemma_find_present, lemma_pairs_round_trip,
    lookup_pairs, sorted_by_character, spec_find, spec_find_bitmap, spec_find_pair, FontError,
    FontUnicode, UnicodeFonts,
};
