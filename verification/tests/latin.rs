use font8x8::{glyph_at, FontError, FontUnicode, LatinFonts, UnicodeFonts};

#[test]
fn latin_set_implements_default_trait_with_method_new() {
    let latin_set: LatinFonts = Default::default();
    assert_eq!(latin_set, LatinFonts::new());
}

#[test]
fn latin_fonts_constant_is_equal_to_a_new_instance() {
    assert_eq!(LatinFonts::new(), LatinFonts::new());
}

#[test]
fn latin_fonts_constant_wraps_basic_unicode_constant() {
    let latin = LatinFonts::new();
    assert!(latin.length() == 96);
    for idx in 0..96 {
        assert_eq!(latin.entry_at(idx).unwrap(), glyph_at(idx));
    }
}

#[test]
fn get_copyright_sign_returns_authored_bitmap() {
    let latin = LatinFonts::new();
    let bitmap = latin.get('\u{00A9}').unwrap();
    assert_eq!(bitmap, [0x3C, 0x42, 0x99, 0x85, 0x85, 0x99, 0x42, 0x3C]);
}

#[test]
fn get_outside_block_is_absent() {
    let latin = LatinFonts::new();
    assert_eq!(latin.get('\u{0041}'), None);
    assert_eq!(latin.get('\u{009F}'), None);
    assert_eq!(latin.get('\u{0100}'), None);
    assert_eq!(latin.get('\u{0000}'), None);
    assert_eq!(latin.get('\u{10FFFF}'), None);
    assert!(!latin.contains('A'));
}

#[test]
fn contains_non_breaking_space_with_blank_bitmap() {
    let latin = LatinFonts::new();
    assert!(latin.contains('\u{00A0}'));
    let font = latin.get_font('\u{00A0}').unwrap();
    assert!(font.is_whitespace());
    assert_eq!(font.byte_array(), [0, 0, 0, 0, 0, 0, 0, 0]);
}

#[test]
fn entry_at_is_bounds_checked() {
    let latin = LatinFonts::new();
    assert_eq!(latin.entry_at(0).unwrap().character, '\u{00A0}');
    assert_eq!(latin.entry_at(95).unwrap().character, '\u{00FF}');
    assert_eq!(latin.entry_at(96), Err(FontError::OutOfRange));
    assert_eq!(latin.entry_at(usize::MAX), Err(FontError::OutOfRange));
}

#[test]
fn every_block_character_gets_its_authored_bitmap() {
    let latin = LatinFonts::new();
    for i in 0..96u32 {
        let c = char::from_u32(0xA0 + i).unwrap();
        let bitmap = latin.get(c).unwrap();
        assert_eq!(bitmap, glyph_at(i as usize).bitmap);
        assert_eq!(glyph_at(i as usize).character, c);
    }
}

#[test]
fn table_is_sorted_without_duplicates() {
    let latin = LatinFonts::new();
    let pairs = latin.to_vec();
    assert_eq!(pairs.len(), 96);
    for w in pairs.windows(2) {
        assert!((w[0].0 as u32) < (w[1].0 as u32));
    }
}

#[test]
fn superscripts_and_acute_accent_have_distinct_entries() {
    let latin = LatinFonts::new();
    let two = latin.get('\u{00B2}').unwrap();
    let three = latin.get('\u{00B3}').unwrap();
    let acute = latin.get('\u{00B4}').unwrap();
    assert_eq!(two, [0x1C, 0x30, 0x18, 0x0C, 0x3C, 0x00, 0x00, 0x00]);
    assert_eq!(three, [0x1C, 0x30, 0x18, 0x30, 0x1C, 0x00, 0x00, 0x00]);
    assert_eq!(acute, [0x18, 0x0C, 0x00, 0x00, 0x00, 0x00, 0x00, 0x00]);
}

#[test]
fn contains_matches_get_is_some_for_all_scalars_tried() {
    let latin = LatinFonts::new();
    for code in 0..0x300u32 {
        let c = char::from_u32(code).unwrap();
        assert_eq!(latin.contains(c), latin.get(c).is_some());
        assert_eq!(latin.contains(c), (0xA0..=0xFF).contains(&code));
    }
}

#[test]
fn get_and_get_font_agree() {
    let latin = LatinFonts::new();
    for code in 0..0x180u32 {
        let c = char::from_u32(code).unwrap();
        match latin.get_font(c) {
            Some(font) => {
                assert_eq!(font.character, c);
                assert_eq!(latin.get(c), Some(font.bitmap));
            }
            None => assert_eq!(latin.get(c), None),
        }
    }
}

#[test]
fn rebuilt_lookup_round_trips_every_get_result() {
    let latin = LatinFonts::new();
    let pairs = latin.to_vec();
    for code in 0..0x200u32 {
        let c = char::from_u32(code).unwrap();
        let rebuilt = font8x8::lookup_pairs(&pairs, c);
        assert_eq!(rebuilt, latin.get_font(c));
    }
}

#[test]
fn glyph_entries_compare_by_value() {
    let a = glyph_at(0);
    let b = glyph_at(0);
    assert_eq!(a, b);
    assert_ne!(glyph_at(0), glyph_at(1));
    let altered = FontUnicode { character: a.character, bitmap: [1, 0, 0, 0, 0, 0, 0, 0] };
    assert_ne!(a, altered);
}
