use font8x8::{glyph_at, render_entry, render_glyph, LatinFonts, UnicodeFonts};

fn to_string(chars: Vec<char>) -> String {
    chars.into_iter().collect()
}

#[test]
fn inverted_exclamation_renders_as_grid() {
    let glyph = glyph_at(1);
    let grid = to_string(render_glyph(&glyph));
    let expected = "\
░░░██░░░
░░░██░░░
░░░░░░░░
░░░██░░░
░░░██░░░
░░░██░░░
░░░██░░░
░░░░░░░░
";
    assert_eq!(grid, expected);
}

#[test]
fn cent_sign_renders_as_grid() {
    let latin = LatinFonts::new();
    let glyph = latin.get_font('\u{00A2}').unwrap();
    let grid = to_string(render_glyph(&glyph));
    let expected = "\
░░░██░░░
░░░██░░░
░██████░
██░░░░░░
██░░░░░░
░██████░
░░░██░░░
░░░██░░░
";
    assert_eq!(grid, expected);
}

#[test]
fn blank_glyph_section_is_header_only() {
    let glyph = glyph_at(0);
    let section = to_string(render_entry(&glyph));
    assert_eq!(section, "## 0x00A0\n");
}

#[test]
fn drawn_glyph_section_holds_header_and_grid() {
    let glyph = glyph_at(95);
    let section = to_string(render_entry(&glyph));
    assert!(section.starts_with("## 0x00FF\n"));
    assert!(section.ends_with("\n\n"));
    assert_eq!(section.lines().count(), 10);
}

#[test]
fn render_set_walks_the_whole_table_in_order() {
    let latin = LatinFonts::new();
    let dump = to_string(latin.render_set());
    assert!(dump.starts_with("## 0x00A0\n## 0x00A1\n░░░██░░░\n"));
    for code in 0xA0..=0xFFu32 {
        let header = format!("## 0x{:04X}\n", code);
        assert!(dump.contains(&header));
    }
}
