use vstd::prelude::*;
use crate::unicode::{blank, FontUnicode};

verus! {

/// One rendered pixel row: eight block characters, column `j` filled
/// exactly when bit `j` of `row` is set.
pub open spec fn spec_render_row(row: u8) -> Seq<char> {
    Seq::new(8, |j: int| if (row >> (j as u8)) & 1 == 1 { '█' } else { '░' })
}

/// Render one pixel row of a bitmap as eight block characters.
pub fn render_row(row: u8) -> (r: Vec<char>)
    ensures
        r@ == spec_render_row(row),
{
    let mut out: Vec<char> = Vec::new();
    let mut j: usize = 0;
    while j < 8
        invariant
            j <= 8,
            out@.len() == j,
            forall|k: int| 0 <= k < j ==> out@[k] == spec_render_row(row)[k],
        decreases 8 - j,
    {
        if (row >> (j as u8)) & 1 == 1 {
            out.push('█');
        } else {
            out.push('░');
        }
        j = j + 1;
    }
    proof {
        assert(out@ =~= spec_render_row(row));
    }
    out
}

/// A rendered bitmap: each pixel row's eight block characters followed by
/// a newline, top row first.
pub open spec fn spec_render_rows(rows: Seq<u8>) -> Seq<char>
    decreases rows.len(),
{
    if rows.len() == 0 {
        Seq::empty()
    } else {
        spec_render_row(rows[0]) + seq!['\n'] + spec_render_rows(rows.drop_first())
    }
}

proof fn lemma_render_rows_push(rows: Seq<u8>, x: u8)
    ensures
        spec_render_rows(rows.push(x)) == spec_render_rows(rows) + spec_render_row(x)
            + seq!['\n'],
    decreases rows.len(),
{
    if rows.len() == 0 {
        reveal_with_fuel(spec_render_rows, 2);
        assert(rows.push(x).drop_first() =~= Seq::<u8>::empty());
        assert(spec_render_rows(rows.push(x)) =~= spec_render_rows(rows) + spec_render_row(x)
            + seq!['\n']);
    } else {
        assert(rows.push(x).drop_first() =~= rows.drop_first().push(x));
        lemma_render_rows_push(rows.drop_first(), x);
        assert(spec_render_rows(rows.push(x)) =~= spec_render_rows(rows) + spec_render_row(x)
            + seq!['\n']);
    }
}

/// Render a glyph's 8x8 bitmap as a grid of block characters, one text
/// line per pixel row.
pub fn render_glyph(glyph: &FontUnicode) -> (r: Vec<char>)
    ensures
        r@ == spec_render_rows(glyph.bitmap@),
{
    let mut out: Vec<char> = Vec::new();
    let mut i: usize = 0;
    while i < 8
        invariant
            i <= 8,
            out@ == spec_render_rows(glyph.bitmap@.take(i as int)),
        decreases 8 - i,
    {
        let mut line = render_row(glyph.bitmap[i]);
        out.append(&mut line);
        out.push('\n');
        proof {
            lemma_render_rows_push(glyph.bitmap@.take(i as int), glyph.bitmap@[i as int]);
            assert(glyph.bitmap@.take(i as int).push(glyph.bitmap@[i as int]) =~= glyph.bitmap@.take(
            i as int + 1));
            assert(out@ =~= spec_render_rows(glyph.bitmap@.take(i as int + 1)));
        }
        i = i + 1;
    }
    proof {
        assert(glyph.bitmap@.take(8) =~= glyph.bitmap@);
    }
    out
}

/// The uppercase hexadecimal digit of a value below sixteen.
pub open spec fn spec_hex_digit(d: int) -> char {
    if d == 0 {
        '0'
    } else if d == 1 {
        '1'
    } else if d == 2 {
        '2'
    } else if d == 3 {
        '3'
    } else if d == 4 {
        '4'
    } else if d == 5 {
        '5'
    } else if d == 6 {
        '6'
    } else if d == 7 {
        '7'
    } else if d == 8 {
        '8'
    } else if d == 9 {
        '9'
    } else if d == 10 {
        'A'
    } else if d == 11 {
        'B'
    } else if d == 12 {
        'C'
    } else if d == 13 {
        'D'
    } else if d == 14 {
        'E'
    } else {
        'F'
    }
}

/// The uppercase hexadecimal digit of a value below sixteen.
pub fn hex_digit(d: u32) -> (c: char)
    requires
        d < 16,
    ensures
        c == spec_hex_digit(d as int),
{
    if d == 0 {
        '0'
    } else if d == 1 {
        '1'
    } else if d == 2 {
        '2'
    } else if d == 3 {
        '3'
    } else if d == 4 {
        '4'
    } else if d == 5 {
        '5'
    } else if d == 6 {
        '6'
    } else if d == 7 {
        '7'
    } else if d == 8 {
        '8'
    } else if d == 9 {
        '9'
    } else if d == 10 {
        'A'
    } else if d == 11 {
        'B'
    } else if d == 12 {
        'C'
    } else if d == 13 {
        'D'
    } else if d == 14 {
        'E'
    } else {
        'F'
    }
}

/// The four uppercase hexadecimal digits of the low sixteen bits of a code.
pub open spec fn spec_hex4(code: int) -> Seq<char> {
    seq![
        spec_hex_digit(code / 4096 % 16),
        spec_hex_digit(code / 256 % 16),
        spec_hex_digit(code / 16 % 16),
        spec_hex_digit(code % 16),
    ]
}

/// Render the low sixteen bits of a character code as four uppercase
/// hexadecimal digits.
pub fn hex4(code: u32) -> (r: Vec<char>)
    ensures
        r@ == spec_hex4(code as int),
{
    let mut out: Vec<char> = Vec::new();
    out.push(hex_digit(code / 4096 % 16));
    out.push(hex_digit(code / 256 % 16));
    out.push(hex_digit(code / 16 % 16));
    out.push(hex_digit(code % 16));
    proof {
        assert(out@ =~= spec_hex4(code as int));
    }
    out
}

/// One entry's section of the table dump: a `## 0xXXXX` header line, then
/// the glyph grid and a blank line unless the glyph is blank.
pub open spec fn spec_render_entry(g: FontUnicode) -> Seq<char> {
    let header = seq!['#', '#', ' ', '0', 'x'] + spec_hex4(g.character as int) + seq!['\n'];
    if blank(g.bitmap@) {
        header
    } else {
        header + spec_render_rows(g.bitmap@) + seq!['\n']
    }
}

/// Render one entry's section of the table dump.
pub fn render_entry(glyph: &FontUnicode) -> (r: Vec<char>)
    ensures
        r@ == spec_render_entry(*glyph),
{
    let mut out: Vec<char> = Vec::new();
    out.push('#');
    out.push('#');
    out.push(' ');
    out.push('0');
    out.push('x');
    let mut code = hex4(glyph.character as u32);
    out.append(&mut code);
    out.push('\n');
    if !glyph.is_whitespace() {
        let mut grid = render_glyph(glyph);
        out.append(&mut grid);
        out.push('\n');
    }
    proof {
        assert(out@ =~= spec_render_entry(*glyph));
    }
    out
}

/// The whole table dump: each entry's section, in table order.
pub open spec fn spec_render_set(s: Seq<FontUnicode>) -> Seq<char>
    decreases s.len(),
{
    if s.len() == 0 {
        Seq::empty()
    } else {
        spec_render_entry(s[0]) + spec_render_set(s.drop_first())
    }
}

proof fn lemma_render_set_push(s: Seq<FontUnicode>, g: FontUnicode)
    ensures
        spec_render_set(s.push(g)) == spec_render_set(s) + spec_render_entry(g),
    decreases s.len(),
{
    if s.len() == 0 {
        reveal_with_fuel(spec_render_set, 2);
        assert(s.push(g).drop_first() =~= Seq::<FontUnicode>::empty());
        assert(spec_render_set(s.push(g)) =~= spec_render_set(s) + spec_render_entry(g));
    } else {
        assert(s.push(g).drop_first() =~= s.drop_first().push(g));
        lemma_render_set_push(s.drop_first(), g);
        assert(spec_render_set(s.push(g)) =~= spec_render_set(s) + spec_render_entry(g));
    }
}

/// Render every entry of a table, in order: the computing half of the
/// diagnostic dump. Printing what comes back is the caller's affair.
pub fn render_entries(entries: &Vec<FontUnicode>) -> (r: Vec<char>)
    ensures
        r@ == spec_render_set(entries@),
{
    let mut out: Vec<char> = Vec::new();
    let mut i: usize = 0;
    proof {
        assert(entries@.take(0) =~= Seq::<FontUnicode>::empty());
    }
    while i < entries.len()
        invariant
            i <= entries@.len(),
            out@ == spec_render_set(entries@.take(i as int)),
        decreases entries@.len() - i,
    {
        let mut section = render_entry(&entries[i]);
        out.append(&mut section);
        proof {
            lemma_render_set_push(entries@.take(i as int), entries@[i as int]);
            assert(entries@.take(i as int).push(entries@[i as int]) =~= entries@.take(
            i as int + 1));
            assert(out@ =~= spec_render_set(entries@.take(i as int + 1)));
        }
        i = i + 1;
    }
    proof {
        assert(entries@.take(entries@.len() as int) =~= entries@);
    }
    out
}

} // verus!
