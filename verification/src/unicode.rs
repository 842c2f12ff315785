use vstd::prelude::*;

verus! {

/// One glyph: a Unicode scalar value together with its 8x8 pixel bitmap.
/// The bitmap holds one byte per pixel row, top row first; bit `j` of a
/// row lights pixel column `j`.
#[derive(Clone, Copy, Debug)]
pub struct FontUnicode {
    pub character: char,
    pub bitmap: [u8; 8],
}

/// An 8-row bitmap that lights no pixel at all.
pub open spec fn blank(rows: Seq<u8>) -> bool {
    forall|i: int| 0 <= i < rows.len() ==> rows[i] == 0
}

impl FontUnicode {
    /// The 8-byte row bitmap of this glyph.
    pub fn byte_array(&self) -> (r: [u8; 8])
        ensures
            r == self.bitmap,
    {
        self.bitmap
    }

    /// Whether this glyph draws nothing: every pixel row is zero.
    pub fn is_whitespace(&self) -> (r: bool)
        ensures
            r <==> blank(self.bitmap@),
    {
        let r = self.bitmap[0] == 0 && self.bitmap[1] == 0 && self.bitmap[2] == 0
            && self.bitmap[3] == 0 && self.bitmap[4] == 0 && self.bitmap[5] == 0
            && self.bitmap[6] == 0 && self.bitmap[7] == 0;
        proof {
            if r {
                assert forall|i: int| 0 <= i < self.bitmap@.len() implies self.bitmap@[i] == 0 by {
                }
            }
        }
        r
    }
}

impl PartialEq for FontUnicode {
    fn eq(&self, other: &FontUnicode) -> (r: bool) {
        let r = self.character == other.character && self.bitmap[0] == other.bitmap[0]
            && self.bitmap[1] == other.bitmap[1] && self.bitmap[2] == other.bitmap[2]
            && self.bitmap[3] == other.bitmap[3] && self.bitmap[4] == other.bitmap[4]
            && self.bitmap[5] == other.bitmap[5] && self.bitmap[6] == other.bitmap[6]
            && self.bitmap[7] == other.bitmap[7];
        proof {
            if r {
                assert(self.bitmap@ =~= other.bitmap@);
            }
        }
        r
    }
}

impl vstd::std_specs::cmp::PartialEqSpecImpl for FontUnicode {
    open spec fn obeys_eq_spec() -> bool {
        true
    }

    open spec fn eq_spec(&self, other: &FontUnicode) -> bool {
        self.character == other.character && self.bitmap@ == other.bitmap@
    }
}

/// The one failure beyond "absent": positional access past the table's end.
#[derive(Clone, Copy, Debug, PartialEq, Eq, Structural)]
pub enum FontError {
    OutOfRange,
}

/// The first glyph of `s` whose character is `key`, if any.
pub open spec fn spec_find(s: Seq<FontUnicode>, key: char) -> Option<FontUnicode>
    decreases s.len(),
{
    if s.len() == 0 {
        None
    } else if s[0].character == key {
        Some(s[0])
    } else {
        spec_find(s.drop_first(), key)
    }
}

/// The bitmap of the first glyph of `s` whose character is `key`, if any.
pub open spec fn spec_find_bitmap(s: Seq<FontUnicode>, key: char) -> Option<[u8; 8]> {
    match spec_find(s, key) {
        Some(g) => Some(g.bitmap),
        None => None,
    }
}

/// The entry of the first pair of `s` whose character is `key`, if any.
pub open spec fn spec_find_pair(s: Seq<(char, FontUnicode)>, key: char) -> Option<FontUnicode>
    decreases s.len(),
{
    if s.len() == 0 {
        None
    } else if s[0].0 == key {
        Some(s[0].1)
    } else {
        spec_find_pair(s.drop_first(), key)
    }
}

/// Entries strictly ascend by character code: the table invariant, and the
/// precondition under which binary search answers lookups.
pub open spec fn sorted_by_character(s: Seq<FontUnicode>) -> bool {
    forall|i: int, j: int|
        0 <= i < j < s.len() ==> (s[i].character as u32) < (s[j].character as u32)
}

/// In a sorted table, the search returns exactly the entry at the position
/// that carries `key`.
pub proof fn lemma_find_present(s: Seq<FontUnicode>, key: char, i: int)
    requires
        sorted_by_character(s),
        0 <= i < s.len(),
        s[i].character == key,
    ensures
        spec_find(s, key) == Some(s[i]),
    decreases s.len(),
{
    if i > 0 {
        assert((s[0].character as u32) < (s[i].character as u32));
        assert(sorted_by_character(s.drop_first())) by {
            assert forall|m: int, n: int|
                0 <= m < n < s.drop_first().len() implies (s.drop_first()[m].character as u32) < (
            s.drop_first()[n].character as u32) by {
                assert(s.drop_first()[m] == s[m + 1]);
                assert(s.drop_first()[n] == s[n + 1]);
            }
        }
        assert(s.drop_first()[i - 1] == s[i]);
        lemma_find_present(s.drop_first(), key, i - 1);
    }
}

/// The search misses exactly when no entry carries `key`.
pub proof fn lemma_find_absent(s: Seq<FontUnicode>, key: char)
    requires
        forall|i: int| 0 <= i < s.len() ==> s[i].character != key,
    ensures
        spec_find(s, key) is None,
    decreases s.len(),
{
    if s.len() > 0 {
        assert forall|i: int| 0 <= i < s.drop_first().len() implies s.drop_first()[i].character
            != key by {
            assert(s.drop_first()[i] == s[i + 1]);
        }
        lemma_find_absent(s.drop_first(), key);
    }
}

/// A bitmap comes back exactly for the characters some entry carries:
/// `contains` answers `get(c).is_some()`.
pub proof fn lemma_contains_iff_get(s: Seq<FontUnicode>, key: char)
    ensures
        (spec_find(s, key) is Some) <==> (spec_find_bitmap(s, key) is Some),
{
}

/// Round trip: a lookup over the (character, entry) pair list built from a
/// table finds exactly what the table's own search finds.
pub proof fn lemma_pairs_round_trip(s: Seq<FontUnicode>, key: char)
    ensures
        spec_find_pair(s.map_values(|g: FontUnicode| (g.character, g)), key) == spec_find(s, key),
    decreases s.len(),
{
    let m = s.map_values(|g: FontUnicode| (g.character, g));
    if s.len() > 0 {
        assert(m[0] == (s[0].character, s[0]));
        assert(m.drop_first() =~= s.drop_first().map_values(|g: FontUnicode| (g.character, g)));
        lemma_pairs_round_trip(s.drop_first(), key);
    }
}

/// The lookup capability a Unicode-block glyph table offers: per-character
/// queries answered from an ordered table of glyph entries. On a table
/// whose entries are not sorted by character, the search-backed answers
/// are unspecified.
pub trait UnicodeFonts: Sized {
    /// The glyph entries backing this lookup, in table order.
    spec fn entries(&self) -> Seq<FontUnicode>;

    /// The 8-byte bitmap of the glyph for `key`, absent when no entry
    /// carries that character.
    fn get(&self, key: char) -> (r: Option<[u8; 8]>)
        ensures
            sorted_by_character(self.entries()) ==> r == spec_find_bitmap(self.entries(), key),
    ;

    /// The whole glyph entry for `key`, absent when no entry carries that
    /// character.
    fn get_font(&self, key: char) -> (r: Option<FontUnicode>)
        ensures
            sorted_by_character(self.entries()) ==> r == spec_find(self.entries(), key),
    ;

    /// Whether some entry renders `key`; equivalent to `get(key).is_some()`.
    fn contains(&self, key: char) -> (r: bool)
        ensures
            sorted_by_character(self.entries()) ==> r == (spec_find(self.entries(), key) is Some),
    ;

    /// Every (character, entry) pair, in table order, for callers that
    /// build an index of their own.
    fn to_vec(&self) -> (r: Vec<(char, FontUnicode)>)
        ensures
            r@ == self.entries().map_values(|g: FontUnicode| (g.character, g)),
    ;
}

/// Linear lookup over a caller-built list of (character, entry) pairs,
/// such as the one `to_vec` returns.
pub fn lookup_pairs(pairs: &Vec<(char, FontUnicode)>, key: char) -> (r: Option<FontUnicode>)
    ensures
        r == spec_find_pair(pairs@, key),
{
    let mut i: usize = 0;
    proof {
        assert(pairs@.skip(0) =~= pairs@);
    }
    while i < pairs.len()
        invariant
            i <= pairs@.len(),
            spec_find_pair(pairs@, key) == spec_find_pair(pairs@.skip(i as int), key),
        decreases pairs@.len() - i,
    {
        if pairs[i].0 == key {
            assert(pairs@.skip(i as int)[0] == pairs@[i as int]);
            return Some(pairs[i].1);
        }
        proof {
            assert(pairs@.skip(i as int)[0] == pairs@[i as int]);
            assert(pairs@.skip(i as int).drop_first() =~= pairs@.skip(i as int + 1));
        }
        i = i + 1;
    }
    None
}

} // verus!
