//! Display width of characters and strings, in terminal columns.
//!
//! Widths come from the `unicode-width` crate, in its East Asian reading:
//! wide and ambiguous characters take two columns.

use crate::text::to_chars;
use unicode_width::UnicodeWidthChar;
use unicode_width::UnicodeWidthStr;
use vstd::prelude::*;

verus! {

/// What `UnicodeWidthChar::width_cjk` returns for `c`: the number of columns
/// the character takes in an East Asian context, or `None` for a control
/// character.
pub uninterp spec fn cjk_width(c: char) -> Option<usize>;

/// The columns of `c`, given the width table's answer for it. Printable
/// ASCII takes one column, which is also what the table answers for it; a
/// character without a width takes none.
pub open spec fn columns_given(c: char, answer: Option<usize>) -> usize {
    if ' ' <= c && c <= '~' {
        1
    } else {
        match answer {
            Some(n) => n,
            None => 0,
        }
    }
}

/// The columns one character takes on screen.
pub open spec fn columns(c: char) -> usize {
    columns_given(c, cjk_width(c))
}

/// The display width of a text: the sum of the columns of its characters.
pub open spec fn display_width(s: Seq<char>) -> nat
    decreases s.len(),
{
    if s.len() == 0 {
        0
    } else {
        display_width(s.drop_last()) + columns(s.last()) as nat
    }
}

/// The characters of measured cells. A cell is a character with the
/// columns it takes.
pub open spec fn glyphs(cells: Seq<(char, usize)>) -> Seq<char> {
    cells.map_values(|cell: (char, usize)| cell.0)
}

/// The columns that measured cells take together.
pub open spec fn total_width(cells: Seq<(char, usize)>) -> nat
    decreases cells.len(),
{
    if cells.len() == 0 {
        0
    } else {
        total_width(cells.drop_last()) + cells.last().1 as nat
    }
}

/// A text as cells: each character with the columns it takes.
pub open spec fn measured(s: Seq<char>) -> Seq<(char, usize)> {
    s.map_values(|c: char| (c, columns(c)))
}

/// Calls `UnicodeWidthChar::width_cjk` on `c`.
///
/// Trusted: the result is the crate's answer for `c`.
#[verifier::external_body]
fn char_width_cjk(c: char) -> (w: Option<usize>)
    ensures
        w == cjk_width(c),
{
    UnicodeWidthChar::width_cjk(c)
}

/// Calls `UnicodeWidthStr::width_cjk` on `s`.
///
/// Trusted: the crate sums, over the characters of `s`, the width that
/// `UnicodeWidthChar::width_cjk` gives each one, counting a character
/// without a width as zero; and it gives every character from U+0020 to
/// U+007E the width one, before it consults its tables.
#[verifier::external_body]
fn str_width_cjk(s: &str) -> (w: usize)
    ensures
        w == display_width(s@),
{
    UnicodeWidthStr::width_cjk(s)
}

/// The columns of `c`, from the width table's answer for it.
pub fn columns_from(c: char, answer: Option<usize>) -> (w: usize)
    ensures
        w == columns_given(c, answer),
{
    if ' ' <= c && c <= '~' {
        1
    } else {
        match answer {
            Some(n) => n,
            None => 0,
        }
    }
}

/// The columns that `c` takes on screen.
pub fn char_columns(c: char) -> (w: usize)
    ensures
        w == columns(c),
{
    columns_from(c, char_width_cjk(c))
}

/// The display width of `s`.
pub fn visual_len(s: &str) -> (w: usize)
    ensures
        w == display_width(s@),
{
    str_width_cjk(s)
}

/// The characters of `s`, each with the columns it takes.
pub fn measure(s: &str) -> (cells: Vec<(char, usize)>)
    ensures
        cells@ == measured(s@),
{
    let chars = to_chars(s);
    let mut cells: Vec<(char, usize)> = Vec::new();
    let mut i: usize = 0;
    while i < chars.len()
        invariant
            i <= chars.len(),
            cells@ == measured(chars@.take(i as int)),
        decreases chars.len() - i,
    {
        cells.push((chars[i], char_columns(chars[i])));
        assert(chars@.take(i + 1) =~= chars@.take(i as int).push(chars@[i as int]));
        i += 1;
    }
    assert(chars@.take(i as int) =~= chars@);
    cells
}

/// The width of a concatenation is the sum of the widths of its parts.
pub proof fn lemma_width_concat(a: Seq<char>, b: Seq<char>)
    ensures
        display_width(a + b) == display_width(a) + display_width(b),
    decreases b.len(),
{
    if b.len() == 0 {
        assert(a + b =~= a);
    } else {
        lemma_width_concat(a, b.drop_last());
        assert((a + b).drop_last() =~= a + b.drop_last());
    }
}

/// A text of one character is as wide as that character.
pub proof fn lemma_width_single(c: char)
    ensures
        display_width(seq![c]) == columns(c),
{
    reveal_with_fuel(display_width, 2);
    assert(seq![c].drop_last() =~= Seq::<char>::empty());
}

/// A wide character next to a narrow one takes three columns, in either
/// order.
pub proof fn lemma_wide_and_narrow(wide: char, narrow: char)
    requires
        columns(wide) == 2,
        columns(narrow) == 1,
    ensures
        display_width(seq![wide, narrow]) == 3,
        display_width(seq![narrow, wide]) == 3,
{
    lemma_width_single(wide);
    lemma_width_single(narrow);
    lemma_width_concat(seq![wide], seq![narrow]);
    lemma_width_concat(seq![narrow], seq![wide]);
    assert(seq![wide] + seq![narrow] =~= seq![wide, narrow]);
    assert(seq![narrow] + seq![wide] =~= seq![narrow, wide]);
}

/// The cells of a concatenation take the columns of both parts.
pub proof fn lemma_total_width_concat(a: Seq<(char, usize)>, b: Seq<(char, usize)>)
    ensures
        total_width(a + b) == total_width(a) + total_width(b),
    decreases b.len(),
{
    if b.len() == 0 {
        assert(a + b =~= a);
    } else {
        lemma_total_width_concat(a, b.drop_last());
        assert((a + b).drop_last() =~= a + b.drop_last());
    }
}

/// Measuring a text keeps its characters and its display width.
pub proof fn lemma_measured(s: Seq<char>)
    ensures
        glyphs(measured(s)) == s,
        total_width(measured(s)) == display_width(s),
    decreases s.len(),
{
    assert(glyphs(measured(s)) =~= s);
    if s.len() > 0 {
        lemma_measured(s.drop_last());
        assert(measured(s).drop_last() =~= measured(s.drop_last()));
    }
}

} // verus!
