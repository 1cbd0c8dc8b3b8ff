//! The scrolling text window: rotation of the stored text, and the
//! fixed-width cut of it that is printed.

use crate::text::push_char;
use crate::width::{columns, display_width, glyphs, lemma_measured, lemma_total_width_concat,
    lemma_width_concat, lemma_width_single, measure, measured, total_width, visual_len};
use vstd::prelude::*;
use vstd::string::StringExecFns;

verus! {

/// A run of `n` spaces.
pub open spec fn spaces(n: nat) -> Seq<char> {
    Seq::new(n, |i: int| ' ')
}

/// How many leading cells fit into `width` columns: the walk stops in front
/// of the first cell that would go past `width`.
pub open spec fn fitting(cells: Seq<(char, usize)>, width: nat) -> nat
    decreases cells.len(),
{
    if cells.len() == 0 || cells[0].1 > width {
        0
    } else {
        1 + fitting(cells.drop_first(), (width - cells[0].1) as nat)
    }
}

/// The window over measured cells: the characters of the leading cells
/// that fit into `width` columns, then one space for each column that is
/// left.
pub open spec fn window(cells: Seq<(char, usize)>, width: nat) -> Seq<char> {
    let shown = cells.take(fitting(cells, width) as int);
    glyphs(shown) + spaces((width - total_width(shown)) as nat)
}

/// The window that is printed for `text`: its leading characters that fit
/// into `width` columns, then spaces up to `width` columns.
pub open spec fn rendered(text: Seq<char>, width: nat) -> Seq<char> {
    window(measured(text), width)
}

/// `text` with its first character moved to the end. The empty text stays
/// empty.
pub open spec fn rotated(text: Seq<char>) -> Seq<char> {
    if text.len() == 0 {
        text
    } else {
        text.drop_first().push(text[0])
    }
}

/// One scroll step on a text that is `now` columns wide, for a window of
/// `width` columns. Text wider than the window rotates by one character;
/// narrower text is filled with one space for each column that is missing;
/// text of exactly that width stays.
pub open spec fn scrolled_at(text: Seq<char>, now: nat, width: nat) -> Seq<char> {
    if now > width {
        rotated(text)
    } else if now < width {
        text + spaces((width - now) as nat)
    } else {
        text
    }
}

/// One scroll step on `text` for a window of `width` columns.
pub open spec fn scrolled(text: Seq<char>, width: nat) -> Seq<char> {
    scrolled_at(text, display_width(text), width)
}

/// A run of `n` spaces is `n` columns wide.
pub proof fn lemma_spaces_width(n: nat)
    ensures
        display_width(spaces(n)) == n,
    decreases n,
{
    if n > 0 {
        lemma_spaces_width((n - 1) as nat);
        assert(spaces(n).drop_last() =~= spaces((n - 1) as nat));
    }
}

/// A text is as wide as its first character and the rest together.
pub proof fn lemma_width_front(text: Seq<char>)
    requires
        text.len() > 0,
    ensures
        display_width(text) == columns(text[0]) + display_width(text.drop_first()),
{
    lemma_width_single(text[0]);
    lemma_width_concat(seq![text[0]], text.drop_first());
    assert(seq![text[0]] + text.drop_first() =~= text);
}

/// Cells take the columns of the first cell and of the rest together.
pub proof fn lemma_total_width_front(cells: Seq<(char, usize)>)
    requires
        cells.len() > 0,
    ensures
        total_width(cells) == cells[0].1 + total_width(cells.drop_first()),
{
    reveal_with_fuel(total_width, 2);
    assert(seq![cells[0]].drop_last() =~= Seq::<(char, usize)>::empty());
    lemma_total_width_concat(seq![cells[0]], cells.drop_first());
    assert(seq![cells[0]] + cells.drop_first() =~= cells);
}

/// Rotation keeps the display width.
pub proof fn lemma_rotation_keeps_width(text: Seq<char>)
    ensures
        display_width(rotated(text)) == display_width(text),
{
    if text.len() > 0 {
        lemma_width_front(text);
        assert(rotated(text).drop_last() =~= text.drop_first());
    }
}

/// The cells that fit are leading cells, and together they are no wider
/// than the window.
pub proof fn lemma_fitting_fits(cells: Seq<(char, usize)>, width: nat)
    ensures
        fitting(cells, width) <= cells.len(),
        total_width(cells.take(fitting(cells, width) as int)) <= width,
    decreases cells.len(),
{
    if cells.len() == 0 || cells[0].1 > width {
        assert(cells.take(0) =~= Seq::<(char, usize)>::empty());
    } else {
        let rest = cells.drop_first();
        let left = (width - cells[0].1) as nat;
        lemma_fitting_fits(rest, left);
        let shown = cells.take(fitting(cells, width) as int);
        assert(shown.drop_first() =~= rest.take(fitting(rest, left) as int));
        lemma_total_width_front(shown);
    }
}

/// The walk stops only in front of a cell that does not fit: either all
/// cells fit, or one more cell would go past the window.
pub proof fn lemma_fitting_is_longest(cells: Seq<(char, usize)>, width: nat)
    ensures
        fitting(cells, width) == cells.len() || total_width(
            cells.take(fitting(cells, width) as int + 1),
        ) > width,
    decreases cells.len(),
{
    if cells.len() == 0 {
    } else if cells[0].1 > width {
        assert(cells.take(1) =~= seq![cells[0]]);
        lemma_total_width_front(cells.take(1));
        assert(cells.take(1).drop_first() =~= Seq::<(char, usize)>::empty());
    } else {
        let rest = cells.drop_first();
        let left = (width - cells[0].1) as nat;
        lemma_fitting_is_longest(rest, left);
        if fitting(rest, left) != rest.len() {
            lemma_fitting_fits(rest, left);
            let longer = cells.take(fitting(cells, width) as int + 1);
            assert(longer.drop_first() =~= rest.take(fitting(rest, left) as int + 1));
            lemma_total_width_front(longer);
        }
    }
}

/// Cells that are together no wider than the window all fit.
pub proof fn lemma_narrow_cells_fit(cells: Seq<(char, usize)>, width: nat)
    requires
        total_width(cells) <= width,
    ensures
        fitting(cells, width) == cells.len(),
    decreases cells.len(),
{
    if cells.len() > 0 {
        lemma_total_width_front(cells);
        lemma_narrow_cells_fit(cells.drop_first(), (width - cells[0].1) as nat);
    }
}

/// The printed window shows leading characters of the text, and it is
/// exactly `width` columns wide.
pub proof fn lemma_rendered_width(text: Seq<char>, width: nat)
    ensures
        fitting(measured(text), width) <= text.len(),
        rendered(text, width) == text.take(fitting(measured(text), width) as int) + spaces(
            (width - display_width(text.take(fitting(measured(text), width) as int))) as nat,
        ),
        display_width(rendered(text, width)) == width,
{
    let count = fitting(measured(text), width) as int;
    lemma_fitting_fits(measured(text), width);
    assert(measured(text).take(count) =~= measured(text.take(count)));
    lemma_measured(text.take(count));
    let shown = text.take(count);
    lemma_spaces_width((width - display_width(shown)) as nat);
    lemma_width_concat(shown, spaces((width - display_width(shown)) as nat));
}

/// Rendering the same text for the same width gives the same window,
/// however often it is done: the window depends on nothing else.
pub proof fn lemma_render_repeatable(first: Seq<char>, second: Seq<char>, width: nat)
    requires
        first == second,
    ensures
        rendered(first, width) == rendered(second, width),
{
}

/// Rendering is idempotent: a rendered window rendered again, for the same
/// width, is the same window.
pub proof fn lemma_render_idempotent(text: Seq<char>, width: nat)
    ensures
        rendered(rendered(text, width), width) == rendered(text, width),
{
    let first = rendered(text, width);
    lemma_rendered_width(text, width);
    lemma_measured(first);
    lemma_narrow_cells_fit(measured(first), width);
    assert(measured(first).take(first.len() as int) =~= measured(first));
    assert(first + spaces(0) =~= first);
}

/// A text narrower than the window is, after one scroll step, exactly as
/// wide as the window; any other text keeps its width.
pub proof fn lemma_scrolled_width(text: Seq<char>, width: nat)
    ensures
        display_width(scrolled(text, width)) == if display_width(text) < width {
            width
        } else {
            display_width(text)
        },
{
    let now = display_width(text);
    if now > width {
        lemma_rotation_keeps_width(text);
    } else if now < width {
        lemma_spaces_width((width - now) as nat);
        lemma_width_concat(text, spaces((width - now) as nat));
    }
}

/// Appends `count` spaces to `text`.
pub fn pad(text: &mut String, count: usize)
    ensures
        final(text)@ == old(text)@ + spaces(count as nat),
{
    let mut done: usize = 0;
    assert(text@ =~= old(text)@ + spaces(0));
    while done < count
        invariant
            done <= count,
            text@ == old(text)@ + spaces(done as nat),
        decreases count - done,
    {
        push_char(text, ' ');
        done += 1;
        assert(text@ =~= old(text)@ + spaces(done as nat));
    }
}

/// Cuts or fills measured cells to exactly `width` columns.
pub fn fit_window(cells: &Vec<(char, usize)>, width: usize) -> (out: String)
    ensures
        out@ == window(cells@, width as nat),
{
    let mut out = String::new();
    let mut used: usize = 0;
    let mut i: usize = 0;
    assert(cells@.skip(0) =~= cells@);
    assert(cells@.take(0) =~= Seq::<(char, usize)>::empty());
    assert(glyphs(cells@.take(0)) =~= Seq::<char>::empty());
    while i < cells.len()
        invariant_except_break
            i <= cells.len(),
            used <= width,
            used == total_width(cells@.take(i as int)),
            out@ == glyphs(cells@.take(i as int)),
            fitting(cells@, width as nat) == i + fitting(
                cells@.skip(i as int),
                (width - used) as nat,
            ),
        ensures
            i <= cells.len(),
            used <= width,
            used == total_width(cells@.take(i as int)),
            out@ == glyphs(cells@.take(i as int)),
            fitting(cells@, width as nat) == i,
        decreases cells.len() - i,
    {
        let cell: (char, usize) = cells[i];
        assert(cells@.skip(i as int)[0] == cell);
        if cell.1 > width - used {
            break ;
        }
        proof {
            assert(cells@.skip(i as int).drop_first() =~= cells@.skip(i + 1));
            assert(cells@.take(i + 1).drop_last() =~= cells@.take(i as int));
            assert(glyphs(cells@.take(i + 1)) =~= glyphs(cells@.take(i as int)).push(cell.0));
        }
        used += cell.1;
        push_char(&mut out, cell.0);
        i += 1;
    }
    pad(&mut out, width - used);
    out
}

/// Cuts or fills `text` to exactly `width` columns for printing. The text
/// itself is not changed.
pub fn make_visual_len(text: &str, width: usize) -> (out: String)
    ensures
        out@ == rendered(text@, width as nat),
{
    fit_window(&measure(text), width)
}

/// `text` with its first character moved to the end.
pub fn rotate_left(text: &str) -> (turned: String)
    ensures
        turned@ == rotated(text@),
{
    let n: usize = text.unicode_len();
    if n == 0 {
        String::new()
    } else {
        let first = text.get_char(0);
        let mut turned = String::from_str(text.substring_char(1, n));
        push_char(&mut turned, first);
        turned
    }
}

/// One scroll step on a text that is `now` columns wide, for a window of
/// `width` columns.
pub fn scroll_by(text: &mut String, now: usize, width: usize)
    ensures
        final(text)@ == scrolled_at(old(text)@, now as nat, width as nat),
{
    if now > width {
        *text = rotate_left(text.as_str());
    } else if now < width {
        pad(text, width - now);
    }
}

/// Advances the stored text by one scroll step for a window of `width`
/// columns.
pub fn scroll_step(text: &mut String, width: usize)
    ensures
        final(text)@ == scrolled(old(text)@, width as nat),
{
    let now: usize = visual_len(text.as_str());
    scroll_by(text, now, width);
}

} // verus!
