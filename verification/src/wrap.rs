//! The wrap model: where every character of the input buffer lands on the
//! terminal grid.
//!
//! A visual position is a pair `(line, col)` of cell coordinates. Scanning
//! the text character by character, a literal newline starts a new visual
//! line, and a character whose width would overflow the available width is
//! pushed to the start of a new visual line before being placed (wrap-before
//! policy). `wrap_pos` gives the position of the cursor when it sits before
//! character `i`; `wrap_render` gives the text with the wrap breaks made
//! explicit as newlines, which is exactly what the display paints.

use vstd::prelude::*;

use crate::widths::cell_width;

verus! {

/// One step of the wrap scan: the position after placing `c` from `pos`.
pub open spec fn wrap_step(pos: (nat, nat), c: char, width: nat) -> (nat, nat) {
    if c == '\n' {
        (pos.0 + 1, 0nat)
    } else if pos.1 + cell_width(c) > width {
        (pos.0 + 1, cell_width(c))
    } else {
        (pos.0, pos.1 + cell_width(c))
    }
}

/// Visual position of the cursor sitting before character `i`.
pub open spec fn wrap_pos(text: Seq<char>, width: nat, i: int) -> (nat, nat)
    decreases i,
{
    if i <= 0 {
        (0nat, 0nat)
    } else {
        wrap_step(wrap_pos(text, width, i - 1), text[i - 1], width)
    }
}

/// Visual line of the cursor sitting before character `i`.
pub open spec fn line_of(text: Seq<char>, width: nat, i: int) -> nat {
    wrap_pos(text, width, i).0
}

/// Visual column of the cursor sitting before character `i`.
pub open spec fn col_of(text: Seq<char>, width: nat, i: int) -> nat {
    wrap_pos(text, width, i).1
}

/// The first `i` characters of `text` as the display shows them: the text
/// itself, with a newline inserted wherever the wrap-before policy breaks a
/// visual line.
pub open spec fn wrap_render(text: Seq<char>, width: nat, i: int) -> Seq<char>
    decreases i,
{
    if i <= 0 {
        Seq::empty()
    } else {
        let prev = wrap_render(text, width, i - 1);
        let c = text[i - 1];
        if c == '\n' {
            prev.push('\n')
        } else if col_of(text, width, i - 1) + cell_width(c) > width {
            prev.push('\n').push(c)
        } else {
            prev.push(c)
        }
    }
}

/// Number of line breaks in a rendered sequence.
pub open spec fn newline_count(s: Seq<char>) -> nat
    decreases s.len(),
{
    if s.len() == 0 {
        0nat
    } else {
        newline_count(s.drop_last()) + if s.last() == '\n' {
            1nat
        } else {
            0nat
        }
    }
}

/// Accumulated cell width of the rendered sequence past its last line break.
pub open spec fn last_line_width(s: Seq<char>) -> nat
    decreases s.len(),
{
    if s.len() == 0 {
        0nat
    } else if s.last() == '\n' {
        0nat
    } else {
        last_line_width(s.drop_last()) + cell_width(s.last())
    }
}

/// Where a vertical cursor move lands on line `tl` when it aims at column
/// `tc`: the first cursor position on that line whose column has reached
/// `tc`, or, when no position on the line reaches it, the line's end.
pub open spec fn is_vertical_move_target(
    text: Seq<char>,
    width: nat,
    tl: nat,
    tc: nat,
    i: int,
) -> bool {
    &&& 0 <= i <= text.len()
    &&& line_of(text, width, i) == tl
    &&& (col_of(text, width, i) >= tc || i == text.len() || line_of(text, width, i + 1) > tl)
    &&& forall|j: int|
        0 <= j < i ==> !(line_of(text, width, j) == tl && col_of(text, width, j) >= tc)
}

/// The first cursor position on visual line `l`.
pub open spec fn is_line_start(text: Seq<char>, width: nat, l: nat, i: int) -> bool {
    &&& 0 <= i <= text.len()
    &&& line_of(text, width, i) == l
    &&& forall|j: int| 0 <= j < i ==> line_of(text, width, j) < l
}

/// The last cursor position on visual line `l`.
pub open spec fn is_line_end(text: Seq<char>, width: nat, l: nat, i: int) -> bool {
    &&& 0 <= i <= text.len()
    &&& line_of(text, width, i) == l
    &&& (i == text.len() || line_of(text, width, i + 1) > l)
}

/// Executable wrap step. The caller keeps `line` below `usize::MAX`, which
/// `lemma_line_le_index` grants for any line number read off a real buffer.
pub fn step_pos(line: usize, col: usize, c: char, width: usize) -> (r: (usize, usize))
    requires
        line < usize::MAX,
    ensures
        (r.0 as nat, r.1 as nat) == wrap_step((line as nat, col as nat), c, width as nat),
{
    if c == '\n' {
        (line + 1, 0)
    } else {
        let w = crate::widths::char_cell_width(c);
        let wraps = w > width || col > width - w;
        if wraps {
            (line + 1, w)
        } else {
            (line, col + w)
        }
    }
}

/// The line number never outgrows the character index: each character can
/// start at most one new visual line.
pub proof fn lemma_line_le_index(text: Seq<char>, width: nat, i: int)
    requires
        0 <= i,
    ensures
        line_of(text, width, i) <= i,
    decreases i,
{
    if i > 0 {
        lemma_line_le_index(text, width, i - 1);
    }
}

/// Scanning further never moves the cursor to an earlier visual line.
pub proof fn lemma_line_monotone(text: Seq<char>, width: nat, i: int, j: int)
    requires
        0 <= i <= j,
    ensures
        line_of(text, width, i) <= line_of(text, width, j),
    decreases j - i,
{
    if i < j {
        lemma_line_monotone(text, width, i, j - 1);
    }
}

/// Law: the cursor's computed visual position equals the position reached by
/// counting characters in the wrapped rendering up to the cursor — its line
/// is the number of line breaks rendered so far, and its column the
/// accumulated width past the last of them. This ties the cursor arithmetic
/// to the displayed text for every buffer, width and cursor position, and so
/// holds after every edit and every cursor move.
pub proof fn lemma_cursor_matches_render(text: Seq<char>, width: nat, i: int)
    requires
        0 <= i <= text.len(),
    ensures
        line_of(text, width, i) == newline_count(wrap_render(text, width, i)),
        col_of(text, width, i) == last_line_width(wrap_render(text, width, i)),
    decreases i,
{
    if i > 0 {
        lemma_cursor_matches_render(text, width, i - 1);
        let prev = wrap_render(text, width, i - 1);
        let c = text[i - 1];
        assert(wrap_pos(text, width, i) == wrap_step(wrap_pos(text, width, i - 1), c, width));
        if c == '\n' {
            assert(wrap_render(text, width, i) == prev.push('\n'));
            assert(prev.push('\n').last() == '\n');
            assert(prev.push('\n').drop_last() =~= prev);
            assert(newline_count(prev.push('\n')) == newline_count(prev) + 1);
            assert(last_line_width(prev.push('\n')) == 0);
        } else if col_of(text, width, i - 1) + cell_width(c) > width {
            assert(wrap_render(text, width, i) == prev.push('\n').push(c));
            assert(prev.push('\n').push(c).last() == c);
            assert(prev.push('\n').push(c).drop_last() =~= prev.push('\n'));
            assert(prev.push('\n').last() == '\n');
            assert(prev.push('\n').drop_last() =~= prev);
            assert(newline_count(prev.push('\n')) == newline_count(prev) + 1);
            assert(last_line_width(prev.push('\n')) == 0);
            assert(newline_count(prev.push('\n').push(c)) == newline_count(prev) + 1);
            assert(last_line_width(prev.push('\n').push(c)) == cell_width(c));
        } else {
            assert(wrap_render(text, width, i) == prev.push(c));
            assert(prev.push(c).last() == c);
            assert(prev.push(c).drop_last() =~= prev);
            assert(newline_count(prev.push(c)) == newline_count(prev));
            assert(last_line_width(prev.push(c)) == last_line_width(prev) + cell_width(c));
        }
    }
}

/// The rendering of a longer prefix of the text extends the rendering of a
/// shorter one: positions measured against a partial rendering stand
/// unchanged in the full one.
pub proof fn lemma_render_prefix(text: Seq<char>, width: nat, i: int, j: int)
    requires
        0 <= i <= j <= text.len(),
    ensures
        wrap_render(text, width, i).is_prefix_of(wrap_render(text, width, j)),
    decreases j - i,
{
    if i < j {
        lemma_render_prefix(text, width, i, j - 1);
    }
}

/// Within one visual line, the column never decreases as the scan advances.
pub proof fn lemma_col_monotone(text: Seq<char>, width: nat, i: int, j: int)
    requires
        0 <= i <= j,
        line_of(text, width, i) == line_of(text, width, j),
    ensures
        col_of(text, width, i) <= col_of(text, width, j),
    decreases j - i,
{
    if i < j {
        lemma_line_monotone(text, width, i, j - 1);
        lemma_line_monotone(text, width, j - 1, j);
        lemma_col_monotone(text, width, i, j - 1);
    }
}

/// Law: a vertical move never lands past the destination line's end and
/// never before its target column unless the line falls short of it — when
/// no position on the destination line reaches the target column, the move
/// clamps to the last position of that line.
pub proof fn lemma_vertical_move_clamps(
    text: Seq<char>,
    width: nat,
    tl: nat,
    tc: nat,
    i: int,
    j: int,
)
    requires
        is_vertical_move_target(text, width, tl, tc, i),
        0 <= j <= text.len(),
        line_of(text, width, j) == tl,
    ensures
        col_of(text, width, i) >= tc || j <= i,
{
    if col_of(text, width, i) < tc && j > i {
        lemma_line_monotone(text, width, i + 1, j);
    }
}

/// Law: moving up and then down from a mid-buffer position returns the
/// cursor to its visual line and column, whenever the line above is wide
/// enough to reach that column exactly.
pub proof fn lemma_up_then_down_round_trip(
    text: Seq<char>,
    width: nat,
    cursor: int,
    u: int,
    d: int,
)
    requires
        0 <= cursor <= text.len(),
        line_of(text, width, cursor) >= 1,
        exists|j: int|
            0 <= j <= text.len() && line_of(text, width, j) == line_of(text, width, cursor) - 1
                && col_of(text, width, j) == col_of(text, width, cursor),
        is_vertical_move_target(
            text,
            width,
            (line_of(text, width, cursor) - 1) as nat,
            col_of(text, width, cursor),
            u,
        ),
        is_vertical_move_target(
            text,
            width,
            line_of(text, width, u) + 1,
            col_of(text, width, u),
            d,
        ),
    ensures
        line_of(text, width, d) == line_of(text, width, cursor),
        col_of(text, width, d) == col_of(text, width, cursor),
{
    let l = line_of(text, width, cursor);
    let c = col_of(text, width, cursor);
    let tl = (l - 1) as nat;
    let j = choose|j: int|
        0 <= j <= text.len() && line_of(text, width, j) == tl && col_of(text, width, j) == c;
    // The up-move lands at column exactly c on the line above.
    assert(u <= j);
    if col_of(text, width, u) < c {
        // Then u is the end of line tl, yet j sits on the line with column c:
        // j <= u by the clamp, and the column between them is monotone.
        lemma_vertical_move_clamps(text, width, tl, c, u, j);
        lemma_col_monotone(text, width, j, u);
    }
    lemma_col_monotone(text, width, u, j);
    assert(col_of(text, width, u) == c);
    assert(line_of(text, width, u) == tl);
    // The down-move aims back at (l, c); the starting cursor witnesses that
    // line l reaches column c, so the move cannot clamp short of it.
    assert(d <= cursor);
    if col_of(text, width, d) < c {
        lemma_vertical_move_clamps(text, width, l, c, d, cursor);
        assert(cursor <= d);
        assert(d == cursor);
    }
    lemma_col_monotone(text, width, d, cursor);
    assert(col_of(text, width, d) == c);
}

/// Law: moving down and then up from a mid-buffer position returns the
/// cursor to its visual line and column, whenever the line below is wide
/// enough to reach that column exactly.
pub proof fn lemma_down_then_up_round_trip(
    text: Seq<char>,
    width: nat,
    cursor: int,
    d: int,
    u: int,
)
    requires
        0 <= cursor <= text.len(),
        line_of(text, width, cursor) < line_of(text, width, text.len() as int),
        exists|j: int|
            0 <= j <= text.len() && line_of(text, width, j) == line_of(text, width, cursor) + 1
                && col_of(text, width, j) == col_of(text, width, cursor),
        is_vertical_move_target(
            text,
            width,
            line_of(text, width, cursor) + 1,
            col_of(text, width, cursor),
            d,
        ),
        is_vertical_move_target(
            text,
            width,
            (line_of(text, width, d) - 1) as nat,
            col_of(text, width, d),
            u,
        ),
    ensures
        line_of(text, width, u) == line_of(text, width, cursor),
        col_of(text, width, u) == col_of(text, width, cursor),
{
    let l = line_of(text, width, cursor);
    let c = col_of(text, width, cursor);
    let j = choose|j: int|
        0 <= j <= text.len() && line_of(text, width, j) == l + 1 && col_of(text, width, j) == c;
    // The down-move lands at column exactly c on the line below.
    assert(d <= j);
    if col_of(text, width, d) < c {
        lemma_vertical_move_clamps(text, width, l + 1, c, d, j);
        lemma_col_monotone(text, width, j, d);
    }
    lemma_col_monotone(text, width, d, j);
    assert(col_of(text, width, d) == c);
    assert(line_of(text, width, d) == l + 1);
    // The up-move aims back at (l, c); the starting cursor witnesses that
    // line l reaches column c, so the move cannot clamp short of it.
    assert(u <= cursor);
    if col_of(text, width, u) < c {
        lemma_vertical_move_clamps(text, width, l, c, u, cursor);
        assert(cursor <= u);
        assert(u == cursor);
    }
    lemma_col_monotone(text, width, u, cursor);
    assert(col_of(text, width, u) == c);
}

} // verus!
