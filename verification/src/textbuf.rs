//! The multi-line input buffer.
//!
//! The buffer owns the text being composed and a cursor expressed as a
//! character index, always on a character boundary. Edits are total: deleting
//! at an edge is a no-op, never an error. The vertical movements and the
//! wrapped rendering all follow the one wrap model of [`crate::wrap`], so the
//! displayed text and the cursor arithmetic can never disagree.

use vstd::prelude::*;

use crate::strings::chars_to_string;
use crate::strings::str_to_chars;
use crate::wrap::col_of;
use crate::wrap::is_line_end;
use crate::wrap::is_line_start;
use crate::wrap::is_vertical_move_target;
use crate::wrap::lemma_line_le_index;
use crate::wrap::lemma_line_monotone;
use crate::wrap::line_of;
use crate::wrap::step_pos;
use crate::wrap::wrap_pos;
use crate::wrap::wrap_render;

verus! {

pub struct TextBuffer {
    chars: Vec<char>,
    cursor: usize,
}

/// Law: for any buffer, the position [`TextBuffer::cursor_line_col`]
/// computes equals the position reached by counting characters in the
/// rendering [`TextBuffer::render_wrapped`] produces, up to the cursor. The
/// buffer's edits keep the cursor inside the text, so this holds after every
/// insert, delete and move.
pub proof fn lemma_buffer_cursor_matches_render(tb: TextBuffer, width: nat)
    requires
        tb.wf(),
    ensures
        line_of(tb.text(), width, tb.cursor()) == crate::wrap::newline_count(
            wrap_render(tb.text(), width, tb.cursor()),
        ),
        col_of(tb.text(), width, tb.cursor()) == crate::wrap::last_line_width(
            wrap_render(tb.text(), width, tb.cursor()),
        ),
        wrap_render(tb.text(), width, tb.cursor()).is_prefix_of(
            wrap_render(tb.text(), width, tb.text().len() as int),
        ),
{
    crate::wrap::lemma_cursor_matches_render(tb.text(), width, tb.cursor());
    crate::wrap::lemma_render_prefix(tb.text(), width, tb.cursor(), tb.text().len() as int);
}

impl TextBuffer {
    /// The buffer's text as a sequence of characters.
    pub closed spec fn text(&self) -> Seq<char> {
        self.chars@
    }

    /// The cursor as a character index into the text.
    pub closed spec fn cursor(&self) -> int {
        self.cursor as int
    }

    /// The cursor always sits between two characters of the text.
    pub open spec fn wf(&self) -> bool {
        0 <= self.cursor() <= self.text().len()
    }

    /// A fresh, empty buffer.
    pub fn new() -> (tb: TextBuffer)
        ensures
            tb.wf(),
            tb.text() == Seq::<char>::empty(),
            tb.cursor() == 0,
    {
        TextBuffer { chars: Vec::new(), cursor: 0 }
    }

    /// Number of characters in the buffer.
    pub fn len(&self) -> (n: usize)
        ensures
            n == self.text().len(),
    {
        self.chars.len()
    }

    /// The cursor's character index.
    pub fn cursor_index(&self) -> (i: usize)
        ensures
            i == self.cursor(),
    {
        self.cursor
    }

    /// The buffer's text as a string.
    pub fn content_string(&self) -> (s: String)
        ensures
            s@ == self.text(),
    {
        chars_to_string(&self.chars)
    }

    /// The buffer's text as characters.
    pub fn content_chars(&self) -> (v: Vec<char>)
        ensures
            v@ == self.text(),
    {
        let mut v: Vec<char> = Vec::new();
        let n = self.chars.len();
        let mut i: usize = 0;
        while i < n
            invariant
                n == self.text().len(),
                i <= n,
                v@ == self.text().take(i as int),
            decreases n - i,
        {
            v.push(self.chars[i]);
            proof {
                assert(v@ =~= self.text().take(i + 1));
            }
            i = i + 1;
        }
        proof {
            assert(v@ =~= self.text());
        }
        v
    }

    /// Insert one character at the cursor; the cursor moves past it.
    pub fn insert(&mut self, c: char)
        requires
            old(self).wf(),
            old(self).text().len() < usize::MAX,
        ensures
            final(self).wf(),
            final(self).text() == old(self).text().insert(old(self).cursor(), c),
            final(self).cursor() == old(self).cursor() + 1,
    {
        self.chars.insert(self.cursor, c);
        self.cursor = self.cursor + 1;
    }

    /// Insert a run of characters at the cursor; the cursor moves past it.
    pub fn insert_text(&mut self, text: &Vec<char>)
        requires
            old(self).wf(),
            old(self).text().len() + text@.len() <= usize::MAX,
        ensures
            final(self).wf(),
            final(self).text() == old(self).text().take(old(self).cursor()) + text@
                + old(self).text().skip(old(self).cursor()),
            final(self).cursor() == old(self).cursor() + text@.len(),
    {
        let ghost pre = self.text();
        let ghost cur = self.cursor();
        let n = text.len();
        let mut i: usize = 0;
        proof {
            assert(self.text() =~= pre.take(cur) + text@.take(0) + pre.skip(cur));
        }
        while i < n
            invariant
                n == text@.len(),
                i <= n,
                pre.len() + n <= usize::MAX,
                0 <= cur <= pre.len(),
                self.cursor() == cur + i,
                self.text() == pre.take(cur) + text@.take(i as int) + pre.skip(cur),
                self.text().len() == pre.len() + i,
            decreases n - i,
        {
            self.chars.insert(self.cursor, text[i]);
            self.cursor = self.cursor + 1;
            proof {
                assert(self.text() =~= pre.take(cur) + text@.take(i + 1) + pre.skip(cur));
            }
            i = i + 1;
        }
        proof {
            assert(text@.take(n as int) =~= text@);
        }
    }

    /// Delete the character before the cursor; at the start this does
    /// nothing.
    pub fn delete_before_cursor(&mut self)
        requires
            old(self).wf(),
        ensures
            final(self).wf(),
            old(self).cursor() == 0 ==> *final(self) == *old(self),
            old(self).cursor() >= 1 ==> final(self).text() == old(self).text().remove(
                old(self).cursor() - 1,
            ) && final(self).cursor() == old(self).cursor() - 1,
    {
        if self.cursor > 0 {
            self.cursor = self.cursor - 1;
            self.chars.remove(self.cursor);
        }
    }

    /// Delete the character under the cursor; at the end this does nothing.
    pub fn delete_at_cursor(&mut self)
        requires
            old(self).wf(),
        ensures
            final(self).wf(),
            old(self).cursor() == old(self).text().len() ==> *final(self) == *old(self),
            old(self).cursor() < old(self).text().len() ==> final(self).text() == old(self).text().remove(old(self).cursor()) && final(self).cursor() == old(self).cursor(),
    {
        if self.cursor < self.chars.len() {
            self.chars.remove(self.cursor);
        }
    }

    /// Move the cursor one character to the left, stopping at the start.
    pub fn move_left(&mut self)
        requires
            old(self).wf(),
        ensures
            final(self).wf(),
            final(self).text() == old(self).text(),
            final(self).cursor() == if old(self).cursor() == 0 {
                0int
            } else {
                old(self).cursor() - 1
            },
    {
        if self.cursor > 0 {
            self.cursor = self.cursor - 1;
        }
    }

    /// Move the cursor one character to the right, stopping at the end.
    pub fn move_right(&mut self)
        requires
            old(self).wf(),
        ensures
            final(self).wf(),
            final(self).text() == old(self).text(),
            final(self).cursor() == if old(self).cursor() == old(self).text().len() {
                old(self).cursor()
            } else {
                old(self).cursor() + 1
            },
    {
        if self.cursor < self.chars.len() {
            self.cursor = self.cursor + 1;
        }
    }

    /// Empty the buffer.
    pub fn clear(&mut self)
        ensures
            final(self).wf(),
            final(self).text() == Seq::<char>::empty(),
            final(self).cursor() == 0,
    {
        self.chars.clear();
        self.cursor = 0;
    }

    /// Replace the whole text, placing the cursor at its end.
    pub fn load_text(&mut self, s: &str)
        ensures
            final(self).wf(),
            final(self).text() == s@,
            final(self).cursor() == s@.len(),
    {
        let v = str_to_chars(s);
        let n = v.len();
        self.chars = v;
        self.cursor = n;
    }

    /// Visual line and column of the cursor under the given width; a width
    /// of zero yields the origin, as no layout exists for it.
    pub fn cursor_line_col(&self, width: usize) -> (r: (usize, usize))
        requires
            self.wf(),
        ensures
            width == 0 ==> r.0 == 0 && r.1 == 0,
            width >= 1 ==> (r.0 as nat, r.1 as nat) == wrap_pos(
                self.text(),
                width as nat,
                self.cursor(),
            ),
    {
        if width == 0 {
            return (0, 0);
        }
        let ghost t = self.text();
        let ghost w = width as nat;
        let mut line: usize = 0;
        let mut col: usize = 0;
        let mut i: usize = 0;
        while i < self.cursor
            invariant
                self.wf(),
                t == self.text(),
                w == width as nat,
                i <= self.cursor(),
                (line as nat, col as nat) == wrap_pos(t, w, i as int),
            decreases self.cursor() - i,
        {
            proof {
                lemma_line_le_index(t, w, i as int);
            }
            let r = step_pos(line, col, self.chars[i], width);
            line = r.0;
            col = r.1;
            i = i + 1;
        }
        (line, col)
    }

    /// Visual line index of the position past the last character: the index
    /// of the buffer's last visual line.
    fn last_line_index(&self, width: usize) -> (r: usize)
        requires
            self.wf(),
            width >= 1,
        ensures
            r as nat == line_of(self.text(), width as nat, self.text().len() as int),
    {
        let ghost t = self.text();
        let ghost w = width as nat;
        let n = self.chars.len();
        let mut line: usize = 0;
        let mut col: usize = 0;
        let mut i: usize = 0;
        while i < n
            invariant
                t == self.text(),
                w == width as nat,
                n == t.len(),
                i <= n,
                (line as nat, col as nat) == wrap_pos(t, w, i as int),
            decreases n - i,
        {
            proof {
                lemma_line_le_index(t, w, i as int);
            }
            let r = step_pos(line, col, self.chars[i], width);
            line = r.0;
            col = r.1;
            i = i + 1;
        }
        line
    }

    /// Number of visual lines the buffer occupies under the given width: one
    /// more than the last line's index, and one for a width of zero.
    pub fn total_lines(&self, width: usize) -> (r: usize)
        requires
            self.wf(),
            self.text().len() < usize::MAX,
        ensures
            width == 0 ==> r == 1,
            width >= 1 ==> r as nat == line_of(
                self.text(),
                width as nat,
                self.text().len() as int,
            ) + 1,
    {
        if width == 0 {
            return 1;
        }
        proof {
            lemma_line_le_index(self.text(), width as nat, self.text().len() as int);
        }
        let last = self.last_line_index(width);
        last + 1
    }

    /// Walk to the landing position on line `tl` for a vertical move aiming
    /// at column `tc`.
    fn seek_vertical_target(&self, width: usize, tl: usize, tc: usize) -> (r: usize)
        requires
            self.wf(),
            width >= 1,
            tl as nat <= line_of(self.text(), width as nat, self.text().len() as int),
        ensures
            is_vertical_move_target(self.text(), width as nat, tl as nat, tc as nat, r as int),
    {
        let ghost t = self.text();
        let ghost w = width as nat;
        let n = self.chars.len();
        let mut line: usize = 0;
        let mut col: usize = 0;
        let mut i: usize = 0;
        while line < tl
            invariant
                t == self.text(),
                w == width as nat,
                n == t.len(),
                i <= n,
                (line as nat, col as nat) == wrap_pos(t, w, i as int),
                line <= tl,
                tl as nat <= line_of(t, w, n as int),
                forall|j: int| 0 <= j < i ==> line_of(t, w, j) < tl as nat,
            decreases n - i,
        {
            proof {
                lemma_line_le_index(t, w, i as int);
                assert(i < n);
            }
            let r = step_pos(line, col, self.chars[i], width);
            line = r.0;
            col = r.1;
            i = i + 1;
        }
        loop
            invariant
                t == self.text(),
                w == width as nat,
                n == t.len(),
                i <= n,
                (line as nat, col as nat) == wrap_pos(t, w, i as int),
                line as nat == tl as nat,
                forall|j: int|
                    0 <= j < i ==> !(line_of(t, w, j) == tl as nat && col_of(t, w, j)
                        >= tc as nat),
            decreases n - i,
        {
            if col >= tc {
                return i;
            }
            if i == n {
                return i;
            }
            proof {
                lemma_line_le_index(t, w, i as int);
            }
            let r = step_pos(line, col, self.chars[i], width);
            if r.0 > tl {
                return i;
            }
            line = r.0;
            col = r.1;
            i = i + 1;
        }
    }

    /// Walk to the first cursor position on line `tl`.
    fn seek_line_start(&self, width: usize, tl: usize) -> (r: usize)
        requires
            self.wf(),
            width >= 1,
            tl as nat <= line_of(self.text(), width as nat, self.text().len() as int),
        ensures
            is_line_start(self.text(), width as nat, tl as nat, r as int),
    {
        let ghost t = self.text();
        let ghost w = width as nat;
        let n = self.chars.len();
        let mut line: usize = 0;
        let mut col: usize = 0;
        let mut i: usize = 0;
        while line < tl
            invariant
                t == self.text(),
                w == width as nat,
                n == t.len(),
                i <= n,
                (line as nat, col as nat) == wrap_pos(t, w, i as int),
                line <= tl,
                tl as nat <= line_of(t, w, n as int),
                forall|j: int| 0 <= j < i ==> line_of(t, w, j) < tl as nat,
            decreases n - i,
        {
            proof {
                lemma_line_le_index(t, w, i as int);
                assert(i < n);
            }
            let r = step_pos(line, col, self.chars[i], width);
            line = r.0;
            col = r.1;
            i = i + 1;
        }
        i
    }

    /// Walk to the last cursor position on line `tl`.
    fn seek_line_end(&self, width: usize, tl: usize) -> (r: usize)
        requires
            self.wf(),
            width >= 1,
            tl as nat <= line_of(self.text(), width as nat, self.text().len() as int),
        ensures
            is_line_end(self.text(), width as nat, tl as nat, r as int),
    {
        let ghost t = self.text();
        let ghost w = width as nat;
        let n = self.chars.len();
        let mut line: usize = 0;
        let mut col: usize = 0;
        let mut i: usize = 0;
        while line < tl
            invariant
                t == self.text(),
                w == width as nat,
                n == t.len(),
                i <= n,
                (line as nat, col as nat) == wrap_pos(t, w, i as int),
                line <= tl,
                tl as nat <= line_of(t, w, n as int),
            decreases n - i,
        {
            proof {
                lemma_line_le_index(t, w, i as int);
                assert(i < n);
            }
            let r = step_pos(line, col, self.chars[i], width);
            line = r.0;
            col = r.1;
            i = i + 1;
        }
        loop
            invariant
                t == self.text(),
                w == width as nat,
                n == t.len(),
                i <= n,
                (line as nat, col as nat) == wrap_pos(t, w, i as int),
                line as nat == tl as nat,
            decreases n - i,
        {
            if i == n {
                return i;
            }
            proof {
                lemma_line_le_index(t, w, i as int);
            }
            let r = step_pos(line, col, self.chars[i], width);
            if r.0 > tl {
                return i;
            }
            line = r.0;
            col = r.1;
            i = i + 1;
        }
    }

    /// Move the cursor one visual line up, keeping the visual column where
    /// the line above permits and clamping to its end where it does not. On
    /// the first line, or under a width of zero, this does nothing.
    pub fn move_up(&mut self, width: usize)
        requires
            old(self).wf(),
        ensures
            final(self).wf(),
            final(self).text() == old(self).text(),
            width == 0 || line_of(old(self).text(), width as nat, old(self).cursor()) == 0
                ==> final(self).cursor() == old(self).cursor(),
            width >= 1 && line_of(old(self).text(), width as nat, old(self).cursor()) >= 1
                ==> is_vertical_move_target(
                old(self).text(),
                width as nat,
                (line_of(old(self).text(), width as nat, old(self).cursor()) - 1) as nat,
                col_of(old(self).text(), width as nat, old(self).cursor()),
                final(self).cursor(),
            ),
    {
        if width == 0 {
            return ;
        }
        let r = self.cursor_line_col(width);
        if r.0 == 0 {
            return ;
        }
        proof {
            lemma_line_monotone(
                self.text(),
                width as nat,
                self.cursor(),
                self.text().len() as int,
            );
        }
        let dest = self.seek_vertical_target(width, r.0 - 1, r.1);
        self.cursor = dest;
    }

    /// Move the cursor one visual line down, keeping the visual column where
    /// the line below permits and clamping to its end where it does not. On
    /// the last line, or under a width of zero, this does nothing.
    pub fn move_down(&mut self, width: usize)
        requires
            old(self).wf(),
        ensures
            final(self).wf(),
            final(self).text() == old(self).text(),
            width == 0 || line_of(old(self).text(), width as nat, old(self).cursor()) == line_of(
                old(self).text(),
                width as nat,
                old(self).text().len() as int,
            ) ==> final(self).cursor() == old(self).cursor(),
            width >= 1 && line_of(old(self).text(), width as nat, old(self).cursor()) < line_of(
                old(self).text(),
                width as nat,
                old(self).text().len() as int,
            ) ==> is_vertical_move_target(
                old(self).text(),
                width as nat,
                line_of(old(self).text(), width as nat, old(self).cursor()) + 1,
                col_of(old(self).text(), width as nat, old(self).cursor()),
                final(self).cursor(),
            ),
    {
        if width == 0 {
            return ;
        }
        let r = self.cursor_line_col(width);
        let last = self.last_line_index(width);
        proof {
            lemma_line_monotone(
                self.text(),
                width as nat,
                self.cursor(),
                self.text().len() as int,
            );
        }
        if r.0 >= last {
            return ;
        }
        let dest = self.seek_vertical_target(width, r.0 + 1, r.1);
        self.cursor = dest;
    }

    /// Move the cursor to the start of its visual line; a line induced
    /// purely by wrapping has a well-defined start too.
    pub fn move_to_line_start(&mut self, width: usize)
        requires
            old(self).wf(),
        ensures
            final(self).wf(),
            final(self).text() == old(self).text(),
            width == 0 ==> final(self).cursor() == old(self).cursor(),
            width >= 1 ==> is_line_start(
                old(self).text(),
                width as nat,
                line_of(old(self).text(), width as nat, old(self).cursor()),
                final(self).cursor(),
            ),
    {
        if width == 0 {
            return ;
        }
        let r = self.cursor_line_col(width);
        proof {
            lemma_line_monotone(
                self.text(),
                width as nat,
                self.cursor(),
                self.text().len() as int,
            );
        }
        let dest = self.seek_line_start(width, r.0);
        self.cursor = dest;
    }

    /// Move the cursor to the end of its visual line; a line induced purely
    /// by wrapping has a well-defined end too.
    pub fn move_to_line_end(&mut self, width: usize)
        requires
            old(self).wf(),
        ensures
            final(self).wf(),
            final(self).text() == old(self).text(),
            width == 0 ==> final(self).cursor() == old(self).cursor(),
            width >= 1 ==> is_line_end(
                old(self).text(),
                width as nat,
                line_of(old(self).text(), width as nat, old(self).cursor()),
                final(self).cursor(),
            ),
    {
        if width == 0 {
            return ;
        }
        let r = self.cursor_line_col(width);
        proof {
            lemma_line_monotone(
                self.text(),
                width as nat,
                self.cursor(),
                self.text().len() as int,
            );
        }
        let dest = self.seek_line_end(width, r.0);
        self.cursor = dest;
    }

    /// The buffer's text wrapped for display: exactly the text whose visual
    /// line boundaries the cursor arithmetic computes. Under a width of zero
    /// the text is returned unwrapped.
    pub fn render_wrapped(&self, width: usize) -> (s: String)
        requires
            self.wf(),
        ensures
            width == 0 ==> s@ == self.text(),
            width >= 1 ==> s@ == wrap_render(self.text(), width as nat, self.text().len() as int),
    {
        if width == 0 {
            return chars_to_string(&self.chars);
        }
        let ghost t = self.text();
        let ghost w = width as nat;
        let n = self.chars.len();
        let mut out: Vec<char> = Vec::new();
        let mut line: usize = 0;
        let mut col: usize = 0;
        let mut i: usize = 0;
        while i < n
            invariant
                t == self.text(),
                w == width as nat,
                n == t.len(),
                i <= n,
                (line as nat, col as nat) == wrap_pos(t, w, i as int),
                out@ == wrap_render(t, w, i as int),
            decreases n - i,
        {
            proof {
                lemma_line_le_index(t, w, i as int);
            }
            let c = self.chars[i];
            if c == '\n' {
                out.push('\n');
            } else {
                let cw = crate::widths::char_cell_width(c);
                if cw > width || col > width - cw {
                    out.push('\n');
                    out.push(c);
                } else {
                    out.push(c);
                }
            }
            let r = step_pos(line, col, c, width);
            line = r.0;
            col = r.1;
            i = i + 1;
        }
        chars_to_string(&out)
    }
}

} // verus!
