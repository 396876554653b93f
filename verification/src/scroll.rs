//! Viewport scrolling for the two panes.
//!
//! The chat pane keeps a "lines scrolled back from the bottom" counter and
//! an auto-scroll flag: any manual scroll away from the bottom disables
//! auto-scroll, and reaching the bottom re-enables it, so that while
//! auto-scroll is on the rendered offset always shows the newest line. The
//! input pane keeps the offset of its first visible line and adjusts it
//! minimally to keep the cursor in view.

use vstd::prelude::*;

verus! {

/// How many lines a page scroll moves.
pub const PAGE_SCROLL_LINES: u16 = 10;

/// The effectively unbounded back-offset that jump-to-top sets.
pub const JUMP_TO_TOP_LINES: u16 = 10000;

/// Rendered offset of the chat pane: the newest lines fill the pane, pushed
/// up by whatever has been scrolled back, and never negative.
pub open spec fn chat_offset_spec(total: int, visible: int, back: int) -> int {
    if total - visible - back >= 0 {
        total - visible - back
    } else {
        0
    }
}

pub struct ViewportScroller {
    /// Lines scrolled back from the bottom of the chat pane.
    pub scrolled_back: u16,
    /// Whether the chat pane tracks its newest line.
    pub auto_scroll: bool,
    /// First visible visual line of the input pane.
    pub input_scroll: usize,
}

impl ViewportScroller {
    /// While the pane tracks its newest line, nothing is scrolled back.
    pub open spec fn wf(&self) -> bool {
        self.auto_scroll ==> self.scrolled_back == 0
    }

    /// A scroller at the bottom of an empty session.
    pub fn new() -> (s: ViewportScroller)
        ensures
            s.wf(),
            s.scrolled_back == 0,
            s.auto_scroll,
            s.input_scroll == 0,
    {
        ViewportScroller { scrolled_back: 0, auto_scroll: true, input_scroll: 0 }
    }

    /// Return the chat pane to the bottom and resume tracking.
    pub fn scroll_to_bottom(&mut self)
        ensures
            final(self).wf(),
            final(self).scrolled_back == 0,
            final(self).auto_scroll,
            final(self).input_scroll == old(self).input_scroll,
    {
        self.scrolled_back = 0;
        self.auto_scroll = true;
    }

    /// Scroll the chat pane back one line, stopping tracking.
    pub fn scroll_up(&mut self)
        ensures
            final(self).wf(),
            !final(self).auto_scroll,
            final(self).scrolled_back == if old(self).scrolled_back == u16::MAX {
                u16::MAX as int
            } else {
                old(self).scrolled_back + 1
            },
            final(self).input_scroll == old(self).input_scroll,
    {
        self.auto_scroll = false;
        if self.scrolled_back < u16::MAX {
            self.scrolled_back = self.scrolled_back + 1;
        }
    }

    /// Scroll the chat pane one line toward the bottom, resuming tracking
    /// when it gets there.
    pub fn scroll_down(&mut self)
        requires
            old(self).wf(),
        ensures
            final(self).wf(),
            final(self).scrolled_back == if old(self).scrolled_back > 0 {
                old(self).scrolled_back - 1
            } else {
                0
            },
            final(self).auto_scroll == (final(self).scrolled_back == 0),
            final(self).input_scroll == old(self).input_scroll,
    {
        if self.scrolled_back > 0 {
            self.scrolled_back = self.scrolled_back - 1;
        }
        if self.scrolled_back == 0 {
            self.auto_scroll = true;
        }
    }

    /// Scroll the chat pane back a page, stopping tracking.
    pub fn page_up(&mut self)
        ensures
            final(self).wf(),
            !final(self).auto_scroll,
            final(self).scrolled_back == if old(self).scrolled_back + PAGE_SCROLL_LINES
                <= u16::MAX {
                old(self).scrolled_back + PAGE_SCROLL_LINES
            } else {
                u16::MAX as int
            },
            final(self).input_scroll == old(self).input_scroll,
    {
        self.auto_scroll = false;
        if self.scrolled_back <= u16::MAX - PAGE_SCROLL_LINES {
            self.scrolled_back = self.scrolled_back + PAGE_SCROLL_LINES;
        } else {
            self.scrolled_back = u16::MAX;
        }
    }

    /// Scroll the chat pane a page toward the bottom; from within the last
    /// page this returns to the bottom and resumes tracking.
    pub fn page_down(&mut self)
        requires
            old(self).wf(),
        ensures
            final(self).wf(),
            final(self).scrolled_back == if old(self).scrolled_back > PAGE_SCROLL_LINES {
                old(self).scrolled_back - PAGE_SCROLL_LINES
            } else {
                0
            },
            old(self).scrolled_back > PAGE_SCROLL_LINES ==> final(self).auto_scroll == old(self).auto_scroll,
            old(self).scrolled_back <= PAGE_SCROLL_LINES ==> final(self).auto_scroll,
            final(self).input_scroll == old(self).input_scroll,
    {
        if self.scrolled_back > PAGE_SCROLL_LINES {
            self.scrolled_back = self.scrolled_back - PAGE_SCROLL_LINES;
        } else {
            self.scroll_to_bottom();
        }
    }

    /// Scroll the chat pane to its top: an effectively unbounded back-offset
    /// that the rendered offset clamps to the first line.
    pub fn jump_to_top(&mut self)
        ensures
            final(self).wf(),
            !final(self).auto_scroll,
            final(self).scrolled_back == JUMP_TO_TOP_LINES,
            final(self).input_scroll == old(self).input_scroll,
    {
        self.auto_scroll = false;
        self.scrolled_back = JUMP_TO_TOP_LINES;
    }

    /// Rendered offset of the chat pane for the given pane geometry.
    pub fn chat_offset(&self, total_lines: usize, visible_lines: usize) -> (r: usize)
        requires
            self.wf(),
        ensures
            r == chat_offset_spec(total_lines as int, visible_lines as int, self.scrolled_back as int),
    {
        let max_scroll = if total_lines > visible_lines {
            total_lines - visible_lines
        } else {
            0
        };
        if self.auto_scroll {
            max_scroll
        } else {
            let back = self.scrolled_back as usize;
            if max_scroll > back {
                max_scroll - back
            } else {
                0
            }
        }
    }

    /// Keep the input-pane cursor visible, adjusting the offset minimally:
    /// up to the cursor's line when it lies above the window, down to put it
    /// on the last row when it lies below, and not at all otherwise.
    pub fn update_input_scroll(&mut self, cursor_line: usize, visible_lines: usize)
        ensures
            final(self).scrolled_back == old(self).scrolled_back,
            final(self).auto_scroll == old(self).auto_scroll,
            visible_lines == 0 ==> final(self).input_scroll == old(self).input_scroll,
            visible_lines >= 1 ==> final(self).input_scroll == (if cursor_line
                < old(self).input_scroll {
                cursor_line as int
            } else if cursor_line >= old(self).input_scroll + visible_lines {
                cursor_line - visible_lines + 1
            } else {
                old(self).input_scroll as int
            }),
            visible_lines >= 1 ==> final(self).input_scroll <= cursor_line < final(self).input_scroll + visible_lines,
    {
        if visible_lines == 0 {
            return ;
        }
        if cursor_line < self.input_scroll {
            self.input_scroll = cursor_line;
        } else if cursor_line - self.input_scroll >= visible_lines {
            self.input_scroll = cursor_line - visible_lines + 1;
        }
    }

    /// Return the input pane to its first line.
    pub fn reset_input_scroll(&mut self)
        ensures
            final(self).scrolled_back == old(self).scrolled_back,
            final(self).auto_scroll == old(self).auto_scroll,
            final(self).input_scroll == 0,
    {
        self.input_scroll = 0;
    }
}

/// Law: while auto-scroll is on, the computed chat offset makes the newest
/// line the last visible one — it lies in the rendered window, on its final
/// row whenever a full pane of lines exists.
pub proof fn lemma_auto_scroll_shows_newest(s: ViewportScroller, total: int, visible: int)
    requires
        s.wf(),
        s.auto_scroll,
        1 <= visible,
        1 <= total,
    ensures
        ({
            let off = chat_offset_spec(total, visible, s.scrolled_back as int);
            off <= total - 1 < off + visible
        }),
{
}

} // verus!
