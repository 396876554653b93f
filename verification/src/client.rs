//! The client state and its transitions.
//!
//! `App` gathers the components — input buffer, chat log, viewport
//! scroller, command history, session controller — behind one state value.
//! Every transition the key dispatcher or the surrounding binary can take is
//! a method here, and each method's effect is a named relation between the
//! state before and after, so the dispatcher's contract can speak of whole
//! transitions.

use vstd::prelude::*;
use vstd::string::StringExecFns;

use crate::chatlog::ChatLog;
use crate::chatlog::Message;
use crate::chatlog::RemoteMessage;
use crate::chatlog::Role;
use crate::chatlog::ingest_kept;
use crate::chatlog::ingest_watermark;
use crate::chatlog::message_keys;
use crate::history::CommandHistory;
use crate::history::HistoryMove;
use crate::scroll::ViewportScroller;
use crate::session::ConnectionStatus;
use crate::session::RequestLifecycle;
use crate::session::SessionController;
use crate::strings::chars_to_string;
use crate::strings::str_to_chars;
use crate::strings::trim_chars;
use crate::strings::trimmed;
use crate::textbuf::TextBuffer;
use crate::time::format_timestamp;
use crate::time::now_ms;
use crate::wrap::col_of;
use crate::wrap::is_line_end;
use crate::wrap::is_line_start;
use crate::wrap::is_vertical_move_target;
use crate::wrap::line_of;
use crate::wrap::wrap_pos;
use crate::wrap::wrap_render;

verus! {

/// Which pane has the keyboard.
#[derive(Clone, Copy, PartialEq, Eq, Structural, Debug)]
pub enum Focus {
    Input,
    Chat,
    Help,
}

/// The highest timestamp any message of the log carries, or zero where none
/// carries one.
pub open spec fn max_ts(log: Seq<Message>) -> u64
    decreases log.len(),
{
    if log.len() == 0 {
        0u64
    } else {
        let rest = max_ts(log.drop_last());
        match log.last().created_at_ms {
            Some(t) => if t > rest {
                t
            } else {
                rest
            },
            None => rest,
        }
    }
}

pub struct App {
    pub buffer: TextBuffer,
    pub log: ChatLog,
    pub scroller: ViewportScroller,
    pub history: CommandHistory,
    pub session: SessionController,
    pub focus: Focus,
    pub server_url: String,
    pub connection_status: ConnectionStatus,
    pub last_error: Option<String>,
    pub history_enabled: bool,
}

/// Toggling help: help opens from either pane and closes back to the input
/// pane; nothing else moves.
pub open spec fn help_toggle_rel(pre: App, post: App) -> bool {
    post == App {
        focus: if pre.focus is Help {
            Focus::Input
        } else {
            Focus::Help
        },
        ..pre
    }
}

/// Toggling focus between the input and chat panes; help falls back to the
/// input pane.
pub open spec fn focus_toggle_rel(pre: App, post: App) -> bool {
    post == App {
        focus: match pre.focus {
            Focus::Input => Focus::Chat,
            Focus::Chat => Focus::Input,
            Focus::Help => Focus::Input,
        },
        ..pre
    }
}

/// Only the scroller moved.
pub open spec fn scroller_only(pre: App, post: App) -> bool {
    post == App { scroller: post.scroller, ..pre }
}

/// Only the buffer moved, and only its cursor.
pub open spec fn cursor_only(pre: App, post: App) -> bool {
    &&& post == App { buffer: post.buffer, ..pre }
    &&& post.buffer.text() == pre.buffer.text()
    &&& post.buffer.wf()
}

/// A vertical cursor move by one line: up when `up`, down otherwise, under
/// the given width. Off the first or last line respectively, or under a
/// width of zero, the cursor stays.
pub open spec fn cursor_move_rel(pre: App, post: App, width: nat, up: bool) -> bool {
    let t = pre.buffer.text();
    let cur = pre.buffer.cursor();
    let l = line_of(t, width, cur);
    &&& cursor_only(pre, post)
    &&& if width == 0 {
        post.buffer.cursor() == cur
    } else if up {
        if l == 0 {
            post.buffer.cursor() == cur
        } else {
            is_vertical_move_target(t, width, (l - 1) as nat, col_of(t, width, cur), post.buffer.cursor())
        }
    } else {
        if l == line_of(t, width, t.len() as int) {
            post.buffer.cursor() == cur
        } else {
            is_vertical_move_target(t, width, l + 1, col_of(t, width, cur), post.buffer.cursor())
        }
    }
}

/// A horizontal cursor move by one character, stopping at the edges.
pub open spec fn cursor_step_rel(pre: App, post: App, left: bool) -> bool {
    let cur = pre.buffer.cursor();
    &&& cursor_only(pre, post)
    &&& post.buffer.cursor() == if left {
        if cur == 0 {
            0int
        } else {
            cur - 1
        }
    } else {
        if cur == pre.buffer.text().len() {
            cur
        } else {
            cur + 1
        }
    }
}

/// A move to the start or end of the cursor's visual line.
pub open spec fn line_edge_rel(pre: App, post: App, width: nat, start: bool) -> bool {
    let t = pre.buffer.text();
    let l = line_of(t, width, pre.buffer.cursor());
    &&& cursor_only(pre, post)
    &&& if width == 0 {
        post.buffer.cursor() == pre.buffer.cursor()
    } else if start {
        is_line_start(t, width, l, post.buffer.cursor())
    } else {
        is_line_end(t, width, l, post.buffer.cursor())
    }
}

/// An edit: only the buffer and the history's active index may move, and
/// navigation ends.
pub open spec fn edit_frame(pre: App, post: App) -> bool {
    &&& post == App { buffer: post.buffer, history: post.history, ..pre }
    &&& post.history.entries@ == pre.history.entries@
    &&& post.buffer.wf()
}

/// Inserting one character at the cursor.
pub open spec fn insert_rel(pre: App, post: App, c: char) -> bool {
    &&& edit_frame(pre, post)
    &&& post.history.index is None
    &&& post.buffer.text() == pre.buffer.text().insert(pre.buffer.cursor(), c)
    &&& post.buffer.cursor() == pre.buffer.cursor() + 1
}

/// Deleting the character before the cursor; at the start nothing happens.
pub open spec fn backspace_rel(pre: App, post: App) -> bool {
    &&& edit_frame(pre, post)
    &&& if pre.buffer.cursor() == 0 {
        post == pre
    } else {
        &&& post.history.index is None
        &&& post.buffer.text() == pre.buffer.text().remove(pre.buffer.cursor() - 1)
        &&& post.buffer.cursor() == pre.buffer.cursor() - 1
    }
}

/// Deleting the character under the cursor; at the end nothing happens.
pub open spec fn delete_rel(pre: App, post: App) -> bool {
    &&& edit_frame(pre, post)
    &&& if pre.buffer.cursor() == pre.buffer.text().len() {
        post == pre
    } else {
        &&& post.history.index is None
        &&& post.buffer.text() == pre.buffer.text().remove(pre.buffer.cursor())
        &&& post.buffer.cursor() == pre.buffer.cursor()
    }
}

/// Splicing pasted text in at the cursor.
pub open spec fn paste_rel(pre: App, post: App, text: Seq<char>) -> bool {
    &&& post == App { buffer: post.buffer, ..pre }
    &&& post.buffer.wf()
    &&& post.buffer.text() == pre.buffer.text().take(pre.buffer.cursor()) + text
        + pre.buffer.text().skip(pre.buffer.cursor())
    &&& post.buffer.cursor() == pre.buffer.cursor() + text.len()
}

/// Stepping the command history toward the oldest entry: the stepped-to
/// entry fills the buffer with the cursor at its end; an empty history
/// leaves everything alone.
pub open spec fn history_up_rel(pre: App, post: App) -> bool {
    &&& post == App { buffer: post.buffer, history: post.history, ..pre }
    &&& post.history.entries@ == pre.history.entries@
    &&& post.buffer.wf()
    &&& if pre.history.entries@.len() == 0 {
        post == pre
    } else {
        let idx = match pre.history.index {
            None => pre.history.entries@.len() - 1,
            Some(i) => if i == 0 {
                0int
            } else {
                i - 1
            },
        };
        &&& post.history.index == Some(idx as usize)
        &&& post.buffer.text() == pre.history.entries@[idx]@
        &&& post.buffer.cursor() == post.buffer.text().len()
    }
}

/// Stepping the command history toward the newest entry: past it, the index
/// clears and the buffer empties; without an active index nothing happens.
pub open spec fn history_down_rel(pre: App, post: App) -> bool {
    &&& post == App { buffer: post.buffer, history: post.history, ..pre }
    &&& post.history.entries@ == pre.history.entries@
    &&& post.buffer.wf()
    &&& match pre.history.index {
        None => post == pre,
        Some(i) => if i + 1 >= pre.history.entries@.len() {
            &&& post.history.index is None
            &&& post.buffer.text() == Seq::<char>::empty()
            &&& post.buffer.cursor() == 0
        } else {
            &&& post.history.index == Some((i + 1) as usize)
            &&& post.buffer.text() == pre.history.entries@[i + 1]@
            &&& post.buffer.cursor() == post.buffer.text().len()
        },
    }
}

/// Whether a submission would be accepted: only when idle, and only of text
/// that does not trim to empty.
pub open spec fn submit_accepts(pre: App) -> bool {
    pre.session.lifecycle is Idle && trimmed(pre.buffer.text()).len() >= 1
}

/// An accepted submission: the trimmed text joins the command history and
/// the log as a user message, the buffer and its scroll clear, the chat pane
/// returns to the bottom, and the lifecycle moves to sending.
pub open spec fn submit_accept_rel(pre: App, post: App) -> bool {
    let tr = trimmed(pre.buffer.text());
    &&& post == App {
        buffer: post.buffer,
        log: post.log,
        scroller: post.scroller,
        history: post.history,
        session: post.session,
        connection_status: ConnectionStatus::Sending,
        last_error: None,
        ..pre
    }
    &&& post.buffer.wf()
    &&& post.buffer.text() == Seq::<char>::empty()
    &&& post.buffer.cursor() == 0
    &&& post.history.entries@.len() == pre.history.entries@.len() + 1
    &&& forall|i: int|
        0 <= i < pre.history.entries@.len() ==> post.history.entries@[i]
            == pre.history.entries@[i]
    &&& post.history.entries@.last()@ == tr
    &&& post.history.index is None
    &&& post.log.messages@.len() == pre.log.messages@.len() + 1
    &&& forall|i: int|
        0 <= i < pre.log.messages@.len() ==> post.log.messages@[i] == pre.log.messages@[i]
    &&& post.log.messages@.last().role == Role::User
    &&& post.log.messages@.last().content@ == tr
    &&& post.log.messages@.last().created_at_ms is Some
    &&& post.scroller.scrolled_back == 0
    &&& post.scroller.auto_scroll
    &&& post.scroller.input_scroll == 0
    &&& post.session.lifecycle is Sending
    &&& post.session.watermark == pre.session.watermark
    &&& post.session.last_poll_ms == pre.session.last_poll_ms
}

/// A submission attempt: accepted as above, or a no-op.
pub open spec fn submit_rel(pre: App, post: App, r: Option<String>) -> bool {
    if submit_accepts(pre) {
        &&& submit_accept_rel(pre, post)
        &&& r matches Some(s) && s@ == trimmed(pre.buffer.text())
    } else {
        post == pre && r is None
    }
}

/// Clearing the chat pane: the log holds only the given banner afterwards
/// and the error indicator resets.
pub open spec fn clear_chat_rel(pre: App, post: App, banner: Message) -> bool {
    &&& post == App { log: post.log, last_error: None, ..pre }
    &&& post.log.messages@ =~= seq![banner]
}

impl App {
    /// All components hold their invariants.
    pub open spec fn wf(&self) -> bool {
        &&& self.buffer.wf()
        &&& self.scroller.wf()
        &&& self.history.wf()
    }

    /// A fresh client for a server, starting from messages restored from
    /// disk plus one banner; the watermark picks up the highest timestamp
    /// among them, and the poll clock starts at `now`.
    pub fn new(
        server_url: String,
        history_enabled: bool,
        loaded: Vec<Message>,
        banner: Message,
        now: u64,
    ) -> (app: App)
        ensures
            app.wf(),
            app.log.messages@ == loaded@.push(banner),
            app.session.watermark == max_ts(app.log.messages@),
            app.session.last_poll_ms == now,
            app.session.lifecycle is Idle,
            app.buffer.text() == Seq::<char>::empty(),
            app.buffer.cursor() == 0,
            app.scroller.scrolled_back == 0,
            app.scroller.auto_scroll,
            app.scroller.input_scroll == 0,
            app.history.entries@ == Seq::<String>::empty(),
            app.history.index is None,
            app.focus is Input,
            app.server_url == server_url,
            app.connection_status is Connected,
            app.last_error is None,
            app.history_enabled == history_enabled,
    {
        let mut log = ChatLog { messages: loaded };
        log.append(banner);
        let watermark = max_timestamp(&log.messages);
        App {
            buffer: TextBuffer::new(),
            log,
            scroller: ViewportScroller::new(),
            history: CommandHistory::new(),
            session: SessionController::new(now, watermark),
            focus: Focus::Input,
            server_url,
            connection_status: ConnectionStatus::Connected,
            last_error: None,
            history_enabled,
        }
    }

    /// Step the command history toward the oldest entry and show it.
    pub fn navigate_history_up(&mut self)
        requires
            old(self).wf(),
        ensures
            final(self).wf(),
            history_up_rel(*old(self), *final(self)),
    {
        let mv = self.history.navigate_up();
        match mv {
            HistoryMove::Stay => (),
            HistoryMove::Clear => self.buffer.clear(),
            HistoryMove::Load(s) => self.buffer.load_text(s.as_str()),
        }
    }

    /// Step the command history toward the newest entry, emptying the buffer
    /// past it.
    pub fn navigate_history_down(&mut self)
        requires
            old(self).wf(),
        ensures
            final(self).wf(),
            history_down_rel(*old(self), *final(self)),
    {
        let mv = self.history.navigate_down();
        match mv {
            HistoryMove::Stay => (),
            HistoryMove::Clear => self.buffer.clear(),
            HistoryMove::Load(s) => self.buffer.load_text(s.as_str()),
        }
    }

    /// Return the chat pane to the bottom and resume tracking its newest
    /// line.
    pub fn scroll_to_bottom(&mut self)
        requires
            old(self).wf(),
        ensures
            final(self).wf(),
            scroller_only(*old(self), *final(self)),
            final(self).scroller.scrolled_back == 0,
            final(self).scroller.auto_scroll,
            final(self).scroller.input_scroll == old(self).scroller.input_scroll,
    {
        self.scroller.scroll_to_bottom();
    }

    /// Scroll the chat pane back one line, leaving auto-scroll.
    pub fn scroll_up(&mut self)
        requires
            old(self).wf(),
        ensures
            final(self).wf(),
            scroller_only(*old(self), *final(self)),
            !final(self).scroller.auto_scroll,
            final(self).scroller.scrolled_back == if old(self).scroller.scrolled_back == u16::MAX {
                u16::MAX as int
            } else {
                old(self).scroller.scrolled_back + 1
            },
            final(self).scroller.input_scroll == old(self).scroller.input_scroll,
    {
        self.scroller.scroll_up();
    }

    /// Scroll the chat pane one line toward the bottom, resuming auto-scroll
    /// there.
    pub fn scroll_down(&mut self)
        requires
            old(self).wf(),
        ensures
            final(self).wf(),
            scroller_only(*old(self), *final(self)),
            final(self).scroller.scrolled_back == if old(self).scroller.scrolled_back > 0 {
                old(self).scroller.scrolled_back - 1
            } else {
                0
            },
            final(self).scroller.auto_scroll == (final(self).scroller.scrolled_back == 0),
            final(self).scroller.input_scroll == old(self).scroller.input_scroll,
    {
        self.scroller.scroll_down();
    }

    /// Toggle focus between the input and chat panes.
    pub fn toggle_focus(&mut self)
        requires
            old(self).wf(),
        ensures
            final(self).wf(),
            focus_toggle_rel(*old(self), *final(self)),
    {
        self.focus = match self.focus {
            Focus::Input => Focus::Chat,
            Focus::Chat => Focus::Input,
            Focus::Help => Focus::Input,
        };
    }

    /// Open the help overlay, or close it back to the input pane.
    pub fn toggle_help(&mut self)
        requires
            old(self).wf(),
        ensures
            final(self).wf(),
            help_toggle_rel(*old(self), *final(self)),
    {
        self.focus = match self.focus {
            Focus::Help => Focus::Input,
            _ => Focus::Help,
        };
    }

    /// Visual line and column of the input cursor under the given width.
    pub fn cursor_line_col(&self, width: usize) -> (r: (usize, usize))
        requires
            self.wf(),
        ensures
            width == 0 ==> r.0 == 0 && r.1 == 0,
            width >= 1 ==> (r.0 as nat, r.1 as nat) == wrap_pos(
                self.buffer.text(),
                width as nat,
                self.buffer.cursor(),
            ),
    {
        self.buffer.cursor_line_col(width)
    }

    /// Number of visual lines the input occupies under the given width.
    pub fn input_total_lines(&self, width: usize) -> (r: usize)
        requires
            self.wf(),
            self.buffer.text().len() < usize::MAX,
        ensures
            width == 0 ==> r == 1,
            width >= 1 ==> r as nat == line_of(
                self.buffer.text(),
                width as nat,
                self.buffer.text().len() as int,
            ) + 1,
    {
        self.buffer.total_lines(width)
    }

    /// Move the input cursor one visual line up.
    pub fn cursor_up(&mut self, width: usize)
        requires
            old(self).wf(),
        ensures
            final(self).wf(),
            cursor_move_rel(*old(self), *final(self), width as nat, true),
    {
        self.buffer.move_up(width);
    }

    /// Move the input cursor one visual line down.
    pub fn cursor_down(&mut self, width: usize)
        requires
            old(self).wf(),
        ensures
            final(self).wf(),
            cursor_move_rel(*old(self), *final(self), width as nat, false),
    {
        proof {
            crate::wrap::lemma_line_monotone(
                self.buffer.text(),
                width as nat,
                self.buffer.cursor(),
                self.buffer.text().len() as int,
            );
        }
        self.buffer.move_down(width);
    }

    /// Move the input cursor one character left.
    pub fn cursor_left(&mut self)
        requires
            old(self).wf(),
        ensures
            final(self).wf(),
            cursor_step_rel(*old(self), *final(self), true),
    {
        self.buffer.move_left();
    }

    /// Move the input cursor one character right.
    pub fn cursor_right(&mut self)
        requires
            old(self).wf(),
        ensures
            final(self).wf(),
            cursor_step_rel(*old(self), *final(self), false),
    {
        self.buffer.move_right();
    }

    /// Move the input cursor to the start of its visual line.
    pub fn cursor_line_start(&mut self, width: usize)
        requires
            old(self).wf(),
        ensures
            final(self).wf(),
            line_edge_rel(*old(self), *final(self), width as nat, true),
    {
        self.buffer.move_to_line_start(width);
    }

    /// Move the input cursor to the end of its visual line.
    pub fn cursor_line_end(&mut self, width: usize)
        requires
            old(self).wf(),
        ensures
            final(self).wf(),
            line_edge_rel(*old(self), *final(self), width as nat, false),
    {
        self.buffer.move_to_line_end(width);
    }

    /// Keep the input cursor visible, adjusting the input pane's offset
    /// minimally.
    pub fn update_input_scroll(&mut self, width: usize, visible_lines: usize)
        requires
            old(self).wf(),
        ensures
            final(self).wf(),
            scroller_only(*old(self), *final(self)),
            final(self).scroller.scrolled_back == old(self).scroller.scrolled_back,
            final(self).scroller.auto_scroll == old(self).scroller.auto_scroll,
            width == 0 || visible_lines == 0 ==> final(self).scroller.input_scroll == old(
                self,
            ).scroller.input_scroll,
            width >= 1 && visible_lines >= 1 ==> ({
                let cl = line_of(old(self).buffer.text(), width as nat, old(self).buffer.cursor());
                &&& final(self).scroller.input_scroll == (if cl < old(self).scroller.input_scroll {
                    cl as int
                } else if cl >= old(self).scroller.input_scroll + visible_lines {
                    cl - visible_lines + 1
                } else {
                    old(self).scroller.input_scroll as int
                })
                &&& final(self).scroller.input_scroll <= cl < final(self).scroller.input_scroll
                    + visible_lines
            }),
    {
        if width == 0 || visible_lines == 0 {
            return ;
        }
        let r = self.buffer.cursor_line_col(width);
        self.scroller.update_input_scroll(r.0, visible_lines);
    }

    /// The input wrapped for display, exactly as the cursor arithmetic sees
    /// it.
    pub fn wrap_text_for_display(&self, width: usize) -> (s: String)
        requires
            self.wf(),
        ensures
            width == 0 ==> s@ == self.buffer.text(),
            width >= 1 ==> s@ == wrap_render(
                self.buffer.text(),
                width as nat,
                self.buffer.text().len() as int,
            ),
    {
        self.buffer.render_wrapped(width)
    }

    /// Insert one character at the cursor, ending history navigation.
    pub fn insert_char(&mut self, c: char)
        requires
            old(self).wf(),
            old(self).buffer.text().len() < usize::MAX,
        ensures
            final(self).wf(),
            insert_rel(*old(self), *final(self), c),
    {
        self.buffer.insert(c);
        self.history.leave();
    }

    /// Delete the character before the cursor, ending history navigation.
    pub fn backspace(&mut self)
        requires
            old(self).wf(),
        ensures
            final(self).wf(),
            backspace_rel(*old(self), *final(self)),
    {
        if self.buffer.cursor_index() > 0 {
            self.buffer.delete_before_cursor();
            self.history.leave();
        }
    }

    /// Delete the character under the cursor, ending history navigation.
    pub fn delete_forward(&mut self)
        requires
            old(self).wf(),
        ensures
            final(self).wf(),
            delete_rel(*old(self), *final(self)),
    {
        if self.buffer.cursor_index() < self.buffer.len() {
            self.buffer.delete_at_cursor();
            self.history.leave();
        }
    }

    /// Splice clipboard text in at the cursor.
    pub fn paste(&mut self, text: &str)
        requires
            old(self).wf(),
            old(self).buffer.text().len() + text@.len() <= usize::MAX,
        ensures
            final(self).wf(),
            paste_rel(*old(self), *final(self), text@),
    {
        let v = str_to_chars(text);
        self.buffer.insert_text(&v);
    }

    /// Try to submit the buffer: rejected unless idle and non-blank. On
    /// acceptance the returned text is what the exchange must POST.
    pub fn submit(&mut self) -> (r: Option<String>)
        requires
            old(self).wf(),
        ensures
            final(self).wf(),
            submit_rel(*old(self), *final(self), r),
    {
        if !self.session.is_idle() {
            return None;
        }
        let chars = self.buffer.content_chars();
        let t = trim_chars(&chars);
        if t.len() == 0 {
            return None;
        }
        let content = chars_to_string(&t);
        let ms = now_ms();
        let msg = Message {
            role: Role::User,
            content: content.clone(),
            created_at: format_timestamp(ms),
            created_at_ms: Some(ms),
        };
        self.history.push(content.clone());
        self.log.append(msg);
        self.buffer.clear();
        self.scroller.reset_input_scroll();
        self.scroller.scroll_to_bottom();
        self.session.begin_send();
        self.connection_status = ConnectionStatus::Sending;
        self.last_error = None;
        Some(content)
    }

    /// Record the outstanding exchange's outcome.
    pub fn settle_send(&mut self, outcome: Result<String, String>)
        requires
            old(self).wf(),
            old(self).session.lifecycle is Sending,
        ensures
            final(self).wf(),
            *final(self) == (App { session: final(self).session, ..*old(self) }),
            final(self).session == (SessionController {
                lifecycle: RequestLifecycle::Settled(outcome),
                ..old(self).session
            }),
    {
        self.session.settle(outcome);
    }

    /// Fold the settled outcome into the log: the response text as an
    /// assistant message, or the failure reason as an error message beside
    /// the error indicator; either way the chat pane returns to the bottom
    /// and the lifecycle to idle.
    pub fn resolve_settled(&mut self)
        requires
            old(self).wf(),
            old(self).session.lifecycle is Settled,
        ensures
            final(self).wf(),
            *final(self) == (App {
                log: final(self).log,
                scroller: final(self).scroller,
                session: final(self).session,
                connection_status: final(self).connection_status,
                last_error: final(self).last_error,
                ..*old(self)
            }),
            final(self).session == (SessionController {
                lifecycle: RequestLifecycle::Idle,
                ..old(self).session
            }),
            final(self).scroller.scrolled_back == 0,
            final(self).scroller.auto_scroll,
            final(self).scroller.input_scroll == old(self).scroller.input_scroll,
            final(self).log.messages@.len() == old(self).log.messages@.len() + 1,
            forall|i: int|
                0 <= i < old(self).log.messages@.len() ==> final(self).log.messages@[i] == old(
                    self,
                ).log.messages@[i],
            old(self).session.lifecycle matches RequestLifecycle::Settled(out) ==> ({
                let m = final(self).log.messages@.last();
                &&& m.created_at_ms is Some
                &&& match out {
                    Ok(content) => {
                        &&& m.role == Role::Assistant
                        &&& m.content == content
                        &&& final(self).connection_status is Connected
                        &&& final(self).last_error == old(self).last_error
                    },
                    Err(reason) => {
                        &&& m.role == Role::Error
                        &&& m.content == reason
                        &&& final(self).connection_status is Error
                        &&& final(self).last_error == Some(reason)
                    },
                }
            }),
    {
        let out = self.session.take_settled();
        let ms = now_ms();
        match out {
            Ok(content) => {
                self.log.append(
                    Message {
                        role: Role::Assistant,
                        content,
                        created_at: format_timestamp(ms),
                        created_at_ms: Some(ms),
                    },
                );
                self.connection_status = ConnectionStatus::Connected;
            },
            Err(reason) => {
                self.log.append(
                    Message {
                        role: Role::Error,
                        content: reason.clone(),
                        created_at: format_timestamp(ms),
                        created_at_ms: Some(ms),
                    },
                );
                self.last_error = Some(reason);
                self.connection_status = ConnectionStatus::Error;
            },
        }
        self.scroller.scroll_to_bottom();
    }

    /// Whether a poll is due: idle, and past the minimum interval.
    pub fn should_poll(&self, now: u64) -> (r: bool)
        ensures
            r == (self.session.lifecycle is Idle && now >= self.session.last_poll_ms
                + crate::session::POLL_INTERVAL_MS),
    {
        self.session.should_poll(now)
    }

    /// Start a poll: remember the time and hand out the watermark to query
    /// strictly above.
    pub fn begin_poll(&mut self, now: u64) -> (since: u64)
        requires
            old(self).wf(),
        ensures
            final(self).wf(),
            *final(self) == (App { session: final(self).session, ..*old(self) }),
            final(self).session == (SessionController {
                last_poll_ms: now,
                ..old(self).session
            }),
            since == old(self).session.watermark,
    {
        self.session.begin_poll(now)
    }

    /// Fold a poll's candidate messages into the log, advancing the
    /// watermark; the number appended is returned. Auto-scroll keeps the
    /// pane at the bottom by itself, so the scroller does not move.
    pub fn ingest_poll(&mut self, candidates: &Vec<RemoteMessage>) -> (appended: usize)
        requires
            old(self).wf(),
        ensures
            final(self).wf(),
            *final(self) == (App {
                log: final(self).log,
                session: final(self).session,
                ..*old(self)
            }),
            final(self).session == (SessionController {
                watermark: final(self).session.watermark,
                ..old(self).session
            }),
            ({
                let kept = ingest_kept(
                    message_keys(old(self).log.messages@),
                    candidates@,
                    old(self).session.watermark,
                );
                &&& final(self).log.messages@.len() == old(self).log.messages@.len() + kept.len()
                &&& forall|i: int|
                    0 <= i < old(self).log.messages@.len() ==> final(self).log.messages@[i] == old(
                        self,
                    ).log.messages@[i]
                &&& forall|i: int|
                    0 <= i < kept.len() ==> {
                        let m = final(self).log.messages@[old(self).log.messages@.len() + i];
                        (#[trigger] kept[i]).role == m.role && kept[i].content == m.content
                            && Some(kept[i].timestamp) == m.created_at_ms
                    }
                &&& appended == kept.len()
                &&& final(self).session.watermark == ingest_watermark(
                    message_keys(old(self).log.messages@),
                    candidates@,
                    old(self).session.watermark,
                    old(self).session.watermark,
                )
            }),
    {
        let since = self.session.watermark;
        let r = self.log.ingest_remote(candidates, since);
        self.session.record_watermark(r.0);
        if r.1 > 0 && self.scroller.auto_scroll {
            self.scroller.scroll_to_bottom();
        }
        r.1
    }

    /// Empty the chat pane, leaving only the given banner; local only.
    pub fn clear_chat(&mut self, banner: Message)
        requires
            old(self).wf(),
        ensures
            final(self).wf(),
            clear_chat_rel(*old(self), *final(self), banner),
    {
        self.log.clear();
        self.log.append(banner);
        self.last_error = None;
    }

    /// Fold the outcome of deleting the history file into the state: on
    /// success the log clears to a notice, on failure the reason shows in
    /// the error indicator.
    pub fn history_file_deleted(&mut self, outcome: Result<(), String>)
        requires
            old(self).wf(),
        ensures
            final(self).wf(),
            outcome is Ok ==> ({
                &&& *final(self) == (App { log: final(self).log, last_error: None, ..*old(self) })
                &&& final(self).log.messages@.len() == 1
                &&& final(self).log.messages@[0].role == Role::System
                &&& final(self).log.messages@[0].content@ == "Chat Historie gelöscht."@
                &&& final(self).log.messages@[0].created_at_ms is Some
            }),
            outcome matches Err(e) ==> ({
                &&& *final(self) == (App { last_error: final(self).last_error, ..*old(self) })
                &&& final(self).last_error matches Some(msg) && msg@ == "Fehler beim Löschen: "@
                    + e@
            }),
    {
        match outcome {
            Ok(_) => {
                let banner = App::system_banner("Chat Historie gelöscht.".to_owned());
                self.clear_chat(banner);
            },
            Err(e) => {
                let mut m = "Fehler beim Löschen: ".to_owned();
                m.append(e.as_str());
                self.last_error = Some(m);
            },
        }
    }

    /// A local notice bearing the present wall-clock time.
    pub fn system_banner(content: String) -> (m: Message)
        ensures
            m.role == Role::System,
            m.content == content,
            m.created_at_ms is Some,
    {
        let ms = now_ms();
        Message {
            role: Role::System,
            content,
            created_at: format_timestamp(ms),
            created_at_ms: Some(ms),
        }
    }

    /// The newest messages for persistence, leaving the live log untouched.
    pub fn trim_for_persistence(&self, limit: usize) -> (r: Vec<Message>)
        ensures
            r@ == crate::chatlog::newest(self.log.messages@, limit as int),
    {
        self.log.trim_for_persistence(limit)
    }
}

/// The highest timestamp any of the messages carries.
fn max_timestamp(msgs: &Vec<Message>) -> (r: u64)
    ensures
        r == max_ts(msgs@),
{
    let n = msgs.len();
    let mut r: u64 = 0;
    let mut i: usize = 0;
    proof {
        assert(msgs@.take(0) =~= Seq::<Message>::empty());
    }
    while i < n
        invariant
            n == msgs@.len(),
            i <= n,
            r == max_ts(msgs@.take(i as int)),
        decreases n - i,
    {
        let m = &msgs[i];
        proof {
            assert(msgs@.take(i + 1).drop_last() =~= msgs@.take(i as int));
            assert(msgs@.take(i + 1).last() == msgs@[i as int]);
        }
        match m.created_at_ms {
            Some(t) => if t > r {
                r = t;
            },
            None => (),
        }
        i = i + 1;
    }
    proof {
        assert(msgs@.take(n as int) =~= msgs@);
    }
    r
}

} // verus!
