//! The key dispatcher.
//!
//! One keystroke and the current focus decide one transition of the client
//! state plus at most one action for the surroundings to perform: exiting,
//! launching the accepted exchange, reading the clipboard, or deleting the
//! history file. The help overlay is modal — any key closes it and nothing
//! else happens — and while an exchange is outstanding only the exit keys
//! act. Everything else routes by focus: editing keys reach the buffer only
//! from the input pane, scroll keys reach the chat pane from chat focus, and
//! the page and alt-modified scroll keys act from either pane.

use vstd::prelude::*;
use vstd::string::StringExecFns;

use crate::client::App;
use crate::client::Focus;
use crate::client::backspace_rel;
use crate::client::cursor_move_rel;
use crate::client::cursor_step_rel;
use crate::client::delete_rel;
use crate::client::focus_toggle_rel;
use crate::client::help_toggle_rel;
use crate::client::history_down_rel;
use crate::client::history_up_rel;
use crate::client::insert_rel;
use crate::client::line_edge_rel;
use crate::client::scroller_only;
use crate::client::submit_accept_rel;
use crate::client::submit_accepts;
use crate::chatlog::Role;
use crate::scroll::JUMP_TO_TOP_LINES;
use crate::scroll::PAGE_SCROLL_LINES;
use crate::strings::trimmed;

verus! {

/// A key, stripped of its modifiers.
#[derive(Clone, Copy, PartialEq, Eq, Structural, Debug)]
pub enum KeyCode {
    Char(char),
    Enter,
    Backspace,
    Delete,
    Left,
    Right,
    Up,
    Down,
    Home,
    End,
    PageUp,
    PageDown,
    Tab,
    Esc,
    F(u8),
}

/// A key press with its modifier flags.
#[derive(Clone, Copy, PartialEq, Eq, Structural, Debug)]
pub struct Key {
    pub code: KeyCode,
    pub ctrl: bool,
    pub alt: bool,
    pub shift: bool,
}

/// What the surroundings must do after a dispatched key.
pub enum Action {
    /// Nothing.
    Stay,
    /// Leave the application.
    Exit,
    /// POST this text as the single outstanding exchange.
    Send(String),
    /// Read the clipboard and paste it.
    RequestPaste,
    /// Delete the history file and report how it went.
    DeleteHistoryFile,
}

/// The keys that leave the application.
pub open spec fn is_exit_key(k: Key) -> bool {
    k.code == KeyCode::Esc || (k.code == KeyCode::Char('c') && k.ctrl)
}

/// Whether a key carries no modifier.
pub open spec fn no_mods(k: Key) -> bool {
    !k.ctrl && !k.alt && !k.shift
}

/// Scrolling the chat pane back one line.
pub open spec fn scroll_up_rel(pre: App, post: App) -> bool {
    &&& scroller_only(pre, post)
    &&& !post.scroller.auto_scroll
    &&& post.scroller.scrolled_back == if pre.scroller.scrolled_back == u16::MAX {
        u16::MAX as int
    } else {
        pre.scroller.scrolled_back + 1
    }
    &&& post.scroller.input_scroll == pre.scroller.input_scroll
}

/// Scrolling the chat pane one line toward the bottom.
pub open spec fn scroll_down_rel(pre: App, post: App) -> bool {
    &&& scroller_only(pre, post)
    &&& post.scroller.scrolled_back == if pre.scroller.scrolled_back > 0 {
        pre.scroller.scrolled_back - 1
    } else {
        0
    }
    &&& post.scroller.auto_scroll == (post.scroller.scrolled_back == 0)
    &&& post.scroller.input_scroll == pre.scroller.input_scroll
}

/// Returning the chat pane to the bottom.
pub open spec fn scroll_bottom_rel(pre: App, post: App) -> bool {
    &&& scroller_only(pre, post)
    &&& post.scroller.scrolled_back == 0
    &&& post.scroller.auto_scroll
    &&& post.scroller.input_scroll == pre.scroller.input_scroll
}

/// Scrolling the chat pane back one page.
pub open spec fn page_up_rel(pre: App, post: App) -> bool {
    &&& scroller_only(pre, post)
    &&& !post.scroller.auto_scroll
    &&& post.scroller.scrolled_back == if pre.scroller.scrolled_back + PAGE_SCROLL_LINES
        <= u16::MAX {
        pre.scroller.scrolled_back + PAGE_SCROLL_LINES
    } else {
        u16::MAX as int
    }
    &&& post.scroller.input_scroll == pre.scroller.input_scroll
}

/// Scrolling the chat pane one page toward the bottom, back to tracking
/// within the last page.
pub open spec fn page_down_rel(pre: App, post: App) -> bool {
    &&& scroller_only(pre, post)
    &&& post.scroller.scrolled_back == if pre.scroller.scrolled_back > PAGE_SCROLL_LINES {
        pre.scroller.scrolled_back - PAGE_SCROLL_LINES
    } else {
        0
    }
    &&& (pre.scroller.scrolled_back > PAGE_SCROLL_LINES ==> post.scroller.auto_scroll
        == pre.scroller.auto_scroll)
    &&& (pre.scroller.scrolled_back <= PAGE_SCROLL_LINES ==> post.scroller.auto_scroll)
    &&& post.scroller.input_scroll == pre.scroller.input_scroll
}

/// Scrolling the chat pane to its top.
pub open spec fn jump_top_rel(pre: App, post: App) -> bool {
    &&& scroller_only(pre, post)
    &&& !post.scroller.auto_scroll
    &&& post.scroller.scrolled_back == JUMP_TO_TOP_LINES
    &&& post.scroller.input_scroll == pre.scroller.input_scroll
}

/// Clearing the chat pane to a fresh connection banner.
pub open spec fn clear_banner_rel(pre: App, post: App) -> bool {
    &&& post == (App { log: post.log, last_error: None, ..pre })
    &&& post.log.messages@.len() == 1
    &&& post.log.messages@[0].role == Role::System
    &&& post.log.messages@[0].content@ == "Chat gelöscht. Verbunden mit "@ + pre.server_url@
    &&& post.log.messages@[0].created_at_ms is Some
}

/// Asking to delete the history file, or refusing because history is off.
pub open spec fn delete_history_rel(pre: App, post: App, a: Action) -> bool {
    if pre.history_enabled {
        post == pre && a is DeleteHistoryFile
    } else {
        &&& post == (App { last_error: post.last_error, ..pre })
        &&& post.last_error matches Some(e) && e@ == "History ist deaktiviert (--no-history)"@
        &&& a is Stay
    }
}

/// A submission attempt and the action it yields: the accepted text goes out
/// as a send, a rejection does nothing.
pub open spec fn send_rel(pre: App, post: App, a: Action) -> bool {
    if submit_accepts(pre) {
        &&& submit_accept_rel(pre, post)
        &&& a matches Action::Send(s) && s@ == trimmed(pre.buffer.text())
    } else {
        post == pre && a is Stay
    }
}

/// The one transition a keystroke makes, given the focus and lifecycle, and
/// the action it leaves for the surroundings. The arms mirror the key map:
/// help is modal, only the exit keys act while sending, and everything else
/// routes by focus.
pub open spec fn dispatch_rel(pre: App, key: Key, width: nat, post: App, a: Action) -> bool {
    if pre.focus is Help {
        help_toggle_rel(pre, post) && a is Stay
    } else if pre.session.lifecycle is Sending {
        post == pre && a == (if is_exit_key(key) {
            Action::Exit
        } else {
            Action::Stay
        })
    } else if key.code == KeyCode::F(1) {
        help_toggle_rel(pre, post) && a is Stay
    } else if key.code == KeyCode::Char('?') && no_mods(key) && !(pre.focus is Input) {
        help_toggle_rel(pre, post) && a is Stay
    } else if is_exit_key(key) {
        post == pre && a is Exit
    } else if key.code == KeyCode::Char('l') && key.ctrl {
        clear_banner_rel(pre, post) && a is Stay
    } else if (key.code == KeyCode::Char('d') || key.code == KeyCode::Char('D')) && key.ctrl
        && key.shift {
        delete_history_rel(pre, post, a)
    } else if key.code == KeyCode::Char('v') && key.ctrl {
        post == pre && a == (if pre.focus is Input {
            Action::RequestPaste
        } else {
            Action::Stay
        })
    } else if key.code == KeyCode::Tab {
        focus_toggle_rel(pre, post) && a is Stay
    } else if key.code == KeyCode::Up && key.ctrl {
        (if pre.focus is Input {
            history_up_rel(pre, post)
        } else {
            post == pre
        }) && a is Stay
    } else if key.code == KeyCode::Down && key.ctrl {
        (if pre.focus is Input {
            history_down_rel(pre, post)
        } else {
            post == pre
        }) && a is Stay
    } else if key.code == KeyCode::Up && no_mods(key) {
        (if pre.focus is Input {
            cursor_move_rel(pre, post, width, true)
        } else {
            scroll_up_rel(pre, post)
        }) && a is Stay
    } else if key.code == KeyCode::Down && no_mods(key) {
        (if pre.focus is Input {
            cursor_move_rel(pre, post, width, false)
        } else {
            scroll_down_rel(pre, post)
        }) && a is Stay
    } else if key.code == KeyCode::Left && pre.focus is Input {
        cursor_step_rel(pre, post, true) && a is Stay
    } else if key.code == KeyCode::Right && pre.focus is Input {
        cursor_step_rel(pre, post, false) && a is Stay
    } else if key.code == KeyCode::Home && pre.focus is Input {
        line_edge_rel(pre, post, width, true) && a is Stay
    } else if key.code == KeyCode::End && pre.focus is Input {
        line_edge_rel(pre, post, width, false) && a is Stay
    } else if key.code == KeyCode::Up && key.alt {
        scroll_up_rel(pre, post) && a is Stay
    } else if key.code == KeyCode::Down && key.alt {
        scroll_down_rel(pre, post) && a is Stay
    } else if key.code == KeyCode::Home && pre.focus is Chat {
        jump_top_rel(pre, post) && a is Stay
    } else if key.code == KeyCode::End && pre.focus is Chat {
        scroll_bottom_rel(pre, post) && a is Stay
    } else if key.code == KeyCode::PageUp {
        page_up_rel(pre, post) && a is Stay
    } else if key.code == KeyCode::PageDown {
        page_down_rel(pre, post) && a is Stay
    } else if key.code == KeyCode::Char('s') && key.ctrl {
        send_rel(pre, post, a)
    } else if key.code == KeyCode::Enter && key.ctrl {
        send_rel(pre, post, a)
    } else if key.code == KeyCode::Enter && key.shift && pre.focus is Input {
        insert_rel(pre, post, '\n') && a is Stay
    } else if key.code == KeyCode::Enter && pre.focus is Input {
        send_rel(pre, post, a)
    } else {
        match key.code {
            KeyCode::Char(c) => if pre.focus is Input {
                insert_rel(pre, post, c) && a is Stay
            } else {
                post == pre && a is Stay
            },
            KeyCode::Backspace => if pre.focus is Input {
                backspace_rel(pre, post) && a is Stay
            } else {
                post == pre && a is Stay
            },
            KeyCode::Delete => if pre.focus is Input {
                delete_rel(pre, post) && a is Stay
            } else {
                post == pre && a is Stay
            },
            _ => post == pre && a is Stay,
        }
    }
}

impl App {
    /// Dispatch one keystroke under the given input width.
    pub fn handle_key(&mut self, key: Key, width: usize) -> (a: Action)
        requires
            old(self).wf(),
            old(self).buffer.text().len() < usize::MAX,
        ensures
            final(self).wf(),
            dispatch_rel(*old(self), key, width as nat, *final(self), a),
    {
        if self.focus_is_help() {
            self.toggle_help();
            return Action::Stay;
        }
        if self.session.is_sending() {
            if key.code == KeyCode::Esc || (key.code == KeyCode::Char('c') && key.ctrl) {
                return Action::Exit;
            }
            return Action::Stay;
        }
        if key.code == KeyCode::F(1) {
            self.toggle_help();
            Action::Stay
        } else if key.code == KeyCode::Char('?') && !key.ctrl && !key.alt && !key.shift
            && !self.focus_is_input() {
            self.toggle_help();
            Action::Stay
        } else if key.code == KeyCode::Esc || (key.code == KeyCode::Char('c') && key.ctrl) {
            Action::Exit
        } else if key.code == KeyCode::Char('l') && key.ctrl {
            let mut content = "Chat gelöscht. Verbunden mit ".to_owned();
            content.append(self.server_url.as_str());
            let banner = App::system_banner(content);
            self.clear_chat(banner);
            Action::Stay
        } else if (key.code == KeyCode::Char('d') || key.code == KeyCode::Char('D')) && key.ctrl
            && key.shift {
            if self.history_enabled {
                Action::DeleteHistoryFile
            } else {
                self.last_error = Some("History ist deaktiviert (--no-history)".to_owned());
                Action::Stay
            }
        } else if key.code == KeyCode::Char('v') && key.ctrl {
            if self.focus_is_input() {
                Action::RequestPaste
            } else {
                Action::Stay
            }
        } else if key.code == KeyCode::Tab {
            self.toggle_focus();
            Action::Stay
        } else if key.code == KeyCode::Up && key.ctrl {
            if self.focus_is_input() {
                self.navigate_history_up();
            }
            Action::Stay
        } else if key.code == KeyCode::Down && key.ctrl {
            if self.focus_is_input() {
                self.navigate_history_down();
            }
            Action::Stay
        } else if key.code == KeyCode::Up && !key.ctrl && !key.alt && !key.shift {
            if self.focus_is_input() {
                self.cursor_up(width);
            } else {
                self.scroll_up();
            }
            Action::Stay
        } else if key.code == KeyCode::Down && !key.ctrl && !key.alt && !key.shift {
            if self.focus_is_input() {
                self.cursor_down(width);
            } else {
                self.scroll_down();
            }
            Action::Stay
        } else if key.code == KeyCode::Left && self.focus_is_input() {
            self.cursor_left();
            Action::Stay
        } else if key.code == KeyCode::Right && self.focus_is_input() {
            self.cursor_right();
            Action::Stay
        } else if key.code == KeyCode::Home && self.focus_is_input() {
            self.cursor_line_start(width);
            Action::Stay
        } else if key.code == KeyCode::End && self.focus_is_input() {
            self.cursor_line_end(width);
            Action::Stay
        } else if key.code == KeyCode::Up && key.alt {
            self.scroll_up();
            Action::Stay
        } else if key.code == KeyCode::Down && key.alt {
            self.scroll_down();
            Action::Stay
        } else if key.code == KeyCode::Home && self.focus_is_chat() {
            self.scroller.jump_to_top();
            Action::Stay
        } else if key.code == KeyCode::End && self.focus_is_chat() {
            self.scroll_to_bottom();
            Action::Stay
        } else if key.code == KeyCode::PageUp {
            self.scroller.page_up();
            Action::Stay
        } else if key.code == KeyCode::PageDown {
            self.scroller.page_down();
            Action::Stay
        } else if key.code == KeyCode::Char('s') && key.ctrl {
            match self.submit() {
                Some(text) => Action::Send(text),
                None => Action::Stay,
            }
        } else if key.code == KeyCode::Enter && key.ctrl {
            match self.submit() {
                Some(text) => Action::Send(text),
                None => Action::Stay,
            }
        } else if key.code == KeyCode::Enter && key.shift && self.focus_is_input() {
            self.insert_char('\n');
            Action::Stay
        } else if key.code == KeyCode::Enter && self.focus_is_input() {
            match self.submit() {
                Some(text) => Action::Send(text),
                None => Action::Stay,
            }
        } else {
            match key.code {
                KeyCode::Char(c) => {
                    if self.focus_is_input() {
                        self.insert_char(c);
                    }
                    Action::Stay
                },
                KeyCode::Backspace => {
                    if self.focus_is_input() {
                        self.backspace();
                    }
                    Action::Stay
                },
                KeyCode::Delete => {
                    if self.focus_is_input() {
                        self.delete_forward();
                    }
                    Action::Stay
                },
                _ => Action::Stay,
            }
        }
    }

    /// Whether the help overlay is up.
    pub fn focus_is_help(&self) -> (r: bool)
        ensures
            r == (self.focus is Help),
    {
        match self.focus {
            Focus::Help => true,
            _ => false,
        }
    }

    /// Whether the input pane has the keyboard.
    pub fn focus_is_input(&self) -> (r: bool)
        ensures
            r == (self.focus is Input),
    {
        match self.focus {
            Focus::Input => true,
            _ => false,
        }
    }

    /// Whether the chat pane has the keyboard.
    pub fn focus_is_chat(&self) -> (r: bool)
        ensures
            r == (self.focus is Chat),
    {
        match self.focus {
            Focus::Chat => true,
            _ => false,
        }
    }
}

} // verus!
