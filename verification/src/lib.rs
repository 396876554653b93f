//! Core of a terminal chat client: the input-editing and viewport engine and
//! the send/poll state machine that drives it.
//!
//! The library owns the logical text buffer with its wrap and cursor
//! arithmetic, the viewport scrolling for both panes, the ordered chat log
//! with timestamp de-duplication and persistence trimming, the request
//! lifecycle, the command history, and the key dispatcher. The surrounding
//! binary supplies what the core cannot: the terminal backend, the HTTP
//! exchange, the clipboard, and the files on disk.

pub mod chatlog;
pub mod client;
pub mod dispatch;
pub mod history;
pub mod scroll;
pub mod session;
pub mod strings;
pub mod textbuf;
pub mod time;
pub mod widths;
pub mod wrap;
