//! History of previously sent messages.
//!
//! An optional active index walks the ordered list of submitted texts.
//! Navigating up steps toward the oldest entry and stops there; navigating
//! down past the newest entry clears the index and asks for an empty buffer
//! again.

use vstd::prelude::*;

verus! {

/// What a history navigation asks the input buffer to do.
pub enum HistoryMove {
    /// Leave the buffer as it is.
    Stay,
    /// Empty the buffer: navigation walked past the newest entry.
    Clear,
    /// Load this entry into the buffer.
    Load(String),
}

pub struct CommandHistory {
    /// Previously sent texts, oldest first.
    pub entries: Vec<String>,
    /// The entry the buffer currently shows, if navigation is active.
    pub index: Option<usize>,
}

impl CommandHistory {
    /// The active index always points at an entry.
    pub open spec fn wf(&self) -> bool {
        self.index matches Some(i) ==> i < self.entries@.len()
    }

    /// An empty history with no active index.
    pub fn new() -> (h: CommandHistory)
        ensures
            h.wf(),
            h.entries@ == Seq::<String>::empty(),
            h.index is None,
    {
        CommandHistory { entries: Vec::new(), index: None }
    }

    /// Record a submitted text and leave navigation.
    pub fn push(&mut self, text: String)
        ensures
            final(self).wf(),
            final(self).entries@ == old(self).entries@.push(text),
            final(self).index is None,
    {
        self.entries.push(text);
        self.index = None;
    }

    /// Drop the active index without touching the entries.
    pub fn leave(&mut self)
        ensures
            final(self).wf(),
            final(self).entries@ == old(self).entries@,
            final(self).index is None,
    {
        self.index = None;
    }

    /// Step toward the oldest entry: from no index to the newest entry, and
    /// from the oldest no further; the stepped-to entry is handed out to be
    /// loaded. An empty history leaves everything alone.
    pub fn navigate_up(&mut self) -> (r: HistoryMove)
        requires
            old(self).wf(),
        ensures
            final(self).wf(),
            final(self).entries@ == old(self).entries@,
            old(self).entries@.len() == 0 ==> *final(self) == *old(self) && r is Stay,
            old(self).entries@.len() >= 1 ==> ({
                let idx = match old(self).index {
                    None => old(self).entries@.len() - 1,
                    Some(i) => if i == 0 {
                        0int
                    } else {
                        i - 1
                    },
                };
                &&& final(self).index == Some(idx as usize)
                &&& r == HistoryMove::Load(old(self).entries@[idx])
            }),
    {
        let n = self.entries.len();
        if n == 0 {
            return HistoryMove::Stay;
        }
        let idx: usize = match self.index {
            None => n - 1,
            Some(i) => if i == 0 {
                0
            } else {
                i - 1
            },
        };
        self.index = Some(idx);
        HistoryMove::Load(self.entries[idx].clone())
    }

    /// Step toward the newest entry: past it, navigation ends and the buffer
    /// empties; otherwise the stepped-to entry is handed out to be loaded.
    /// Without an active index nothing happens.
    pub fn navigate_down(&mut self) -> (r: HistoryMove)
        requires
            old(self).wf(),
        ensures
            final(self).wf(),
            final(self).entries@ == old(self).entries@,
            old(self).index is None ==> *final(self) == *old(self) && r is Stay,
            old(self).index matches Some(i) ==> (i + 1 >= old(self).entries@.len()
                ==> final(self).index is None && r is Clear),
            old(self).index matches Some(i) ==> (i + 1 < old(self).entries@.len()
                ==> final(self).index == Some((i + 1) as usize) && r == HistoryMove::Load(
                old(self).entries@[i + 1],
            )),
    {
        match self.index {
            None => HistoryMove::Stay,
            Some(i) => {
                let n = self.entries.len();
                if i + 1 >= n {
                    self.index = None;
                    HistoryMove::Clear
                } else {
                    self.index = Some(i + 1);
                    HistoryMove::Load(self.entries[i + 1].clone())
                }
            },
        }
    }
}

} // verus!
