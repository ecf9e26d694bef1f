//! Plain clipboard watching: report the clipboard's text whenever it
//! changes.

use vstd::prelude::*;
use crate::text::text_of;

verus! {

/// A clipboard text is an update when it is not empty and differs from the
/// text seen last.
pub open spec fn is_update(previous: Seq<char>, current: Seq<char>) -> bool {
    current.len() > 0 && current != previous
}

/// Remembers the clipboard text that was seen last.
#[derive(Clone, Debug, PartialEq, Eq)]
pub struct ClipboardWatch {
    pub previous: String,
}

impl ClipboardWatch {
    /// Starts watching from the text the clipboard holds now; an unreadable
    /// clipboard counts as the empty text.
    pub fn new(initial: String) -> (watch: ClipboardWatch)
        ensures
            watch.previous@ == initial@,
    {
        ClipboardWatch { previous: initial }
    }

    /// Takes the text the clipboard holds now. An update is handed back and
    /// remembered; anything else changes nothing.
    pub fn observe(&mut self, current: String) -> (update: Option<String>)
        ensures
            text_of(update) == if is_update(old(self).previous@, current@) {
                Some(current@)
            } else {
                None
            },
            final(self).previous@ == if is_update(old(self).previous@, current@) {
                current@
            } else {
                old(self).previous@
            },
    {
        if !current.as_str().is_empty() && current != self.previous {
            self.previous = current.clone();
            Some(current)
        } else {
            None
        }
    }
}

} // verus!
