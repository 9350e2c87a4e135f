//! The entries that a listing yields.

use vstd::prelude::*;
use crate::time::Timestamp;

verus! {

/// Whether an entry is a file or a directory.
#[derive(Clone, Copy, Debug, PartialEq, Eq)]
pub enum EntryMode {
    File,
    Dir,
}

/// One child of the listed directory.
#[derive(Clone, Debug, PartialEq, Eq)]
pub struct Entry {
    /// The listed path without its leading separators, followed by the
    /// child's name; a directory's path ends in a separator.
    pub path: String,
    pub mode: EntryMode,
    pub etag: String,
    pub last_modified: Timestamp,
    /// The size of a file, 0 where the service left it out; `None` for a
    /// directory.
    pub content_length: Option<u64>,
}

/// An [`Entry`] with its texts as sequences of characters.
pub struct EntryView {
    pub path: Seq<char>,
    pub mode: EntryMode,
    pub etag: Seq<char>,
    pub last_modified: Timestamp,
    pub content_length: Option<u64>,
}

impl View for Entry {
    type V = EntryView;

    open spec fn view(&self) -> EntryView {
        EntryView {
            path: self.path@,
            mode: self.mode,
            etag: self.etag@,
            last_modified: self.last_modified,
            content_length: self.content_length,
        }
    }
}

/// The views of a sequence of entries, in the same order.
pub open spec fn entry_views(entries: Seq<Entry>) -> Seq<EntryView> {
    entries.map_values(|e: Entry| e@)
}

} // verus!
