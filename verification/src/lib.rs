//! A cursor over the paged directory listing of a remote file share.
//!
//! The service lists a directory page by page: each page holds file and
//! directory records and names the marker at which the next page starts.
//! [`AzfilePager`] keeps the place in such a listing and turns the records of
//! each page into [`Entry`] values.
//!
//! The cursor performs no input or output. It is driven by events: the
//! caller polls it, sends the request it hands out, has the body decoded
//! that it hands out, and reports what came back each time; the cursor
//! decides what happens next and what the caller gets to see. One fetch
//! runs from [`PageEvent::Poll`] to the first [`PageAction::Yield`] or
//! [`PageAction::Fail`].
//!
//! A fetch that yields "no page" ends the stream for the caller. Mostly the
//! listing is then over, but not always: a page without entries that names
//! a next page also yields "no page", and leaves the cursor at that marker.
//! [`AzfilePager::is_done`] tells which of the two it was.

pub mod body;
pub mod entry;
pub mod error;
pub mod listing;
pub mod mapping;
pub mod pager;
pub mod path;
pub mod time;
pub mod theorems;

pub use entry::{Entry, EntryMode};
pub use error::PagerError;
pub use listing::{Directory, Entries, EnumerationResults, File, Properties};
pub use pager::{AzfilePager, CursorState, ListRequest, PageAction, PageEvent};
pub use time::Timestamp;
