//! One decoded page of a listing, as the service describes it.
//!
//! These are the records of the enumeration document, field for field. A
//! field that the document may leave out is an `Option`; a list that it may
//! leave out is empty; a missing next marker is the empty string.

use vstd::prelude::*;

verus! {

/// The properties block of a file or directory record.
#[derive(Clone, Debug, PartialEq, Eq)]
pub struct Properties {
    /// Size in bytes. Directories carry none, and files may leave it out.
    pub content_length: Option<u64>,
    pub creation_time: String,
    pub last_access_time: String,
    pub last_write_time: String,
    pub change_time: String,
    /// An RFC 2822 date, such as `Mon, 25 Sep 2023 12:43:08 GMT`.
    pub last_modified: String,
    pub etag: String,
}

/// A file of the listed directory.
#[derive(Clone, Debug, PartialEq, Eq)]
pub struct File {
    /// The identifier that the service assigned.
    pub file_id: String,
    /// The name within the listed directory, not a full path.
    pub name: String,
    pub properties: Properties,
}

/// A sub-directory of the listed directory.
#[derive(Clone, Debug, PartialEq, Eq)]
pub struct Directory {
    /// The identifier that the service assigned.
    pub file_id: String,
    /// The name within the listed directory, not a full path.
    pub name: String,
    pub properties: Properties,
}

/// The records of one page, in the order in which the service sent them.
#[derive(Clone, Debug, PartialEq, Eq)]
pub struct Entries {
    pub file: Vec<File>,
    pub directory: Vec<Directory>,
}

/// One page of a listing.
#[derive(Clone, Debug, PartialEq, Eq)]
pub struct EnumerationResults {
    pub marker: Option<String>,
    pub prefix: Option<String>,
    pub max_results: Option<u32>,
    pub directory_id: Option<String>,
    pub entries: Entries,
    /// Where the next page starts; empty on the last page.
    pub next_marker: String,
}

impl EnumerationResults {
    /// The last-modified values of the page, those of the files first, each
    /// group in the order of the page.
    pub open spec fn stamps(self) -> Seq<Seq<char>> {
        Seq::new(
            self.entries.file@.len() + self.entries.directory@.len(),
            |i: int|
                if i < self.entries.file@.len() {
                    self.entries.file@[i].properties.last_modified@
                } else {
                    self.entries.directory@[i - self.entries.file@.len()].properties.last_modified@
                },
        )
    }

    /// The number of records on the page.
    pub open spec fn count(self) -> nat {
        self.entries.file@.len() + self.entries.directory@.len()
    }
}

} // verus!
