//! From the records of a page to the entries that the caller sees.

use vstd::prelude::*;
use crate::entry::{entry_views, Entry, EntryMode, EntryView};
use crate::error::{PagerError, PagerErrorView};
use crate::listing::{Directory, EnumerationResults, File};
use crate::path::{
    dir_path, file_path, spec_dir_path, spec_file_path, strip_leading_separators,
    trim_leading_separators,
};
use crate::time::{parse_last_modified, spec_last_modified, Timestamp};

verus! {

/// The entry for a file record whose last-modified value reads as `stamp`,
/// below a directory whose path without leading separators is `prefix`.
pub open spec fn file_entry_view(prefix: Seq<char>, file: File, stamp: Timestamp) -> EntryView {
    EntryView {
        path: spec_file_path(prefix, file.name@),
        mode: EntryMode::File,
        etag: file.properties.etag@,
        last_modified: stamp,
        content_length: Some(
            match file.properties.content_length {
                Some(n) => n,
                None => 0,
            },
        ),
    }
}

/// The entry for a directory record whose last-modified value reads as
/// `stamp`, below a directory whose path without leading separators is
/// `prefix`.
pub open spec fn dir_entry_view(prefix: Seq<char>, dir: Directory, stamp: Timestamp) -> EntryView {
    EntryView {
        path: spec_dir_path(prefix, dir.name@),
        mode: EntryMode::Dir,
        etag: dir.properties.etag@,
        last_modified: stamp,
        content_length: None,
    }
}

/// The index of the first value in `stamps` that is no RFC 2822 date, or
/// the length of `stamps` where all of them are.
pub open spec fn first_unreadable(stamps: Seq<Seq<char>>) -> int
    decreases stamps.len(),
{
    if stamps.len() == 0 {
        0
    } else if spec_last_modified(stamps[0]) is None {
        0
    } else {
        1 + first_unreadable(stamps.drop_first())
    }
}

/// Whether every last-modified value of the page is an RFC 2822 date.
pub open spec fn all_readable(page: EnumerationResults) -> bool {
    forall|i: int|
        0 <= i < page.stamps().len() ==> spec_last_modified(#[trigger] page.stamps()[i]) is Some
}

/// The entry for the `i`-th record of a page listed at `path`, files
/// counted first.
pub open spec fn entry_view_at(path: Seq<char>, page: EnumerationResults, i: int) -> EntryView {
    let prefix = strip_leading_separators(path);
    let stamp = spec_last_modified(page.stamps()[i])->0;
    if i < page.entries.file@.len() {
        file_entry_view(prefix, page.entries.file@[i], stamp)
    } else {
        dir_entry_view(prefix, page.entries.directory@[i - page.entries.file@.len()], stamp)
    }
}

/// The entries of a page listed at `path`: one for each file, then one for
/// each directory, in the order of the page. One last-modified value that
/// is no RFC 2822 date fails the whole page, and the error holds the first
/// such value.
pub open spec fn spec_map_page(path: Seq<char>, page: EnumerationResults) -> Result<
    Seq<EntryView>,
    PagerErrorView,
> {
    if all_readable(page) {
        Ok(Seq::new(page.count(), |i: int| entry_view_at(path, page, i)))
    } else {
        Err(PagerErrorView::Timestamp { value: page.stamps()[first_unreadable(page.stamps())] })
    }
}

/// The view of what mapping a page returns.
pub open spec fn mapped_view(r: Result<Vec<Entry>, PagerError>) -> Result<
    Seq<EntryView>,
    PagerErrorView,
> {
    match r {
        Ok(entries) => Ok(entry_views(entries@)),
        Err(e) => Err(e@),
    }
}

/// Where the first `k` values are dates and the next one is not, `k` is the
/// index of the first unreadable value.
pub proof fn lemma_first_unreadable(stamps: Seq<Seq<char>>, k: int)
    requires
        0 <= k <= stamps.len(),
        forall|j: int| 0 <= j < k ==> spec_last_modified(#[trigger] stamps[j]) is Some,
        k < stamps.len() ==> spec_last_modified(stamps[k]) is None,
    ensures
        first_unreadable(stamps) == k,
    decreases k,
{
    if k > 0 {
        let rest = stamps.drop_first();
        assert(spec_last_modified(stamps[0]) is Some);
        assert forall|j: int| 0 <= j < k - 1 implies spec_last_modified(
            #[trigger] rest[j],
        ) is Some by {
            assert(rest[j] == stamps[j + 1]);
        }
        lemma_first_unreadable(rest, k - 1);
    }
}

/// Builds the entry of a file record from what its last-modified value
/// reads as. `prefix` is the listed path without its leading separators.
pub fn file_entry(prefix: &str, file: &File, stamp: Option<Timestamp>) -> (r: Result<
    Entry,
    PagerError,
>)
    ensures
        match stamp {
            Some(t) => r is Ok && r->Ok_0@ == file_entry_view(prefix@, *file, t),
            None => r is Err && r->Err_0@ == (PagerErrorView::Timestamp {
                value: file.properties.last_modified@,
            }),
        },
{
    match stamp {
        Some(t) => {
            let size: u64 = match file.properties.content_length {
                Some(n) => n,
                None => 0,
            };
            Ok(
                Entry {
                    path: file_path(prefix, file.name.as_str()),
                    mode: EntryMode::File,
                    etag: file.properties.etag.clone(),
                    last_modified: t,
                    content_length: Some(size),
                },
            )
        },
        None => Err(PagerError::Timestamp { value: file.properties.last_modified.clone() }),
    }
}

/// Builds the entry of a directory record from what its last-modified
/// value reads as. `prefix` is the listed path without its leading
/// separators.
pub fn directory_entry(prefix: &str, dir: &Directory, stamp: Option<Timestamp>) -> (r: Result<
    Entry,
    PagerError,
>)
    ensures
        match stamp {
            Some(t) => r is Ok && r->Ok_0@ == dir_entry_view(prefix@, *dir, t),
            None => r is Err && r->Err_0@ == (PagerErrorView::Timestamp {
                value: dir.properties.last_modified@,
            }),
        },
{
    match stamp {
        Some(t) => Ok(
            Entry {
                path: dir_path(prefix, dir.name.as_str()),
                mode: EntryMode::Dir,
                etag: dir.properties.etag.clone(),
                last_modified: t,
                content_length: None,
            },
        ),
        None => Err(PagerError::Timestamp { value: dir.properties.last_modified.clone() }),
    }
}

/// Maps the records of a page listed at `path` to entries.
pub fn map_page(path: &str, page: &EnumerationResults) -> (r: Result<Vec<Entry>, PagerError>)
    ensures
        mapped_view(r) == spec_map_page(path@, *page),
        r matches Ok(entries) ==> entries@.len() == page.count(),
{
    let prefix: &str = trim_leading_separators(path);
    let files: &Vec<File> = &page.entries.file;
    let dirs: &Vec<Directory> = &page.entries.directory;
    let ghost stamps = page.stamps();
    let mut entries: Vec<Entry> = Vec::new();
    let mut i: usize = 0;
    while i < files.len()
        invariant
            i <= files.len(),
            files == &page.entries.file,
            dirs == &page.entries.directory,
            stamps == page.stamps(),
            prefix@ == strip_leading_separators(path@),
            entries@.len() == i,
            forall|j: int| 0 <= j < i ==> spec_last_modified(#[trigger] stamps[j]) is Some,
            forall|j: int|
                0 <= j < i ==> (#[trigger] entries@[j])@ == entry_view_at(path@, *page, j),
        decreases files.len() - i,
    {
        let file: &File = &files[i];
        let stamp: Option<Timestamp> = parse_last_modified(file.properties.last_modified.as_str());
        assert(stamps[i as int] == file.properties.last_modified@);
        match file_entry(prefix, file, stamp) {
            Ok(entry) => {
                entries.push(entry);
            },
            Err(e) => {
                proof {
                    lemma_first_unreadable(stamps, i as int);
                    assert(spec_last_modified(page.stamps()[i as int]) is None);
                }
                return Err(e);
            },
        }
        i += 1;
    }
    let mut k: usize = 0;
    while k < dirs.len()
        invariant
            k <= dirs.len(),
            files == &page.entries.file,
            dirs == &page.entries.directory,
            stamps == page.stamps(),
            prefix@ == strip_leading_separators(path@),
            entries@.len() == files.len() + k,
            forall|j: int|
                0 <= j < files.len() + k ==> spec_last_modified(#[trigger] stamps[j]) is Some,
            forall|j: int|
                0 <= j < files.len() + k ==> (#[trigger] entries@[j])@ == entry_view_at(
                    path@,
                    *page,
                    j,
                ),
        decreases dirs.len() - k,
    {
        let dir: &Directory = &dirs[k];
        let stamp: Option<Timestamp> = parse_last_modified(dir.properties.last_modified.as_str());
        assert(stamps[files.len() + k] == dir.properties.last_modified@);
        match directory_entry(prefix, dir, stamp) {
            Ok(entry) => {
                entries.push(entry);
            },
            Err(e) => {
                proof {
                    lemma_first_unreadable(stamps, files.len() + k);
                    assert(spec_last_modified(page.stamps()[files.len() + k]) is None);
                }
                return Err(e);
            },
        }
        k += 1;
    }
    proof {
        assert(entry_views(entries@) =~= Seq::new(
            page.count(),
            |i: int| entry_view_at(path@, *page, i),
        ));
    }
    Ok(entries)
}

} // verus!
