//! The cursor of a listing: what it asks of its caller, and how it moves.

use vstd::prelude::*;
use vstd::utf8::{decode_utf8, valid_utf8};
use crate::body::body_text;
use crate::entry::{Entry, EntryView, entry_views};
use crate::error::{PagerError, PagerErrorView};
use crate::listing::EnumerationResults;
use crate::mapping::{map_page, spec_map_page};

verus! {

/// The status of a response that carries a page.
pub const STATUS_OK: u16 = 200;

/// The status of a response that says the listed directory does not exist.
pub const STATUS_NOT_FOUND: u16 = 404;

/// Where a listing stands.
#[derive(Clone, Debug, PartialEq, Eq)]
pub enum CursorState {
    /// More pages may follow; the next one starts at `token`. The empty
    /// token is the start of the listing.
    Active { token: String },
    /// No page follows.
    Done,
}

/// A [`CursorState`] with its token as a sequence of characters.
pub enum Cursor {
    Active { token: Seq<char> },
    Done,
}

impl View for CursorState {
    type V = Cursor;

    open spec fn view(&self) -> Cursor {
        match *self {
            CursorState::Active { token } => Cursor::Active { token: token@ },
            CursorState::Done => Cursor::Done,
        }
    }
}

/// Where a listing stands after a page whose next marker is `next_marker`:
/// an empty marker ends it, any other is where the next page starts.
pub open spec fn spec_after_page(next_marker: Seq<char>) -> Cursor {
    if next_marker.len() == 0 {
        Cursor::Done
    } else {
        Cursor::Active { token: next_marker }
    }
}

impl CursorState {
    /// The state at the start of a listing.
    pub fn start() -> (r: CursorState)
        ensures
            r@ == (Cursor::Active { token: Seq::<char>::empty() }),
    {
        CursorState::Active { token: String::new() }
    }

    /// The state after a page whose next marker is `next_marker`.
    pub fn after_page(next_marker: String) -> (r: CursorState)
        ensures
            r@ == spec_after_page(next_marker@),
    {
        if next_marker.as_str().is_empty() {
            CursorState::Done
        } else {
            CursorState::Active { token: next_marker }
        }
    }
}

/// One request for a page.
#[derive(Clone, Debug, PartialEq, Eq)]
pub struct ListRequest {
    /// The directory to list, as the cursor was given it.
    pub path: String,
    /// The largest number of entries asked for, if any. The service may
    /// send fewer or more.
    pub limit: Option<usize>,
    /// Where the page starts; empty for the first page.
    pub continuation: String,
}

/// A [`ListRequest`] with its texts as sequences of characters.
pub struct ListRequestView {
    pub path: Seq<char>,
    pub limit: Option<usize>,
    pub continuation: Seq<char>,
}

impl View for ListRequest {
    type V = ListRequestView;

    open spec fn view(&self) -> ListRequestView {
        ListRequestView { path: self.path@, limit: self.limit, continuation: self.continuation@ }
    }
}

/// What the caller reports to the cursor.
#[derive(Debug, PartialEq, Eq)]
pub enum PageEvent {
    /// The next page is wanted.
    Poll,
    /// The service answered the request that the cursor handed out.
    Response { status: u16, body: Vec<u8> },
    /// The decoder is through with the text that the cursor handed out:
    /// it returned a page, or the reason why the text is none.
    Decoded { outcome: Result<EnumerationResults, String> },
}

/// What the cursor asks of the caller.
#[derive(Debug, PartialEq, Eq)]
pub enum PageAction {
    /// Send this request, and report the response.
    Issue { request: ListRequest },
    /// Decode this text as an enumeration document, and report the outcome.
    Decode { text: String },
    /// The fetch is over: here is the page, or `None` for "no page". A
    /// page that is handed out is never empty. "No page" is the answer once
    /// the listing is over, and also to a page without entries, whether or
    /// not the listing goes on after it.
    Yield { page: Option<Vec<Entry>> },
    /// The fetch failed. The cursor is where it was before the fetch.
    Fail { error: PagerError },
}

/// A [`PageAction`] with its texts, bytes and lists as sequences.
pub enum PageActionView {
    Issue { request: ListRequestView },
    Decode { text: Seq<char> },
    Yield { page: Option<Seq<EntryView>> },
    Fail { error: PagerErrorView },
}

impl View for PageAction {
    type V = PageActionView;

    open spec fn view(&self) -> PageActionView {
        match *self {
            PageAction::Issue { request } => PageActionView::Issue { request: request@ },
            PageAction::Decode { text } => PageActionView::Decode { text: text@ },
            PageAction::Yield { page } => PageActionView::Yield {
                page: match page {
                    Some(entries) => Some(entry_views(entries@)),
                    None => None,
                },
            },
            PageAction::Fail { error } => PageActionView::Fail { error: error@ },
        }
    }
}

/// The cursor of one listing, as a mathematical value.
pub struct PagerView {
    pub path: Seq<char>,
    pub limit: Option<usize>,
    pub cursor: Cursor,
}

/// The cursor at the start of the listing of `path`.
pub open spec fn fresh(path: Seq<char>, limit: Option<usize>) -> PagerView {
    PagerView { path, limit, cursor: Cursor::Active { token: Seq::<char>::empty() } }
}

/// The action that ends a fetch with "no page".
pub open spec fn no_page() -> PageActionView {
    PageActionView::Yield { page: None }
}

/// The reason given when a body is not UTF-8.
pub open spec fn not_utf8_reason() -> Seq<char> {
    "response body is not valid UTF-8"@
}

/// What a poll is answered with: "no page" once the listing is done, else
/// the request for the page at the cursor's token. The cursor stays.
pub open spec fn spec_poll(p: PagerView) -> PageActionView {
    match p.cursor {
        Cursor::Done => no_page(),
        Cursor::Active { token } => PageActionView::Issue {
            request: ListRequestView { path: p.path, limit: p.limit, continuation: token },
        },
    }
}

/// The cursor after a response, and the action it is answered with.
///
/// Status 200 hands the body on as text, or fails where it is not UTF-8.
/// Status 404 ends the listing with "no page". Any other status fails with
/// the status and the body. Only 404 moves the cursor.
pub open spec fn spec_response(p: PagerView, status: u16, body: Seq<u8>) -> (
    PagerView,
    PageActionView,
) {
    if p.cursor is Done {
        (p, no_page())
    } else if status == STATUS_OK {
        if valid_utf8(body) {
            (p, PageActionView::Decode { text: decode_utf8(body) })
        } else {
            (p, PageActionView::Fail { error: PagerErrorView::Decode { reason: not_utf8_reason() } })
        }
    } else if status == STATUS_NOT_FOUND {
        (PagerView { cursor: Cursor::Done, ..p }, no_page())
    } else {
        (p, PageActionView::Fail { error: PagerErrorView::Request { status, body } })
    }
}

/// The cursor after the decoder's outcome, and the action it is answered
/// with.
///
/// A rejected text fails with the decoder's reason. A page whose records
/// cannot all be mapped fails with the mapping's error. Otherwise the
/// cursor moves by the page's next marker, and the page is yielded, as "no
/// page" where it holds no entry.
///
/// So "no page" is also the answer to a page that holds no entry but names
/// a next page. The listing is then not over: the cursor stands at the
/// page's marker, and the next poll asks for the page that starts there.
/// A caller that needs to tell the two apart looks at the cursor, not at
/// the answer.
pub open spec fn spec_decoded(p: PagerView, outcome: Result<EnumerationResults, String>) -> (
    PagerView,
    PageActionView,
) {
    if p.cursor is Done {
        (p, no_page())
    } else {
        match outcome {
            Err(reason) => (
                p,
                PageActionView::Fail { error: PagerErrorView::Decode { reason: reason@ } },
            ),
            Ok(page) => match spec_map_page(p.path, page) {
                Err(error) => (p, PageActionView::Fail { error }),
                Ok(entries) => (
                    PagerView { cursor: spec_after_page(page.next_marker@), ..p },
                    PageActionView::Yield {
                        page: if entries.len() == 0 {
                            None
                        } else {
                            Some(entries)
                        },
                    },
                ),
            },
        }
    }
}

/// One step of the cursor: the cursor after `event`, and the action that
/// the event is answered with.
pub open spec fn spec_next(p: PagerView, event: PageEvent) -> (PagerView, PageActionView) {
    match event {
        PageEvent::Poll => (p, spec_poll(p)),
        PageEvent::Response { status, body } => spec_response(p, status, body@),
        PageEvent::Decoded { outcome } => spec_decoded(p, outcome),
    }
}

/// The cursor of one listing.
#[derive(Clone, Debug, PartialEq, Eq)]
pub struct AzfilePager {
    path: String,
    limit: Option<usize>,
    state: CursorState,
}

impl View for AzfilePager {
    type V = PagerView;

    closed spec fn view(&self) -> PagerView {
        PagerView { path: self.path@, limit: self.limit, cursor: self.state@ }
    }
}

impl AzfilePager {
    /// A cursor at the start of the listing of `path`, asking for at most
    /// `limit` entries a page.
    pub fn new(path: String, limit: Option<usize>) -> (r: Self)
        ensures
            r@ == fresh(path@, limit),
    {
        AzfilePager { path, limit, state: CursorState::start() }
    }

    /// The listed path, as the cursor was given it.
    pub fn path(&self) -> (r: &str)
        ensures
            r@ == self@.path,
    {
        self.path.as_str()
    }

    /// The largest number of entries asked for a page, if any.
    pub fn limit(&self) -> (r: Option<usize>)
        ensures
            r == self@.limit,
    {
        self.limit
    }

    /// Whether the listing is over.
    pub fn is_done(&self) -> (r: bool)
        ensures
            r == (self@.cursor is Done),
    {
        match &self.state {
            CursorState::Done => true,
            CursorState::Active { .. } => false,
        }
    }

    /// Where the next page starts; `None` once the listing is over.
    pub fn continuation(&self) -> (r: Option<&str>)
        ensures
            match self@.cursor {
                Cursor::Active { token } => r is Some && r->0@ == token,
                Cursor::Done => r is None,
            },
    {
        match &self.state {
            CursorState::Done => None,
            CursorState::Active { token } => Some(token.as_str()),
        }
    }

    /// Answers a poll. The cursor stays where it is.
    pub fn on_poll(&self) -> (action: PageAction)
        ensures
            action@ == spec_poll(self@),
    {
        match &self.state {
            CursorState::Done => PageAction::Yield { page: None },
            CursorState::Active { token } => PageAction::Issue {
                request: ListRequest {
                    path: self.path.clone(),
                    limit: self.limit,
                    continuation: token.clone(),
                },
            },
        }
    }

    /// Takes the response to the request that the cursor handed out.
    pub fn on_response(&mut self, status: u16, body: Vec<u8>) -> (action: PageAction)
        ensures
            (final(self)@, action@) == spec_response(old(self)@, status, body@),
    {
        if self.is_done() {
            PageAction::Yield { page: None }
        } else if status == STATUS_OK {
            match body_text(&body) {
                Some(text) => PageAction::Decode { text },
                None => PageAction::Fail {
                    error: PagerError::Decode {
                        reason: "response body is not valid UTF-8".to_owned(),
                    },
                },
            }
        } else if status == STATUS_NOT_FOUND {
            self.state = CursorState::Done;
            PageAction::Yield { page: None }
        } else {
            PageAction::Fail { error: PagerError::Request { status, body } }
        }
    }

    /// Takes the decoder's outcome for the text that the cursor handed out.
    pub fn on_decoded(&mut self, outcome: Result<EnumerationResults, String>) -> (action:
        PageAction)
        ensures
            (final(self)@, action@) == spec_decoded(old(self)@, outcome),
    {
        if self.is_done() {
            return PageAction::Yield { page: None };
        }
        match outcome {
            Err(reason) => PageAction::Fail { error: PagerError::Decode { reason } },
            Ok(page) => match map_page(self.path.as_str(), &page) {
                Err(error) => PageAction::Fail { error },
                Ok(entries) => {
                    self.state = CursorState::after_page(page.next_marker);
                    if entries.len() == 0 {
                        PageAction::Yield { page: None }
                    } else {
                        PageAction::Yield { page: Some(entries) }
                    }
                },
            },
        }
    }

    /// One step of the cursor: takes what the caller reports, moves, and
    /// says what the caller is to do next.
    ///
    /// A fetch starts with [`PageEvent::Poll`] and is over with the first
    /// [`PageAction::Yield`] or [`PageAction::Fail`]; in between the caller
    /// does what each action asks and reports the result.
    pub fn next(&mut self, event: PageEvent) -> (action: PageAction)
        ensures
            (final(self)@, action@) == spec_next(old(self)@, event),
    {
        match event {
            PageEvent::Poll => self.on_poll(),
            PageEvent::Response { status, body } => self.on_response(status, body),
            PageEvent::Decoded { outcome } => self.on_decoded(outcome),
        }
    }
}

} // verus!
