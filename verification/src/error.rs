//! Why a fetch failed.

use vstd::prelude::*;

verus! {

/// The failure of one fetch. None of them changes the cursor, so the same
/// page can be fetched again.
#[derive(Clone, Debug, PartialEq, Eq)]
pub enum PagerError {
    /// The service answered with a status other than 200 and 404. The
    /// status and the body are handed on as they came.
    Request { status: u16, body: Vec<u8> },
    /// The body of a 200 response is not an enumeration document: it is
    /// not UTF-8, or the decoder rejected it for the given reason.
    Decode { reason: String },
    /// A record's last-modified value is not an RFC 2822 date.
    Timestamp { value: String },
}

/// A [`PagerError`] with its texts and bytes as sequences.
pub enum PagerErrorView {
    Request { status: u16, body: Seq<u8> },
    Decode { reason: Seq<char> },
    Timestamp { value: Seq<char> },
}

impl View for PagerError {
    type V = PagerErrorView;

    open spec fn view(&self) -> PagerErrorView {
        match *self {
            PagerError::Request { status, body } => PagerErrorView::Request { status, body: body@ },
            PagerError::Decode { reason } => PagerErrorView::Decode { reason: reason@ },
            PagerError::Timestamp { value } => PagerErrorView::Timestamp { value: value@ },
        }
    }
}

} // verus!
