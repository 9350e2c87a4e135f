//! What holds of every listing, whatever the service answers.
//!
//! A fetch is what the caller does between asking for a page and getting an
//! answer: it polls the cursor, sends the request, reports the response
//! and, where the cursor asks for it, has the body decoded and reports the
//! outcome. [`spec_fetch`] puts these steps together; the theorems speak of
//! single steps, of whole fetches and of runs of arbitrary events.

use vstd::prelude::*;
use vstd::utf8::valid_utf8;
use crate::listing::EnumerationResults;
use crate::mapping::{all_readable, spec_map_page};
use crate::pager::{
    fresh, no_page, spec_after_page, spec_decoded, spec_next, spec_poll, spec_response, Cursor,
    ListRequestView, PageActionView, PageEvent, PagerView, STATUS_NOT_FOUND, STATUS_OK,
};

verus! {

/// The cursor `p`, with the listing over.
pub open spec fn ended(p: PagerView) -> PagerView {
    PagerView { cursor: Cursor::Done, ..p }
}

/// What one fetch comes to when the service answers with `status` and
/// `body` and the decoder, if it is asked, returns `outcome`: the cursor
/// after the fetch, and the action that ends it.
pub open spec fn spec_fetch(
    p: PagerView,
    status: u16,
    body: Seq<u8>,
    outcome: Result<EnumerationResults, String>,
) -> (PagerView, PageActionView) {
    if spec_poll(p) is Issue {
        let (q, action) = spec_response(p, status, body);
        if action is Decode {
            spec_decoded(q, outcome)
        } else {
            (q, action)
        }
    } else {
        (p, spec_poll(p))
    }
}

/// The cursor after a run of events, taken one after the other.
pub open spec fn after_events(p: PagerView, events: Seq<PageEvent>) -> PagerView
    decreases events.len(),
{
    if events.len() == 0 {
        p
    } else {
        after_events(spec_next(p, events[0]).0, events.drop_first())
    }
}

/// The cursor after it has taken a run of decoded pages, one after the
/// other.
pub open spec fn after_pages(p: PagerView, pages: Seq<EnumerationResults>) -> PagerView
    decreases pages.len(),
{
    if pages.len() == 0 {
        p
    } else {
        after_pages(spec_decoded(p, Ok(pages[0])).0, pages.drop_first())
    }
}

/// The action that answers the `i`-th event of a run that starts at `p`.
pub open spec fn action_at(p: PagerView, events: Seq<PageEvent>, i: int) -> PageActionView {
    spec_next(after_events(p, events.take(i)), events[i]).1
}

/// Every fetch comes to an end: it yields a page or "no page", or it
/// fails. A page that it yields holds at least one entry. The request it
/// sends is the one for the cursor's token, and it sends none once the
/// listing is over.
pub proof fn lemma_fetch_ends(
    p: PagerView,
    status: u16,
    body: Seq<u8>,
    outcome: Result<EnumerationResults, String>,
)
    ensures
        spec_fetch(p, status, body, outcome).1 is Yield || spec_fetch(
            p,
            status,
            body,
            outcome,
        ).1 is Fail,
        spec_fetch(p, status, body, outcome).1 matches PageActionView::Yield {
            page: Some(entries),
        } ==> entries.len() > 0,
        p.cursor is Done <==> !(spec_poll(p) is Issue),
        p.cursor matches Cursor::Active { token } ==> spec_poll(p) == (PageActionView::Issue {
            request: ListRequestView { path: p.path, limit: p.limit, continuation: token },
        }),
{
}

/// A listing that is over stays over: whatever is reported to it, and
/// however often, the cursor does not change, every answer is "no page",
/// and so no request is ever handed out again.
pub proof fn lemma_done_absorbs(p: PagerView, events: Seq<PageEvent>)
    requires
        p.cursor is Done,
    ensures
        after_events(p, events) == p,
        forall|i: int| 0 <= i < events.len() ==> #[trigger] action_at(p, events, i) == no_page(),
    decreases events.len(),
{
    if events.len() > 0 {
        lemma_done_absorbs(p, events.drop_first());
    }
    assert forall|i: int| 0 <= i < events.len() implies #[trigger] action_at(p, events, i)
        == no_page() by {
        lemma_done_absorbs(p, events.take(i));
    }
}

/// A fetch on a listing that is over returns "no page" without a request,
/// and leaves the cursor as it is.
pub proof fn lemma_fetch_after_done(
    p: PagerView,
    status: u16,
    body: Seq<u8>,
    outcome: Result<EnumerationResults, String>,
)
    requires
        p.cursor is Done,
    ensures
        !(spec_poll(p) is Issue),
        spec_fetch(p, status, body, outcome) == (p, no_page()),
{
}

/// A 404 response ends the listing, at whatever point it comes: the fetch
/// returns "no page", and from then on the cursor stays, every answer is
/// "no page", and no request is handed out again.
pub proof fn lemma_not_found_ends_listing(
    p: PagerView,
    body: Seq<u8>,
    outcome: Result<EnumerationResults, String>,
    later: Seq<PageEvent>,
)
    ensures
        spec_response(p, STATUS_NOT_FOUND, body) == (ended(p), no_page()),
        spec_fetch(p, STATUS_NOT_FOUND, body, outcome) == (ended(p), no_page()),
        after_events(ended(p), later) == ended(p),
        forall|i: int|
            0 <= i < later.len() ==> #[trigger] action_at(ended(p), later, i) == no_page(),
{
    lemma_done_absorbs(ended(p), later);
}

/// Where the service has nothing to list on the first fetch, because the
/// directory does not exist or because the first page holds no record and
/// names no next page, the fetch returns "no page" and the listing is
/// over.
pub proof fn lemma_nothing_to_list(
    path: Seq<char>,
    limit: Option<usize>,
    status: u16,
    body: Seq<u8>,
    outcome: Result<EnumerationResults, String>,
)
    requires
        status == STATUS_NOT_FOUND || (status == STATUS_OK && valid_utf8(body) && outcome is Ok
            && outcome->Ok_0.count() == 0 && outcome->Ok_0.next_marker@.len() == 0),
    ensures
        spec_fetch(fresh(path, limit), status, body, outcome) == (
            ended(fresh(path, limit)),
            no_page(),
        ),
{
    if status != STATUS_NOT_FOUND {
        let page = outcome->Ok_0;
        assert(page.stamps().len() == 0);
        assert(all_readable(page));
        assert(spec_map_page(path, page)->Ok_0.len() == 0);
    }
}

/// A page that names a next page leaves the listing open: the fetch yields,
/// the cursor moves to the page's marker, and the next fetch asks for the
/// page at that marker. That one fetch can end the listing: it does where
/// the answer is 404, and where it is a page that names no next page.
pub proof fn lemma_marker_moves_cursor(
    p: PagerView,
    body: Seq<u8>,
    page: EnumerationResults,
    last_body: Seq<u8>,
    last: Result<EnumerationResults, String>,
)
    requires
        p.cursor is Active,
        valid_utf8(body),
        all_readable(page),
        page.next_marker@.len() > 0,
    ensures
        spec_fetch(p, STATUS_OK, body, Ok(page)).1 is Yield,
        spec_fetch(p, STATUS_OK, body, Ok(page)).0 == (PagerView {
            cursor: Cursor::Active { token: page.next_marker@ },
            ..p
        }),
        spec_poll(spec_fetch(p, STATUS_OK, body, Ok(page)).0) == (PageActionView::Issue {
            request: ListRequestView {
                path: p.path,
                limit: p.limit,
                continuation: page.next_marker@,
            },
        }),
        spec_fetch(
            spec_fetch(p, STATUS_OK, body, Ok(page)).0,
            STATUS_NOT_FOUND,
            last_body,
            last,
        ).0.cursor is Done,
        valid_utf8(last_body) && last is Ok && all_readable(last->Ok_0)
            && last->Ok_0.next_marker@.len() == 0 ==> spec_fetch(
            spec_fetch(p, STATUS_OK, body, Ok(page)).0,
            STATUS_OK,
            last_body,
            last,
        ).0.cursor is Done,
{
}

/// Pages are taken strictly one after the other: after a run of pages, each
/// but the last naming a next page, the cursor stands where the last page
/// says, whatever the pages before it held. So the request that follows the
/// run starts at the last page's marker, and the listing is over exactly
/// where that marker is empty.
pub proof fn lemma_tokens_follow_markers(p: PagerView, pages: Seq<EnumerationResults>)
    requires
        p.cursor is Active,
        pages.len() > 0,
        forall|i: int| 0 <= i < pages.len() ==> all_readable(#[trigger] pages[i]),
        forall|i: int| 0 <= i < pages.len() - 1 ==> (#[trigger] pages[i]).next_marker@.len() > 0,
    ensures
        after_pages(p, pages) == (PagerView {
            cursor: spec_after_page(pages.last().next_marker@),
            ..p
        }),
        after_pages(p, pages).cursor is Done <==> pages.last().next_marker@.len() == 0,
    decreases pages.len(),
{
    let q = spec_decoded(p, Ok(pages[0])).0;
    let rest = pages.drop_first();
    assert(all_readable(pages[0]));
    if pages.len() == 1 {
        assert(after_pages(q, rest) == q);
    } else {
        assert(pages[0].next_marker@.len() > 0);
        assert forall|i: int| 0 <= i < rest.len() implies all_readable(#[trigger] rest[i]) by {
            assert(rest[i] == pages[i + 1]);
        }
        assert forall|i: int| 0 <= i < rest.len() - 1 implies (#[trigger] rest[i]).next_marker@.len()
            > 0 by {
            assert(rest[i] == pages[i + 1]);
        }
        lemma_tokens_follow_markers(q, rest);
        assert(rest.last() == pages.last());
    }
}

/// A step that fails leaves the cursor where it was, and so does a fetch
/// that fails: the same page can be asked for again.
pub proof fn lemma_failure_keeps_cursor(
    p: PagerView,
    event: PageEvent,
    status: u16,
    body: Seq<u8>,
    outcome: Result<EnumerationResults, String>,
)
    ensures
        spec_next(p, event).1 is Fail ==> spec_next(p, event).0 == p,
        spec_fetch(p, status, body, outcome).1 is Fail ==> spec_fetch(p, status, body, outcome).0
            == p,
{
}

/// The cursor moves only in two ways: it ends, or it takes the next marker
/// of a page. The listed path and the limit never change.
pub proof fn lemma_moves(p: PagerView, event: PageEvent)
    ensures
        spec_next(p, event).0.path == p.path,
        spec_next(p, event).0.limit == p.limit,
        spec_next(p, event).0.cursor != p.cursor ==> {
            ||| spec_next(p, event).0.cursor is Done
            ||| event matches PageEvent::Decoded { outcome: Ok(page) } && spec_next(
                p,
                event,
            ).0.cursor == spec_after_page(page.next_marker@)
        },
{
}

} // verus!
