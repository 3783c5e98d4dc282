//! The driver: which request comes next, and what a response does to the
//! listing. The caller sends each request and hands back what came of it.

use vstd::prelude::*;
use crate::json::json_document;
use crate::request::{
    level_encodes,
    request_of,
    ConsistencyLevelView,
    HeaderLine,
    ListUsersBuilder,
    ListUsersBuilderView,
    PageRequest,
    PageRequestView,
    RequestError,
};
use crate::response::{
    continuation_of,
    page_from,
    session_of,
    DecodeError,
    ListUsersResponse,
    MetadataFault,
};
use crate::text::lemma_text_value_encodes;
use crate::wire::{first_text, header_lines, HeaderFault};
use vstd::utf8::encode_utf8;

verus! {

/// Where a listing stands: the token to continue from, if the server gave
/// one, and whether the listing is over.
pub struct Progress {
    pub continuation: Option<Seq<char>>,
    pub done: bool,
}

/// A listing before its first request.
pub open spec fn start() -> Progress {
    Progress { continuation: None, done: false }
}

/// A listing that is taken up again at a token.
pub open spec fn start_at(token: Seq<char>) -> Progress {
    Progress { continuation: Some(token), done: false }
}

/// A listing after a page: it goes on from the page's token, or is over
/// where the page has none. A listing that is over stays as it is.
pub open spec fn after_page(progress: Progress, continuation: Option<Seq<char>>) -> Progress {
    if progress.done {
        progress
    } else {
        Progress { continuation, done: continuation is None }
    }
}

/// A listing after a failure: it is over.
pub open spec fn after_failure(progress: Progress) -> Progress {
    Progress { done: true, ..progress }
}

/// How many of the pages that a server has in store a listing asks for. The
/// pages are given by their continuation tokens, in the server's order. The
/// listing asks for the next page as long as it is not over.
pub open spec fn pages_fetched(progress: Progress, pages: Seq<Option<Seq<char>>>) -> nat
    decreases pages.len(),
{
    if progress.done || pages.len() == 0 {
        0
    } else {
        1 + pages_fetched(after_page(progress, pages[0]), pages.skip(1))
    }
}

/// Where a listing stands after the pages that it asked for have come in.
pub open spec fn after_pages(progress: Progress, pages: Seq<Option<Seq<char>>>) -> Progress
    decreases pages.len(),
{
    if progress.done || pages.len() == 0 {
        progress
    } else {
        after_pages(after_page(progress, pages[0]), pages.skip(1))
    }
}

/// Pages of which all but the last carry a continuation token.
pub open spec fn ends_with_last_page(pages: Seq<Option<Seq<char>>>) -> bool {
    &&& pages.len() > 0
    &&& pages.last() is None
    &&& forall|i: int| 0 <= i < pages.len() - 1 ==> (#[trigger] pages[i]) is Some
}

/// A listing that is not over asks for each of the pages up to the first one
/// without a continuation token, and then is over: it asks for nothing that
/// the server may hold after that page.
pub proof fn lemma_listing_ends(
    progress: Progress,
    pages: Seq<Option<Seq<char>>>,
    later: Seq<Option<Seq<char>>>,
)
    requires
        !progress.done,
        ends_with_last_page(pages),
    ensures
        pages_fetched(progress, pages + later) == pages.len(),
        after_pages(progress, pages + later).done,
        after_pages(progress, pages + later).continuation is None,
    decreases pages.len(),
{
    let all = pages + later;
    let next = after_page(progress, all[0]);
    assert(all[0] == pages[0]);
    assert(all.len() > 0);
    assert(pages_fetched(progress, all) == 1 + pages_fetched(next, all.skip(1)));
    assert(after_pages(progress, all) == after_pages(next, all.skip(1)));
    if pages.len() == 1 {
        assert(next.done);
        assert(pages_fetched(next, all.skip(1)) == 0);
        assert(after_pages(next, all.skip(1)) == next);
    } else {
        let rest = pages.skip(1);
        assert(all.skip(1) =~= rest + later);
        assert(rest.last() == pages.last());
        assert forall|i: int| 0 <= i < rest.len() - 1 implies (#[trigger] rest[i]) is Some by {
            assert(rest[i] == pages[i + 1]);
        }
        assert(pages[0] is Some);
        assert(!next.done);
        assert(ends_with_last_page(rest));
        lemma_listing_ends(next, rest, later);
    }
}

/// A continuation token that was read from a response goes back to the
/// server as it came: the request that is built for it carries, as its
/// continuation header, the bytes of the response's continuation header.
pub proof fn lemma_continuation_round_trip(
    config: ListUsersBuilderView,
    lines: Map<Seq<char>, Seq<Seq<u8>>>,
    token: Seq<char>,
)
    requires
        level_encodes(config.consistency_level),
        continuation_of(lines) == Ok::<Option<Seq<char>>, MetadataFault>(Some(token)),
    ensures
        request_of(config, Some(token)) is Ok,
        request_of(config, Some(token)).unwrap().headers.last() == (HeaderLine {
            name: "x-ms-continuation"@,
            value: lines["x-ms-continuation"@][0],
        }),
{
    let bytes = lines["x-ms-continuation"@][0];
    assert(first_text(lines, "x-ms-continuation"@) == Ok::<Seq<char>, HeaderFault>(token));
    lemma_text_value_encodes(bytes);
}

/// A session token that was read from a response can always be sent: the
/// level that asks to read on from it goes on the wire, and its session
/// header holds the bytes of the response's session header.
pub proof fn lemma_session_round_trip(lines: Map<Seq<char>, Seq<Seq<u8>>>, token: Seq<char>)
    requires
        session_of(lines) == Ok::<Seq<char>, MetadataFault>(token),
    ensures
        level_encodes(Some(ConsistencyLevelView::Session(token))),
        encode_utf8(token) == lines["x-ms-session-token"@][0],
{
    assert(first_text(lines, "x-ms-session-token"@) == Ok::<Seq<char>, HeaderFault>(token));
    lemma_text_value_encodes(lines["x-ms-session-token"@][0]);
}

/// Why a step of the listing gave no page.
#[derive(Debug)]
pub enum PageError<E> {
    /// No request could be built; nothing was sent.
    Request(RequestError),
    /// The transport failed; its error, as it came.
    Transport(E),
    /// The response could not be decoded.
    Decode(DecodeError),
}

/// The users of a database, page by page.
#[derive(Debug)]
pub struct ListUsers {
    builder: ListUsersBuilder,
    continuation: Option<String>,
    done: bool,
}

/// A listing as plain values: its configuration and where it stands.
pub struct ListUsersView {
    pub config: ListUsersBuilderView,
    pub progress: Progress,
}

impl View for ListUsers {
    type V = ListUsersView;

    closed spec fn view(&self) -> ListUsersView {
        ListUsersView {
            config: self.builder@,
            progress: Progress {
                continuation: match self.continuation {
                    Some(token) => Some(token@),
                    None => None,
                },
                done: self.done,
            },
        }
    }
}

impl ListUsersBuilder {
    /// The listing that this configuration describes, before its first
    /// request.
    pub fn into_stream(self) -> (r: ListUsers)
        ensures
            r@ == (ListUsersView { config: self@, progress: start() }),
    {
        ListUsers { builder: self, continuation: None, done: false }
    }
}

impl ListUsers {
    /// Takes a listing up again at a continuation token that an earlier
    /// page gave.
    pub fn resume(builder: ListUsersBuilder, continuation: String) -> (r: ListUsers)
        ensures
            r@ == (ListUsersView { config: builder@, progress: start_at(continuation@) }),
    {
        ListUsers { builder, continuation: Some(continuation), done: false }
    }

    /// Whether the listing is over.
    pub fn is_done(&self) -> (r: bool)
        ensures
            r == self@.progress.done,
    {
        self.done
    }

    /// The configuration of the listing.
    pub fn builder(&self) -> (r: &ListUsersBuilder)
        ensures
            r@ == self@.config,
    {
        &self.builder
    }

    /// The request to send next: none once the listing is over, else the
    /// request for the page at which the listing stands. Where that request
    /// cannot be built, the listing is over.
    pub fn next_request(&mut self) -> (r: Option<Result<PageRequest, RequestError>>)
        ensures
            final(self)@.config == old(self)@.config,
            match r {
                None => old(self)@.progress.done && final(self)@ == old(self)@,
                Some(Ok(request)) => {
                    &&& !old(self)@.progress.done
                    &&& request_of(old(self)@.config, old(self)@.progress.continuation) == Ok::<
                        PageRequestView,
                        RequestError,
                    >(request@)
                    &&& final(self)@ == old(self)@
                },
                Some(Err(e)) => {
                    &&& !old(self)@.progress.done
                    &&& request_of(old(self)@.config, old(self)@.progress.continuation) == Err::<
                        PageRequestView,
                        RequestError,
                    >(e)
                    &&& final(self)@.progress == after_failure(old(self)@.progress)
                },
            },
    {
        if self.done {
            return None;
        }
        let continuation: Option<&str> = match &self.continuation {
            Some(token) => Some(token.as_str()),
            None => None,
        };
        match self.builder.request(continuation) {
            Ok(request) => Some(Ok(request)),
            Err(e) => {
                self.done = true;
                Some(Err(e))
            },
        }
    }

    /// Takes what came of the request that was sent: the headers and the
    /// whole body of the response, or the transport's error. A response that
    /// decodes gives its page, and the listing goes on from the page's
    /// continuation token or is over where it has none. Anything else gives
    /// the error, and the listing is over.
    pub fn receive<E>(
        &mut self,
        outcome: Result<(&http::HeaderMap<http::HeaderValue>, &[u8]), E>,
    ) -> (r: Result<ListUsersResponse, PageError<E>>)
        ensures
            final(self)@.config == old(self)@.config,
            match outcome {
                Err(cause) => {
                    &&& r matches Err(PageError::Transport(e))
                    &&& e == cause
                    &&& final(self)@.progress == after_failure(old(self)@.progress)
                },
                Ok((headers, body)) => match page_from(
                    json_document(body@),
                    header_lines(*headers),
                ) {
                    Ok(page) => {
                        &&& r matches Ok(p)
                        &&& p@ == page
                        &&& final(self)@.progress == after_page(
                            old(self)@.progress,
                            page.continuation_token,
                        )
                    },
                    Err(failure) => {
                        &&& r matches Err(PageError::Decode(e))
                        &&& e@ == failure
                        &&& final(self)@.progress == after_failure(old(self)@.progress)
                    },
                },
            },
    {
        match outcome {
            Err(cause) => {
                self.done = true;
                Err(PageError::Transport(cause))
            },
            Ok((headers, body)) => match ListUsersResponse::try_from(headers, body) {
                Ok(page) => {
                    if !self.done {
                        self.continuation = page.continuation();
                        self.done = self.continuation.is_none();
                    }
                    Ok(page)
                },
                Err(e) => {
                    self.done = true;
                    Err(PageError::Decode(e))
                },
            },
        }
    }
}

} // verus!
