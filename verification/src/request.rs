//! Building the request for one page.

use vstd::prelude::*;
use vstd::string::StringExecFns;
use vstd::utf8::encode_utf8;
use crate::text::{decimal_text, is_header_char, is_header_text};
use crate::wire::{
    append_line,
    header_lines,
    header_value_bytes,
    header_value_from_number,
    header_value_from_text,
    is_plain_name,
    try_append_header,
};

verus! {

/// `azure_core::Context`: what a caller hands down to the policies of its
/// pipeline. The library carries it and never looks into it.
#[verifier::external_type_specification]
#[verifier::external_body]
pub struct ExContext(azure_core::Context);

/// The number of entities that a context holds, as `azure_core::Context::len`
/// counts them.
pub uninterp spec fn context_len(context: azure_core::Context) -> nat;

/// `azure_core::Context::new`: a context that holds nothing yet.
#[verifier::external_body]
fn empty_context() -> (r: azure_core::Context)
    ensures
        context_len(r) == 0,
{
    azure_core::Context::new()
}

/// `Clone` for `azure_core::Context`: the copy equals the context it was made
/// from.
pub assume_specification[ <azure_core::Context as Clone>::clone ](
    context: &azure_core::Context,
) -> (r: azure_core::Context)
    ensures
        r == *context,
;

/// The consistency that a read asks of the server.
#[derive(Debug, PartialEq, Eq)]
pub enum ConsistencyLevel {
    Strong,
    Bounded,
    /// Reads that follow the session whose token is given.
    Session(String),
    ConsistentPrefix,
    Eventual,
}

/// A consistency level as plain values.
pub enum ConsistencyLevelView {
    Strong,
    Bounded,
    Session(Seq<char>),
    ConsistentPrefix,
    Eventual,
}

impl View for ConsistencyLevel {
    type V = ConsistencyLevelView;

    open spec fn view(&self) -> ConsistencyLevelView {
        match self {
            ConsistencyLevel::Strong => ConsistencyLevelView::Strong,
            ConsistencyLevel::Bounded => ConsistencyLevelView::Bounded,
            ConsistencyLevel::Session(token) => ConsistencyLevelView::Session(token@),
            ConsistencyLevel::ConsistentPrefix => ConsistencyLevelView::ConsistentPrefix,
            ConsistencyLevel::Eventual => ConsistencyLevelView::Eventual,
        }
    }
}

/// The name under which a level goes on the wire.
pub open spec fn level_name(level: ConsistencyLevelView) -> Seq<char> {
    match level {
        ConsistencyLevelView::Strong => "Strong"@,
        ConsistencyLevelView::Bounded => "Bounded"@,
        ConsistencyLevelView::Session(_) => "Session"@,
        ConsistencyLevelView::ConsistentPrefix => "Prefix"@,
        ConsistencyLevelView::Eventual => "Eventual"@,
    }
}

impl Clone for ConsistencyLevel {
    fn clone(&self) -> (r: Self)
        ensures
            r@ == self@,
    {
        match self {
            ConsistencyLevel::Strong => ConsistencyLevel::Strong,
            ConsistencyLevel::Bounded => ConsistencyLevel::Bounded,
            ConsistencyLevel::Session(token) => ConsistencyLevel::Session(token.clone()),
            ConsistencyLevel::ConsistentPrefix => ConsistencyLevel::ConsistentPrefix,
            ConsistencyLevel::Eventual => ConsistencyLevel::Eventual,
        }
    }
}

impl ConsistencyLevel {
    /// The name under which the level goes on the wire.
    pub fn name(&self) -> (r: &'static str)
        ensures
            r@ == level_name(self@),
            is_header_text(r@),
    {
        proof {
            reveal_strlit("Strong");
            reveal_strlit("Bounded");
            reveal_strlit("Session");
            reveal_strlit("Prefix");
            reveal_strlit("Eventual");
        }
        match self {
            ConsistencyLevel::Strong => "Strong",
            ConsistencyLevel::Bounded => "Bounded",
            ConsistencyLevel::Session(_) => "Session",
            ConsistencyLevel::ConsistentPrefix => "Prefix",
            ConsistencyLevel::Eventual => "Eventual",
        }
    }
}

/// One header of a request.
#[derive(Clone, Debug, PartialEq, Eq)]
pub struct RequestHeader {
    pub name: &'static str,
    pub value: http::HeaderValue,
}

/// A header as a name and the bytes of its value.
pub struct HeaderLine {
    pub name: Seq<char>,
    pub value: Seq<u8>,
}

impl View for RequestHeader {
    type V = HeaderLine;

    open spec fn view(&self) -> HeaderLine {
        HeaderLine { name: self.name@, value: header_value_bytes(self.value) }
    }
}

/// The request for one page: a `GET` of `path` with `headers`, in this order.
#[derive(Clone, Debug, PartialEq, Eq)]
pub struct PageRequest {
    pub path: String,
    pub headers: Vec<RequestHeader>,
}

/// A request as plain values.
pub struct PageRequestView {
    pub path: Seq<char>,
    pub headers: Seq<HeaderLine>,
}

impl View for PageRequest {
    type V = PageRequestView;

    open spec fn view(&self) -> PageRequestView {
        PageRequestView { path: self.path@, headers: self.headers@.map_values(|h: RequestHeader| h@) }
    }
}

/// Headers whose names are all plain.
pub open spec fn plain_names(headers: Seq<HeaderLine>) -> bool {
    forall|i: int| 0 <= i < headers.len() ==> is_plain_name((#[trigger] headers[i]).name)
}

/// The lines of a map after the headers were added to it, one after the
/// other.
pub open spec fn append_lines(
    lines: Map<Seq<char>, Seq<Seq<u8>>>,
    headers: Seq<HeaderLine>,
) -> Map<Seq<char>, Seq<Seq<u8>>>
    decreases headers.len(),
{
    if headers.len() == 0 {
        lines
    } else {
        append_line(
            append_lines(lines, headers.drop_last()),
            headers.last().name,
            headers.last().value,
        )
    }
}

impl PageRequest {
    /// Adds the headers of the request to a header map, in their order and
    /// behind what the map holds, and says whether the map took them all. It
    /// stops at the first header that the map refuses, so that the map then
    /// holds the headers before that one and none after it. A request
    /// without headers is always taken.
    pub fn write_headers(&self, headers: &mut http::HeaderMap<http::HeaderValue>) -> (ok: bool)
        ensures
            self@.headers.len() == 0 ==> ok,
            plain_names(self@.headers) ==> exists|count: int|
                {
                    &&& 0 <= count <= self@.headers.len()
                    &&& ok <==> count == self@.headers.len()
                    &&& header_lines(*final(headers)) == #[trigger] append_lines(
                        header_lines(*old(headers)),
                        self@.headers.take(count),
                    )
                },
            ok && plain_names(self@.headers) ==> header_lines(*final(headers)) == append_lines(
                header_lines(*old(headers)),
                self@.headers,
            ),
    {
        let ghost before = header_lines(*headers);
        let ghost lines = self@.headers;
        let mut i: usize = 0;
        assert(lines.take(0) =~= Seq::<HeaderLine>::empty());
        while i < self.headers.len()
            invariant
                i <= self.headers.len(),
                lines == self@.headers,
                lines.len() == self.headers.len(),
                before == header_lines(*old(headers)),
                plain_names(lines) ==> header_lines(*headers) == append_lines(
                    before,
                    lines.take(i as int),
                ),
            decreases self.headers.len() - i,
        {
            let header = &self.headers[i];
            assert(lines[i as int] == header@);
            assert(lines.take(i + 1).drop_last() =~= lines.take(i as int));
            assert(lines.take(i + 1).last() == lines[i as int]);
            if !try_append_header(headers, header.name, header.value.clone()) {
                assert(plain_names(lines) ==> header_lines(*headers) == append_lines(
                    before,
                    lines.take(i as int),
                ));
                return false;
            }
            i = i + 1;
        }
        assert(lines.take(i as int) =~= lines);
        true
    }
}

/// Why no request could be built.
#[derive(Clone, Copy, Debug, PartialEq, Eq, Structural)]
pub enum RequestError {
    /// The token of the session holds a character that no header can carry.
    InvalidSessionToken,
    /// The continuation token holds a character that no header can carry.
    InvalidContinuationToken,
}

/// The page size that goes on the wire for a hint: a hint that is not
/// positive asks for the server's own limit, written `-1`.
pub open spec fn wire_page_size(hint: i32) -> int {
    if hint <= 0 {
        -1
    } else {
        hint as int
    }
}

/// The path that lists the users of a database.
pub open spec fn users_path(database: Seq<char>) -> Seq<char> {
    "dbs/"@ + database + "/users"@
}

/// The headers that a level puts on a request: its name, and for a session
/// its token.
pub open spec fn level_lines(level: Option<ConsistencyLevelView>) -> Seq<HeaderLine> {
    match level {
        None => seq![],
        Some(ConsistencyLevelView::Session(token)) => seq![
            HeaderLine { name: "x-ms-consistency-level"@, value: encode_utf8("Session"@) },
            HeaderLine { name: "x-ms-session-token"@, value: encode_utf8(token) },
        ],
        Some(other) => seq![
            HeaderLine { name: "x-ms-consistency-level"@, value: encode_utf8(level_name(other)) },
        ],
    }
}

/// The header that carries a continuation token, byte for byte.
pub open spec fn continuation_lines(continuation: Option<Seq<char>>) -> Seq<HeaderLine> {
    match continuation {
        None => seq![],
        Some(token) => seq![HeaderLine { name: "x-ms-continuation"@, value: encode_utf8(token) }],
    }
}

/// The headers of the request for one page: those of the level if one was
/// chosen, the page size always, and the continuation token if there is one.
pub open spec fn request_lines(
    level: Option<ConsistencyLevelView>,
    hint: i32,
    continuation: Option<Seq<char>>,
) -> Seq<HeaderLine> {
    level_lines(level) + seq![
        HeaderLine { name: "x-ms-max-item-count"@, value: decimal_text(wire_page_size(hint)) },
    ] + continuation_lines(continuation)
}

/// Whether the level can go on the wire: the token of a session must be
/// header text.
pub open spec fn level_encodes(level: Option<ConsistencyLevelView>) -> bool {
    match level {
        Some(ConsistencyLevelView::Session(token)) => is_header_text(token),
        _ => true,
    }
}

/// Whether the continuation token can go on the wire.
pub open spec fn continuation_encodes(continuation: Option<Seq<char>>) -> bool {
    match continuation {
        Some(token) => is_header_text(token),
        None => true,
    }
}

/// What lists the users of one database: the database, the consistency to
/// ask for if it is not the account's own, the page size to hint at, and the
/// caller's context, which is carried along untouched.
#[derive(Debug)]
pub struct ListUsersBuilder {
    database_name: String,
    consistency_level: Option<ConsistencyLevel>,
    max_item_count: i32,
    context: azure_core::Context,
}

/// A configuration as plain values.
pub struct ListUsersBuilderView {
    pub database_name: Seq<char>,
    pub consistency_level: Option<ConsistencyLevelView>,
    pub max_item_count: i32,
    pub context: azure_core::Context,
}

impl View for ListUsersBuilder {
    type V = ListUsersBuilderView;

    closed spec fn view(&self) -> ListUsersBuilderView {
        ListUsersBuilderView {
            database_name: self.database_name@,
            consistency_level: match self.consistency_level {
                Some(level) => Some(level@),
                None => None,
            },
            max_item_count: self.max_item_count,
            context: self.context,
        }
    }
}

/// The text of a continuation token, if there is one.
pub open spec fn continuation_view(continuation: Option<&str>) -> Option<Seq<char>> {
    match continuation {
        Some(token) => Some(token@),
        None => None,
    }
}

/// The request that a configuration asks for, given where to continue.
pub open spec fn request_of(
    config: ListUsersBuilderView,
    continuation: Option<Seq<char>>,
) -> Result<PageRequestView, RequestError> {
    if !level_encodes(config.consistency_level) {
        Err(RequestError::InvalidSessionToken)
    } else if !continuation_encodes(continuation) {
        Err(RequestError::InvalidContinuationToken)
    } else {
        Ok(
            PageRequestView {
                path: users_path(config.database_name),
                headers: request_lines(
                    config.consistency_level,
                    config.max_item_count,
                    continuation,
                ),
            },
        )
    }
}

/// A continuation token goes on the wire byte for byte: the request that is
/// built for a token ends in the continuation header, and that header holds
/// the token's bytes.
pub proof fn lemma_request_carries_token(config: ListUsersBuilderView, token: Seq<char>)
    requires
        request_of(config, Some(token)) is Ok,
    ensures
        request_of(config, Some(token)).unwrap().headers.last() == (HeaderLine {
            name: "x-ms-continuation"@,
            value: encode_utf8(token),
        }),
{
}

/// The headers of a request that was built have plain names.
pub proof fn lemma_request_names_are_plain(
    config: ListUsersBuilderView,
    continuation: Option<Seq<char>>,
)
    requires
        request_of(config, continuation) is Ok,
    ensures
        plain_names(request_of(config, continuation).unwrap().headers),
{
    reveal_strlit("x-ms-consistency-level");
    reveal_strlit("x-ms-session-token");
    reveal_strlit("x-ms-max-item-count");
    reveal_strlit("x-ms-continuation");
    assert(is_plain_name("x-ms-consistency-level"@));
    assert(is_plain_name("x-ms-session-token"@));
    assert(is_plain_name("x-ms-max-item-count"@));
    assert(is_plain_name("x-ms-continuation"@));
}

/// Adding headers to a map leaves a name absent that none of them has.
pub proof fn lemma_append_lines_keeps_absent(
    lines: Map<Seq<char>, Seq<Seq<u8>>>,
    headers: Seq<HeaderLine>,
    name: Seq<char>,
)
    requires
        !lines.contains_key(name),
        forall|i: int| 0 <= i < headers.len() ==> (#[trigger] headers[i]).name != name,
    ensures
        !append_lines(lines, headers).contains_key(name),
    decreases headers.len(),
{
    if headers.len() > 0 {
        let front = headers.drop_last();
        assert forall|i: int| 0 <= i < front.len() implies (#[trigger] front[i]).name != name by {
            assert(front[i] == headers[i]);
        }
        lemma_append_lines_keeps_absent(lines, front, name);
        assert(headers.last() == headers[headers.len() - 1]);
    }
}

/// A request that was built for a continuation token and written into a map
/// that had no continuation header leaves the token there, byte for byte,
/// as the one value under `x-ms-continuation`.
pub proof fn lemma_written_request_carries_token(
    lines: Map<Seq<char>, Seq<Seq<u8>>>,
    config: ListUsersBuilderView,
    token: Seq<char>,
)
    requires
        request_of(config, Some(token)) is Ok,
        !lines.contains_key("x-ms-continuation"@),
    ensures
        append_lines(lines, request_of(config, Some(token)).unwrap().headers).contains_key(
            "x-ms-continuation"@,
        ),
        append_lines(
            lines,
            request_of(config, Some(token)).unwrap().headers,
        )["x-ms-continuation"@] == seq![encode_utf8(token)],
{
    let headers = request_of(config, Some(token)).unwrap().headers;
    let front = headers.drop_last();
    reveal_strlit("x-ms-consistency-level");
    reveal_strlit("x-ms-session-token");
    reveal_strlit("x-ms-max-item-count");
    reveal_strlit("x-ms-continuation");
    assert("x-ms-consistency-level"@.len() != "x-ms-continuation"@.len());
    assert("x-ms-session-token"@.len() != "x-ms-continuation"@.len());
    assert("x-ms-max-item-count"@.len() != "x-ms-continuation"@.len());
    assert forall|i: int| 0 <= i < front.len() implies (#[trigger] front[i]).name
        != "x-ms-continuation"@ by {
        assert(front[i] == headers[i]);
    }
    lemma_append_lines_keeps_absent(lines, front, "x-ms-continuation"@);
}

/// A continuation token that holds a line feed is refused: no request is
/// built for it, whatever the page size, and the failure names the
/// continuation token unless the session token is refused before it.
pub proof fn lemma_line_feed_is_refused(config: ListUsersBuilderView, token: Seq<char>)
    requires
        token.contains('\n'),
    ensures
        request_of(config, Some(token)) is Err,
        level_encodes(config.consistency_level) ==> request_of(config, Some(token)) == Err::<
            PageRequestView,
            RequestError,
        >(RequestError::InvalidContinuationToken),
{
    let i = choose|i: int| 0 <= i < token.len() && token[i] == '\n';
    assert(!is_header_char(token[i]));
}

impl Clone for ListUsersBuilder {
    /// A configuration of its own that equals this one.
    fn clone(&self) -> (r: Self)
        ensures
            r@ == self@,
    {
        ListUsersBuilder {
            database_name: self.database_name.clone(),
            consistency_level: match &self.consistency_level {
                Some(level) => Some(level.clone()),
                None => None,
            },
            max_item_count: self.max_item_count,
            context: self.context.clone(),
        }
    }
}

impl ListUsersBuilder {
    /// Lists the users of the named database with the account's consistency,
    /// the server's page size and an empty context.
    pub fn new(database_name: String) -> (r: Self)
        ensures
            r@.database_name == database_name@,
            r@.consistency_level is None,
            r@.max_item_count == -1,
            context_len(r@.context) == 0,
    {
        ListUsersBuilder {
            database_name,
            consistency_level: None,
            max_item_count: -1,
            context: empty_context(),
        }
    }

    /// Asks for the given consistency in place of the account's.
    pub fn consistency_level(self, consistency_level: ConsistencyLevel) -> (r: Self)
        ensures
            r@ == (ListUsersBuilderView { consistency_level: Some(consistency_level@), ..self@ }),
    {
        ListUsersBuilder { consistency_level: Some(consistency_level), ..self }
    }

    /// Hints at a page size; a hint that is not positive leaves it to the
    /// server.
    pub fn max_item_count(self, max_item_count: i32) -> (r: Self)
        ensures
            r@ == (ListUsersBuilderView { max_item_count, ..self@ }),
    {
        ListUsersBuilder { max_item_count, ..self }
    }

    /// Carries the given context along.
    pub fn context(self, context: azure_core::Context) -> (r: Self)
        ensures
            r@ == (ListUsersBuilderView { context, ..self@ }),
    {
        ListUsersBuilder { context, ..self }
    }

    /// The database whose users are listed.
    pub fn database_name(&self) -> (r: &str)
        ensures
            r@ == self@.database_name,
    {
        self.database_name.as_str()
    }

    /// The context that is carried along.
    pub fn caller_context(&self) -> (r: &azure_core::Context)
        ensures
            *r == self@.context,
    {
        &self.context
    }

    /// Builds the request for the page that follows `continuation`, or for
    /// the first page when there is none. Nothing is sent.
    pub fn request(&self, continuation: Option<&str>) -> (r: Result<PageRequest, RequestError>)
        ensures
            match r {
                Ok(request) => request_of(self@, continuation_view(continuation)) == Ok::<
                    PageRequestView,
                    RequestError,
                >(request@),
                Err(e) => request_of(self@, continuation_view(continuation)) == Err::<
                    PageRequestView,
                    RequestError,
                >(e),
            },
    {
        let mut headers: Vec<RequestHeader> = Vec::new();
        let ghost level = self@.consistency_level;
        match &self.consistency_level {
            Some(chosen) => {
                let name = chosen.name();
                let value = header_value_from_text(name);
                assert(value is Some);
                headers.push(RequestHeader { name: "x-ms-consistency-level", value: value.unwrap() });
                match chosen {
                    ConsistencyLevel::Session(token) => {
                        match header_value_from_text(token.as_str()) {
                            Some(value) => {
                                headers.push(RequestHeader { name: "x-ms-session-token", value });
                            },
                            None => {
                                return Err(RequestError::InvalidSessionToken);
                            },
                        }
                    },
                    _ => {},
                }
            },
            None => {},
        }
        assert(headers@.map_values(|h: RequestHeader| h@) =~= level_lines(level));
        let size: i32 = if self.max_item_count <= 0 {
            -1
        } else {
            self.max_item_count
        };
        headers.push(RequestHeader { name: "x-ms-max-item-count", value: header_value_from_number(size) });
        match continuation {
            Some(token) => {
                match header_value_from_text(token) {
                    Some(value) => {
                        headers.push(RequestHeader { name: "x-ms-continuation", value });
                    },
                    None => {
                        return Err(RequestError::InvalidContinuationToken);
                    },
                }
            },
            None => {},
        }
        assert(headers@.map_values(|h: RequestHeader| h@) =~= request_lines(
            level,
            self.max_item_count,
            continuation_view(continuation),
        ));
        let path = String::from_str("dbs/").concat(self.database_name.as_str()).concat("/users");
        Ok(PageRequest { path, headers })
    }
}

} // verus!
