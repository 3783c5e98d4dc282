//! Decoding the response for one page: the body, and the four values that
//! the server reports in headers.

use vstd::prelude::*;
use crate::activity::{parse_uuid, uuid_parse};
use crate::body::{decode_body, page_of, BodyFault, BodyField, User, UserView};
use crate::charge::{is_charge_numeral, RequestCharge};
use crate::json::{json_document, JsonTree};
use crate::request::{ConsistencyLevel, ConsistencyLevelView};
use crate::wire::{
    continuation_text,
    first_text,
    header_lines,
    session_token_text,
    text_from_headers,
    HeaderFault,
};

verus! {

/// One of the values that the server reports in headers.
#[derive(Clone, Copy, Debug, PartialEq, Eq, Structural)]
pub enum MetadataField {
    RequestCharge,
    ActivityId,
    SessionToken,
    ContinuationToken,
}

/// What is wrong with a header.
#[derive(Clone, Copy, Debug, PartialEq, Eq, Structural)]
pub enum MetadataFault {
    /// The response has no such header.
    Missing,
    /// The header holds a byte that is not text.
    NotText,
    /// The header is text, but not of the kind that the value needs.
    Malformed,
}

/// Why a response could not be decoded.
#[derive(Clone, Debug, PartialEq, Eq)]
pub enum DecodeError {
    /// The body is no JSON document; the parser's message.
    Syntax(String),
    /// A part of the body does not fit a page.
    Body(BodyField),
    /// A header is missing or wrong.
    Metadata(MetadataField, MetadataFault),
}

/// A failure to decode as plain values.
pub enum DecodeFailure {
    Syntax(Seq<char>),
    Body(BodyField),
    Metadata(MetadataField, MetadataFault),
}

impl View for DecodeError {
    type V = DecodeFailure;

    open spec fn view(&self) -> DecodeFailure {
        match self {
            DecodeError::Syntax(message) => DecodeFailure::Syntax(message@),
            DecodeError::Body(field) => DecodeFailure::Body(*field),
            DecodeError::Metadata(field, fault) => DecodeFailure::Metadata(*field, *fault),
        }
    }
}

/// A fault of a lookup as a fault of the value that was looked up.
pub open spec fn lookup_fault(fault: HeaderFault) -> MetadataFault {
    match fault {
        HeaderFault::Missing => MetadataFault::Missing,
        HeaderFault::NotText => MetadataFault::NotText,
    }
}

/// The request charge that the headers report: the text under
/// `x-ms-request-charge`, which must be a numeral that can be a charge.
pub open spec fn charge_of(lines: Map<Seq<char>, Seq<Seq<u8>>>) -> Result<
    Seq<char>,
    MetadataFault,
> {
    match first_text(lines, "x-ms-request-charge"@) {
        Ok(text) => if is_charge_numeral(text) {
            Ok(text)
        } else {
            Err(MetadataFault::Malformed)
        },
        Err(fault) => Err(lookup_fault(fault)),
    }
}

/// The activity id that the headers report: the identifier that the text
/// under `x-ms-activity-id` spells.
pub open spec fn activity_of(lines: Map<Seq<char>, Seq<Seq<u8>>>) -> Result<u128, MetadataFault> {
    match first_text(lines, "x-ms-activity-id"@) {
        Ok(text) => match uuid_parse(text) {
            Some(id) => Ok(id),
            None => Err(MetadataFault::Malformed),
        },
        Err(fault) => Err(lookup_fault(fault)),
    }
}

/// The session token that the headers report: the text under
/// `x-ms-session-token`, as it is.
pub open spec fn session_of(lines: Map<Seq<char>, Seq<Seq<u8>>>) -> Result<
    Seq<char>,
    MetadataFault,
> {
    match first_text(lines, "x-ms-session-token"@) {
        Ok(text) => Ok(text),
        Err(fault) => Err(lookup_fault(fault)),
    }
}

/// The continuation token that the headers report: the text under
/// `x-ms-continuation`, as it is, or none where there is no such header.
pub open spec fn continuation_of(lines: Map<Seq<char>, Seq<Seq<u8>>>) -> Result<
    Option<Seq<char>>,
    MetadataFault,
> {
    match first_text(lines, "x-ms-continuation"@) {
        Ok(text) => Ok(Some(text)),
        Err(HeaderFault::Missing) => Ok(None),
        Err(HeaderFault::NotText) => Err(MetadataFault::NotText),
    }
}

/// Reads the request charge out of the headers of a response.
pub fn request_charge_from_headers(headers: &http::HeaderMap<http::HeaderValue>) -> (r: Result<
    RequestCharge,
    MetadataFault,
>)
    ensures
        match r {
            Ok(charge) => charge_of(header_lines(*headers)) == Ok::<Seq<char>, MetadataFault>(
                charge@,
            ),
            Err(fault) => charge_of(header_lines(*headers)) == Err::<Seq<char>, MetadataFault>(
                fault,
            ),
        },
{
    proof {
        reveal_strlit("x-ms-request-charge");
    }
    match text_from_headers(headers, "x-ms-request-charge") {
        Ok(text) => match RequestCharge::parse(text.as_str()) {
            Some(charge) => Ok(charge),
            None => Err(MetadataFault::Malformed),
        },
        Err(HeaderFault::Missing) => Err(MetadataFault::Missing),
        Err(HeaderFault::NotText) => Err(MetadataFault::NotText),
    }
}

/// Reads the activity id out of the headers of a response.
pub fn activity_id_from_headers(headers: &http::HeaderMap<http::HeaderValue>) -> (r: Result<
    u128,
    MetadataFault,
>)
    ensures
        r == activity_of(header_lines(*headers)),
{
    proof {
        reveal_strlit("x-ms-activity-id");
    }
    match text_from_headers(headers, "x-ms-activity-id") {
        Ok(text) => match parse_uuid(text.as_str()) {
            Some(id) => Ok(id),
            None => Err(MetadataFault::Malformed),
        },
        Err(HeaderFault::Missing) => Err(MetadataFault::Missing),
        Err(HeaderFault::NotText) => Err(MetadataFault::NotText),
    }
}

/// Reads the session token out of the headers of a response.
pub fn session_token_from_headers(headers: &http::HeaderMap<http::HeaderValue>) -> (r: Result<
    String,
    MetadataFault,
>)
    ensures
        match r {
            Ok(token) => session_of(header_lines(*headers)) == Ok::<Seq<char>, MetadataFault>(
                token@,
            ),
            Err(fault) => session_of(header_lines(*headers)) == Err::<Seq<char>, MetadataFault>(
                fault,
            ),
        },
{
    match session_token_text(headers) {
        Ok(token) => Ok(token),
        Err(HeaderFault::Missing) => Err(MetadataFault::Missing),
        Err(HeaderFault::NotText) => Err(MetadataFault::NotText),
    }
}

/// Reads the continuation token out of the headers of a response. A response
/// without one is the last page.
pub fn continuation_token_from_headers(headers: &http::HeaderMap<http::HeaderValue>) -> (r:
    Result<Option<String>, MetadataFault>)
    ensures
        match r {
            Ok(Some(token)) => continuation_of(header_lines(*headers)) == Ok::<
                Option<Seq<char>>,
                MetadataFault,
            >(Some(token@)),
            Ok(None) => continuation_of(header_lines(*headers)) == Ok::<
                Option<Seq<char>>,
                MetadataFault,
            >(None),
            Err(fault) => continuation_of(header_lines(*headers)) == Err::<
                Option<Seq<char>>,
                MetadataFault,
            >(fault),
        },
{
    match continuation_text(headers) {
        Ok(token) => Ok(token),
        Err(_) => Err(MetadataFault::NotText),
    }
}

/// One page of users, with what the server reported about the request.
#[derive(Clone, Debug, PartialEq, Eq)]
pub struct ListUsersResponse {
    /// The users of the page, in the server's order.
    pub users: Vec<User>,
    /// The server's identifier of the listed scope.
    pub rid: String,
    /// The number of users that the server declares for the page.
    pub count: u32,
    /// What the request cost.
    pub charge: RequestCharge,
    /// The identifier under which the server filed the request.
    pub activity_id: u128,
    /// Where the session stands after the request.
    pub session_token: String,
    /// Where the next page starts; none after the last page.
    pub continuation_token: Option<String>,
}

/// A page as plain values.
pub struct ListUsersResponseView {
    pub users: Seq<UserView>,
    pub rid: Seq<char>,
    pub count: u32,
    pub charge: Seq<char>,
    pub activity_id: u128,
    pub session_token: Seq<char>,
    pub continuation_token: Option<Seq<char>>,
}

impl View for ListUsersResponse {
    type V = ListUsersResponseView;

    open spec fn view(&self) -> ListUsersResponseView {
        ListUsersResponseView {
            users: self.users@.map_values(|u: User| u@),
            rid: self.rid@,
            count: self.count,
            charge: self.charge@,
            activity_id: self.activity_id,
            session_token: self.session_token@,
            continuation_token: match self.continuation_token {
                Some(token) => Some(token@),
                None => None,
            },
        }
    }
}

/// The page that a response holds, given what the parser made of its body
/// and its headers, or the first thing that is wrong with it. The body is looked at
/// first, then the request charge, the activity id, the session token and
/// the continuation token.
pub open spec fn page_from(
    document: Result<JsonTree, Seq<char>>,
    lines: Map<Seq<char>, Seq<Seq<u8>>>,
) -> Result<ListUsersResponseView, DecodeFailure> {
    match document {
        Err(message) => Err(DecodeFailure::Syntax(message)),
        Ok(tree) => match page_of(tree) {
            Err(field) => Err(DecodeFailure::Body(field)),
            Ok(body) => match charge_of(lines) {
                Err(fault) => Err(DecodeFailure::Metadata(MetadataField::RequestCharge, fault)),
                Ok(charge) => match activity_of(lines) {
                    Err(fault) => Err(DecodeFailure::Metadata(MetadataField::ActivityId, fault)),
                    Ok(activity_id) => match session_of(lines) {
                        Err(fault) => Err(
                            DecodeFailure::Metadata(MetadataField::SessionToken, fault),
                        ),
                        Ok(session_token) => match continuation_of(lines) {
                            Err(fault) => Err(
                                DecodeFailure::Metadata(MetadataField::ContinuationToken, fault),
                            ),
                            Ok(continuation_token) => Ok(
                                ListUsersResponseView {
                                    users: body.users,
                                    rid: body.rid,
                                    count: body.count,
                                    charge,
                                    activity_id,
                                    session_token,
                                    continuation_token,
                                },
                            ),
                        },
                    },
                },
            },
        },
    }
}

/// A response that decodes gives a page that is complete: its charge is the
/// numeral of the charge header, whose value is a natural number multiplied
/// by a power of ten, so it is not negative; its activity id is the
/// identifier that the activity header spells; its session token is the text
/// of the session header; and it holds as many users as it declares.
pub proof fn lemma_metadata_complete(
    document: Result<JsonTree, Seq<char>>,
    lines: Map<Seq<char>, Seq<Seq<u8>>>,
    page: ListUsersResponseView,
)
    requires
        page_from(document, lines) == Ok::<ListUsersResponseView, DecodeFailure>(page),
    ensures
        is_charge_numeral(page.charge),
        first_text(lines, "x-ms-request-charge"@) == Ok::<Seq<char>, HeaderFault>(page.charge),
        first_text(lines, "x-ms-activity-id"@) matches Ok(text) && uuid_parse(text) == Some(
            page.activity_id,
        ),
        first_text(lines, "x-ms-session-token"@) == Ok::<Seq<char>, HeaderFault>(
            page.session_token,
        ),
        page.users.len() == page.count,
{
}

/// The session token of a page is not empty where the session header of the
/// response is not.
pub proof fn lemma_session_token_is_kept(
    document: Result<JsonTree, Seq<char>>,
    lines: Map<Seq<char>, Seq<Seq<u8>>>,
    page: ListUsersResponseView,
)
    requires
        page_from(document, lines) == Ok::<ListUsersResponseView, DecodeFailure>(page),
        lines.contains_key("x-ms-session-token"@),
        lines["x-ms-session-token"@].len() > 0,
        lines["x-ms-session-token"@][0].len() > 0,
    ensures
        page.session_token.len() > 0,
{
}

/// A response whose body is a page and which lacks one of the three headers
/// that every response must have fails to decode, and the failure names the
/// first of them that is missing.
pub proof fn lemma_missing_header_is_named(
    document: JsonTree,
    lines: Map<Seq<char>, Seq<Seq<u8>>>,
)
    requires
        page_of(document) is Ok,
    ensures
        !lines.contains_key("x-ms-request-charge"@) ==> page_from(Ok(document), lines) == Err::<
            ListUsersResponseView,
            DecodeFailure,
        >(DecodeFailure::Metadata(MetadataField::RequestCharge, MetadataFault::Missing)),
        charge_of(lines) is Ok && !lines.contains_key("x-ms-activity-id"@) ==> page_from(
            Ok(document),
            lines,
        ) == Err::<ListUsersResponseView, DecodeFailure>(
            DecodeFailure::Metadata(MetadataField::ActivityId, MetadataFault::Missing),
        ),
        charge_of(lines) is Ok && activity_of(lines) is Ok && !lines.contains_key(
            "x-ms-session-token"@,
        ) ==> page_from(Ok(document), lines) == Err::<ListUsersResponseView, DecodeFailure>(
            DecodeFailure::Metadata(MetadataField::SessionToken, MetadataFault::Missing),
        ),
        !lines.contains_key("x-ms-request-charge"@) ==> charge_of(lines) == Err::<
            Seq<char>,
            MetadataFault,
        >(MetadataFault::Missing),
        !lines.contains_key("x-ms-activity-id"@) ==> activity_of(lines) == Err::<
            u128,
            MetadataFault,
        >(MetadataFault::Missing),
        !lines.contains_key("x-ms-session-token"@) ==> session_of(lines) == Err::<
            Seq<char>,
            MetadataFault,
        >(MetadataFault::Missing),
{
}

impl ListUsersResponse {
    /// Decodes the response for one page from its headers and the bytes of
    /// its body, all of them. Either the whole page comes back or the first
    /// thing that is wrong with the response.
    pub fn try_from(headers: &http::HeaderMap<http::HeaderValue>, body: &[u8]) -> (r: Result<
        Self,
        DecodeError,
    >)
        ensures
            r matches Ok(page) ==> page.users.len() == page.count,
            match r {
                Ok(page) => page_from(json_document(body@), header_lines(*headers)) == Ok::<
                    ListUsersResponseView,
                    DecodeFailure,
                >(page@),
                Err(e) => page_from(json_document(body@), header_lines(*headers)) == Err::<
                    ListUsersResponseView,
                    DecodeFailure,
                >(e@),
            },
    {
        let body = match decode_body(body) {
            Ok(body) => body,
            Err(BodyFault::Syntax(message)) => {
                return Err(DecodeError::Syntax(message));
            },
            Err(BodyFault::Field(field)) => {
                return Err(DecodeError::Body(field));
            },
        };
        let charge = match request_charge_from_headers(headers) {
            Ok(charge) => charge,
            Err(fault) => {
                return Err(DecodeError::Metadata(MetadataField::RequestCharge, fault));
            },
        };
        let activity_id = match activity_id_from_headers(headers) {
            Ok(id) => id,
            Err(fault) => {
                return Err(DecodeError::Metadata(MetadataField::ActivityId, fault));
            },
        };
        let session_token = match session_token_from_headers(headers) {
            Ok(token) => token,
            Err(fault) => {
                return Err(DecodeError::Metadata(MetadataField::SessionToken, fault));
            },
        };
        let continuation_token = match continuation_token_from_headers(headers) {
            Ok(token) => token,
            Err(fault) => {
                return Err(DecodeError::Metadata(MetadataField::ContinuationToken, fault));
            },
        };
        Ok(
            ListUsersResponse {
                users: body.users,
                rid: body.rid,
                count: body.count,
                charge,
                activity_id,
                session_token,
                continuation_token,
            },
        )
    }

    /// Where the next page starts; none after the last page.
    pub fn continuation(&self) -> (r: Option<String>)
        ensures
            r.is_some() == self.continuation_token.is_some(),
            r matches Some(token) ==> self@.continuation_token == Some(token@),
    {
        match &self.continuation_token {
            Some(token) => Some(token.clone()),
            None => None,
        }
    }

    /// The consistency to ask for in order to read on from where this page
    /// left the session.
    pub fn session_consistency(&self) -> (r: ConsistencyLevel)
        ensures
            r@ == ConsistencyLevelView::Session(self@.session_token),
    {
        ConsistencyLevel::Session(self.session_token.clone())
    }

    /// The users of the page, in the server's order.
    pub fn into_users(self) -> (r: Vec<User>)
        ensures
            r == self.users,
    {
        self.users
    }
}

} // verus!
