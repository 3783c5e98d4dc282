//! The header values and header maps of the `http` crate, as far as paging
//! needs them.

use vstd::prelude::*;
use vstd::utf8::encode_utf8;
use crate::text::{ascii_text, decimal_text, is_header_text, is_text_value};

verus! {

/// `http::HeaderValue`: the value of one header. Nothing is known of it but
/// its bytes.
#[verifier::external_type_specification]
#[verifier::external_body]
pub struct ExHeaderValue(http::HeaderValue);

/// `http::HeaderMap`: the headers of a message. Nothing is known of it but
/// the lines that it holds.
#[verifier::external_type_specification]
#[verifier::external_body]
#[verifier::reject_recursive_types(T)]
pub struct ExHeaderMap<T>(http::HeaderMap<T>);

/// The bytes that a header value holds.
pub uninterp spec fn header_value_bytes(value: http::HeaderValue) -> Seq<u8>;

/// What a header map holds: for each header name, in lower case, the values
/// that were added under it, oldest first.
pub uninterp spec fn header_lines(headers: http::HeaderMap<http::HeaderValue>) -> Map<
    Seq<char>,
    Seq<Seq<u8>>,
>;

/// Why a header could not be read as text.
#[derive(Clone, Copy, Debug, PartialEq, Eq, Structural)]
pub enum HeaderFault {
    /// The map holds no value under the name.
    Missing,
    /// The first value under the name holds a byte that is not text.
    NotText,
}

/// A header name as this crate writes them: lower-case letters, digits and
/// hyphens, between one and sixty-four of them.
pub open spec fn is_plain_name(name: Seq<char>) -> bool {
    &&& 1 <= name.len() <= 64
    &&& forall|i: int|
        0 <= i < name.len() ==> {
            let c = #[trigger] name[i];
            ('a' <= c && c <= 'z') || ('0' <= c && c <= '9') || c == '-'
        }
}

/// The first value under `name`, read as text.
pub open spec fn first_text(lines: Map<Seq<char>, Seq<Seq<u8>>>, name: Seq<char>) -> Result<
    Seq<char>,
    HeaderFault,
> {
    if !lines.contains_key(name) || lines[name].len() == 0 {
        Err(HeaderFault::Missing)
    } else if !is_text_value(lines[name][0]) {
        Err(HeaderFault::NotText)
    } else {
        Ok(ascii_text(lines[name][0]))
    }
}

/// `azure_core::headers::get_str_from_headers`: looks the name up, takes the
/// first value under it and reads it as text. It fails with "header not
/// found" when the map has no such name, and with a header error when the
/// value holds a byte that is not text.
#[verifier::external_body]
pub(crate) fn text_from_headers(headers: &http::HeaderMap<http::HeaderValue>, name: &str) -> (r:
    Result<String, HeaderFault>)
    requires
        is_plain_name(name@),
    ensures
        match r {
            Ok(s) => first_text(header_lines(*headers), name@) == Ok::<Seq<char>, HeaderFault>(s@),
            Err(f) => first_text(header_lines(*headers), name@) == Err::<Seq<char>, HeaderFault>(f),
        },
{
    match azure_core::headers::get_str_from_headers(headers, name) {
        Ok(s) => Ok(s.to_owned()),
        Err(azure_core::Error::HeaderNotFound(_)) => Err(HeaderFault::Missing),
        Err(_) => Err(HeaderFault::NotText),
    }
}

/// `azure_core::headers::session_token_from_headers`: the text of the first
/// value under `x-ms-session-token`, failing as a lookup of that name does.
#[verifier::external_body]
pub(crate) fn session_token_text(headers: &http::HeaderMap<http::HeaderValue>) -> (r:
    Result<String, HeaderFault>)
    ensures
        match r {
            Ok(s) => first_text(header_lines(*headers), "x-ms-session-token"@) == Ok::<
                Seq<char>,
                HeaderFault,
            >(s@),
            Err(f) => first_text(header_lines(*headers), "x-ms-session-token"@) == Err::<
                Seq<char>,
                HeaderFault,
            >(f),
        },
{
    match azure_core::headers::session_token_from_headers(headers) {
        Ok(s) => Ok(s),
        Err(azure_core::Error::HeaderNotFound(_)) => Err(HeaderFault::Missing),
        Err(_) => Err(HeaderFault::NotText),
    }
}

/// `azure_core::headers::continuation_token_from_headers_optional`: nothing
/// when the map has no `x-ms-continuation`; otherwise the text of the first
/// value under that name, or a failure when that value is not text.
#[verifier::external_body]
pub(crate) fn continuation_text(
    headers: &http::HeaderMap<http::HeaderValue>,
) -> (r: Result<Option<String>, HeaderFault>)
    ensures
        match r {
            Ok(Some(s)) => first_text(header_lines(*headers), "x-ms-continuation"@) == Ok::<
                Seq<char>,
                HeaderFault,
            >(s@),
            Ok(None) => first_text(header_lines(*headers), "x-ms-continuation"@) == Err::<
                Seq<char>,
                HeaderFault,
            >(HeaderFault::Missing),
            Err(f) => f == HeaderFault::NotText && first_text(
                header_lines(*headers),
                "x-ms-continuation"@,
            ) == Err::<Seq<char>, HeaderFault>(HeaderFault::NotText),
        },
{
    match azure_core::headers::continuation_token_from_headers_optional(headers) {
        Ok(token) => Ok(token),
        Err(_) => Err(HeaderFault::NotText),
    }
}

/// The lines of a map after one more value was added under a name: the value
/// stands behind the values that the name had before.
pub open spec fn append_line(
    lines: Map<Seq<char>, Seq<Seq<u8>>>,
    name: Seq<char>,
    value: Seq<u8>,
) -> Map<Seq<char>, Seq<Seq<u8>>> {
    if lines.contains_key(name) {
        lines.insert(name, lines[name].push(value))
    } else {
        lines.insert(name, seq![value])
    }
}

/// `http::HeaderMap::try_append`, under the name that
/// `http::header::HeaderName::from_bytes` makes of the text: where the map
/// takes the value, it stands behind the values that the name had before. A
/// plain name is a header name as it stands; of what the map holds after it
/// took a value under another name nothing is said. Where the text is no
/// header name, or the map refuses the value because it is full, the map
/// holds what it held: it refuses in `try_grow` or in `try_insert_entry`,
/// and in both before it stores anything.
#[verifier::external_body]
pub(crate) fn try_append_header(
    headers: &mut http::HeaderMap<http::HeaderValue>,
    name: &str,
    value: http::HeaderValue,
) -> (ok: bool)
    ensures
        ok && is_plain_name(name@) ==> header_lines(*final(headers)) == append_line(
            header_lines(*old(headers)),
            name@,
            header_value_bytes(value),
        ),
        !ok ==> header_lines(*final(headers)) == header_lines(*old(headers)),
{
    match http::header::HeaderName::from_bytes(name.as_bytes()) {
        Ok(name) => headers.try_append(name, value).is_ok(),
        Err(_) => false,
    }
}

/// `Clone` for `http::HeaderValue`: the copy holds the same bytes.
pub assume_specification[ <http::HeaderValue as Clone>::clone ](value: &http::HeaderValue) -> (r:
    http::HeaderValue)
    ensures
        header_value_bytes(r) == header_value_bytes(*value),
;

/// `http::HeaderValue::from_str`: accepts exactly the text in which every
/// character may stand in a header; the value then holds the UTF-8 bytes of
/// the text, unchanged.
#[verifier::external_body]
pub(crate) fn header_value_from_text(text: &str) -> (r: Option<http::HeaderValue>)
    ensures
        r is Some <==> is_header_text(text@),
        r matches Some(v) ==> header_value_bytes(v) == encode_utf8(text@),
{
    http::HeaderValue::from_str(text).ok()
}

/// `http::HeaderValue::from` on an `i32`: the value holds the number written
/// in decimal.
#[verifier::external_body]
pub(crate) fn header_value_from_number(n: i32) -> (r: http::HeaderValue)
    ensures
        header_value_bytes(r) == decimal_text(n as int),
{
    http::HeaderValue::from(n)
}

} // verus!
