//! HTTP headers and upgrade requests: what the library states of the `http` and `tungstenite`
//! functions that it calls.
use vstd::prelude::*;

use tokio_tungstenite::tungstenite::client::IntoClientRequest;
use tokio_tungstenite::tungstenite::http;
use tokio_tungstenite::tungstenite::Error as WsError;

verus! {

/// `http::HeaderMap`, a multimap from header names to values.
#[verifier::external_type_specification]
#[verifier::external_body]
#[verifier::reject_recursive_types(T)]
pub struct ExHeaderMap<T>(http::HeaderMap<T>);

/// `http::HeaderName`, a header name in lower case.
#[verifier::external_type_specification]
#[verifier::external_body]
pub struct ExHeaderName(http::HeaderName);

/// `http::HeaderValue`, the bytes of a header value.
#[verifier::external_type_specification]
#[verifier::external_body]
pub struct ExHeaderValue(http::HeaderValue);

/// `http::Request`, the head of an HTTP request and its body.
#[verifier::external_type_specification]
#[verifier::external_body]
#[verifier::reject_recursive_types(T)]
pub struct ExRequest<T>(http::Request<T>);

/// The values of header names: for each name, at least one value, in the order in which they
/// were added.
pub type Headers = Map<Seq<char>, Seq<Seq<u8>>>;

/// Below so many names a header map takes another name whatever the names are. From there on its
/// hashing decides whether it does.
pub const HEADER_LIMIT: usize = 6554;

/// Longest header name.
pub const HEADER_NAME_LIMIT: usize = 65535;

/// The characters of a header name.
pub uninterp spec fn name_text(name: http::HeaderName) -> Seq<char>;

/// The bytes of a header value.
pub uninterp spec fn value_bytes(value: http::HeaderValue) -> Seq<u8>;

/// The headers that a map holds.
pub uninterp spec fn header_values(headers: http::HeaderMap<http::HeaderValue>) -> Headers;

/// The headers that a request holds.
pub uninterp spec fn request_headers(request: http::Request<()>) -> Headers;

/// The method of a request.
pub uninterp spec fn request_method(request: http::Request<()>) -> Seq<char>;

/// The URI that a request asks for.
pub uninterp spec fn request_uri(request: http::Request<()>) -> Seq<char>;

/// What `tungstenite` makes of a URL: the URI that a request asks for and the value of its
/// `host` header, or an error where the URL names no host or cannot be a URI.
pub uninterp spec fn upgrade_target(url: Seq<char>) -> Result<(Seq<char>, Seq<u8>), WsError>;

/// Whether a character may stand in a header name.
pub open spec fn is_name_char(c: char) -> bool {
    ||| 'a' <= c <= 'z'
    ||| 'A' <= c <= 'Z'
    ||| '0' <= c <= '9'
    ||| "!#$%&'*+-.^_`|~"@.contains(c)
}

/// A character in lower case, if it is an ASCII letter in upper case.
pub open spec fn lower_char(c: char) -> char {
    if 'A' <= c <= 'Z' {
        (c as u8 + 32) as char
    } else {
        c
    }
}

/// Text with its ASCII letters in lower case.
pub open spec fn lower(text: Seq<char>) -> Seq<char> {
    text.map_values(|c: char| lower_char(c))
}

/// Whether text is the name of a header, in upper or lower case.
pub open spec fn is_header_name(text: Seq<char>) -> bool {
    &&& 1 <= text.len() <= HEADER_NAME_LIMIT
    &&& forall|i: int| 0 <= i < text.len() ==> is_name_char(#[trigger] text[i])
}

/// The bytes of ASCII text.
pub open spec fn ascii(text: Seq<char>) -> Seq<u8> {
    text.map_values(|c: char| c as u8)
}

/// Whether headers are those of a fresh upgrade request to a host: one value under each of five
/// names, of which the key is made up anew for each request.
pub open spec fn is_upgrade(headers: Headers, host: Seq<u8>) -> bool {
    &&& headers.dom() == set![
        "host"@,
        "connection"@,
        "upgrade"@,
        "sec-websocket-version"@,
        "sec-websocket-key"@,
    ]
    &&& headers["host"@] == seq![host]
    &&& headers["connection"@] == seq![ascii("Upgrade"@)]
    &&& headers["upgrade"@] == seq![ascii("websocket"@)]
    &&& headers["sec-websocket-version"@] == seq![ascii("13"@)]
    &&& headers["sec-websocket-key"@].len() == 1
    &&& headers["sec-websocket-key"@][0].len() == 24
}

/// The values that stand under one name in a list of headers, in order.
pub open spec fn values_of(
    entries: Seq<(http::HeaderName, http::HeaderValue)>,
    name: Seq<char>,
) -> Seq<Seq<u8>>
    decreases entries.len(),
{
    if entries.len() == 0 {
        Seq::empty()
    } else {
        let before = values_of(entries.drop_last(), name);
        if name_text(entries.last().0) == name {
            before.push(value_bytes(entries.last().1))
        } else {
            before
        }
    }
}

/// Whether a list of headers holds what a multimap of headers holds.
pub open spec fn lists(
    entries: Seq<(http::HeaderName, http::HeaderValue)>,
    headers: Headers,
) -> bool {
    forall|name: Seq<char>|
        {
            &&& headers.dom().contains(name) <==> (#[trigger] values_of(entries, name)).len() > 0
            &&& headers.dom().contains(name) ==> values_of(entries, name) == headers[name]
        }
}

/// `http::HeaderMap::new` makes a map without headers.
#[verifier::external_body]
pub(crate) fn no_headers() -> (headers: http::HeaderMap<http::HeaderValue>)
    ensures
        header_values(headers) == Headers::empty(),
{
    http::HeaderMap::new()
}

/// `http::HeaderMap::clone` makes a map that holds the same headers.
#[verifier::external_body]
pub(crate) fn copy_headers(headers: &http::HeaderMap<http::HeaderValue>) -> (copy: http::HeaderMap<
    http::HeaderValue,
>)
    ensures
        header_values(copy) == header_values(*headers),
{
    headers.clone()
}

/// `http::HeaderMap::keys_len` counts the names, each once however many values it has.
#[verifier::external_body]
pub(crate) fn name_count(headers: &http::HeaderMap<http::HeaderValue>) -> (count: usize)
    ensures
        count == header_values(*headers).dom().len(),
{
    headers.keys_len()
}

/// `http::HeaderName::from_bytes` accepts the token characters of HTTP and turns letters into
/// lower case.
#[verifier::external_body]
pub(crate) fn parse_name(text: &str) -> (name: Option<http::HeaderName>)
    ensures
        name is Some <==> is_header_name(text@),
        name matches Some(n) ==> name_text(n) == lower(text@),
{
    http::HeaderName::from_bytes(text.as_bytes()).ok()
}

/// `http::HeaderMap::insert` leaves the new value as the only one under its name.
///
/// It panics where the map would have to grow past its largest size, which does not happen
/// below [`HEADER_LIMIT`] names.
#[verifier::external_body]
pub(crate) fn insert(
    headers: &mut http::HeaderMap<http::HeaderValue>,
    name: http::HeaderName,
    value: http::HeaderValue,
)
    requires
        header_values(*old(headers)).dom().len() < HEADER_LIMIT,
    ensures
        header_values(*final(headers)) == header_values(*old(headers)).insert(
            name_text(name),
            seq![value_bytes(value)],
        ),
{
    headers.insert(name, value);
}

/// The values under a name, none where there is no such name.
pub open spec fn values_at(headers: Headers, name: Seq<char>) -> Seq<Seq<u8>> {
    if headers.dom().contains(name) {
        headers[name]
    } else {
        Seq::empty()
    }
}

/// `http::HeaderMap::remove` leaves no value under a name.
#[verifier::external_body]
pub(crate) fn remove(headers: &mut http::HeaderMap<http::HeaderValue>, name: &http::HeaderName)
    ensures
        header_values(*final(headers)) == header_values(*old(headers)).remove(name_text(*name)),
{
    headers.remove(name);
}

/// `http::HeaderMap::try_append` adds a value behind those that stand under its name. It fails
/// where the map would have to grow past its largest size, which does not happen below
/// [`HEADER_LIMIT`] names; the error is handed on as one of `tungstenite`.
#[verifier::external_body]
pub(crate) fn try_append(
    headers: &mut http::HeaderMap<http::HeaderValue>,
    name: http::HeaderName,
    value: http::HeaderValue,
) -> (result: Result<bool, WsError>)
    ensures
        match result {
            Ok(_) => header_values(*final(headers)) == header_values(*old(headers)).insert(
                name_text(name),
                values_at(header_values(*old(headers)), name_text(name)).push(value_bytes(value)),
            ),
            Err(_) => header_values(*old(headers)).dom().len() >= HEADER_LIMIT,
        },
{
    headers.try_append(name, value).map_err(|e| WsError::HttpFormat(http::Error::from(e)))
}

/// `http::HeaderMap::iter` visits every value of every name, the values of one name in the
/// order in which they were added. In which order the names come is left open.
#[verifier::external_body]
pub(crate) fn entries(headers: &http::HeaderMap<http::HeaderValue>) -> (list: Vec<
    (http::HeaderName, http::HeaderValue),
>)
    ensures
        lists(list@, header_values(*headers)),
{
    headers.iter().map(|(name, value)| (name.clone(), value.clone())).collect()
}

/// `http::Request::headers_mut` lends the headers of a request, which has finitely many, and
/// touches nothing else.
#[verifier::external_body]
pub(crate) fn headers_mut(request: &mut http::Request<()>) -> (headers: &mut http::HeaderMap<
    http::HeaderValue,
>)
    ensures
        header_values(*headers) == request_headers(*old(request)),
        header_values(*headers).dom().finite(),
        request_headers(*final(request)) == header_values(*final(headers)),
        request_method(*final(request)) == request_method(*old(request)),
        request_uri(*final(request)) == request_uri(*old(request)),
{
    request.headers_mut()
}

/// `IntoClientRequest::into_client_request` on text makes the upgrade request that asks for the
/// URL: a `GET` with the upgrade headers, of which the key is random.
#[verifier::external_body]
pub(crate) fn client_request(url: &str) -> (request: Result<http::Request<()>, WsError>)
    ensures
        match (request, upgrade_target(url@)) {
            (Ok(r), Ok((uri, host))) => {
                &&& request_method(r) == "GET"@
                &&& request_uri(r) == uri
                &&& is_upgrade(request_headers(r), host)
            },
            (Err(e), Err(expected)) => e == expected,
            _ => false,
        },
{
    url.into_client_request()
}

} // verus!
