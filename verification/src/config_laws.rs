//! What connection options and upgrade requests come to, call by call.
use vstd::prelude::*;

use std::time::Duration;

use tokio_tungstenite::tungstenite::http;

use crate::config::{ConnectOptions, ConnectOptionsBuilder};
use crate::error::Error;
use crate::headers::{
    header_values, lower, request_headers, request_method, request_uri, upgrade_target,
    value_bytes, Headers,
};
use crate::message::Message;
use crate::outside::duration_nanos;

verus! {

/// Whether a request asks for an upgrade at a host with extra headers: under every extra name stand
/// the extra values, all of them and no others; of the five headers that an upgrade needs, those
/// without an extra header of their name are there; and there are no headers beyond these.
pub open spec fn asks_for_upgrade(
    request: http::Request<()>,
    uri: Seq<char>,
    host: Seq<u8>,
    extra: Headers,
) -> bool {
    let headers = request_headers(request);
    let own = |name: Seq<char>| headers.dom().contains(name) && !extra.dom().contains(name);
    &&& request_method(request) == "GET"@
    &&& request_uri(request) == uri
    &&& forall|name: Seq<char>| #[trigger]
        extra.dom().contains(name) ==> headers.dom().contains(name) && headers[name]
            == extra[name]
    &&& forall|name: Seq<char>| #[trigger]
        headers.dom().contains(name) ==> extra.dom().contains(name) || name == "host"@ || name
            == "connection"@ || name == "upgrade"@ || name == "sec-websocket-version"@ || name
            == "sec-websocket-key"@
    &&& headers.dom().contains("host"@)
    &&& headers.dom().contains("connection"@)
    &&& headers.dom().contains("upgrade"@)
    &&& headers.dom().contains("sec-websocket-version"@)
    &&& headers.dom().contains("sec-websocket-key"@)
    &&& own("host"@) ==> headers["host"@] == seq![host]
    &&& own("connection"@) ==> headers["connection"@] == seq![
        "Upgrade"@.map_values(|c: char| c as u8),
    ]
    &&& own("upgrade"@) ==> headers["upgrade"@] == seq!["websocket"@.map_values(|c: char| c as u8)]
    &&& own("sec-websocket-version"@) ==> headers["sec-websocket-version"@] == seq![
        "13"@.map_values(|c: char| c as u8),
    ]
    &&& own("sec-websocket-key"@) ==> headers["sec-websocket-key"@].len() == 1
        && headers["sec-websocket-key"@][0].len() == 24
}

/// For every URL that `tungstenite` makes an upgrade request of, secure or not, the request asks
/// for an upgrade there with all the extra headers; where it makes none, its error is handed on.
/// With few enough headers nothing else fails.
pub proof fn requests_carry_all_extra_headers(
    options: ConnectOptions,
    url: &str,
    result: Result<http::Request<()>, Error>,
)
    requires
        call_ensures(ConnectOptions::build_request, (&options, url), result),
    ensures
        match upgrade_target(url@) {
            Ok((uri, host)) => match result {
                Ok(request) => asks_for_upgrade(request, uri, host, options@.extra_headers),
                Err(e) => e is WebsocketError && options@.extra_headers.dom().len() + 5 >= 6554,
            },
            Err(source) => result == Err::<http::Request<()>, Error>(
                Error::WebsocketError(source),
            ),
        },
{
}

/// Two requests for one URL with the same extra headers differ in the key at most.
pub proof fn requests_differ_in_the_key_only(
    options: ConnectOptions,
    url: &str,
    one: http::Request<()>,
    other: http::Request<()>,
    name: Seq<char>,
)
    requires
        call_ensures(ConnectOptions::build_request, (&options, url), Ok(one)),
        call_ensures(ConnectOptions::build_request, (&options, url), Ok(other)),
        name != "sec-websocket-key"@,
    ensures
        request_method(one) == request_method(other),
        request_uri(one) == request_uri(other),
        request_headers(one).dom() == request_headers(other).dom(),
        request_headers(one).dom().contains(name) ==> request_headers(one)[name] == request_headers(
            other,
        )[name],
{
    assert(request_headers(one).dom() =~= request_headers(other).dom());
}

/// Setting extra headers changes a request's headers under the extra names and nothing else, and
/// under those to just the extra values.
pub proof fn setting_headers_changes_nothing_else(
    options: ConnectOptions,
    request: http::Request<()>,
    changed: http::Request<()>,
    name: Seq<char>,
)
    requires
        call_ensures(ConnectOptions::set_headers, (&options, request), Ok(changed)),
    ensures
        request_method(changed) == request_method(request),
        request_uri(changed) == request_uri(request),
        options@.extra_headers.dom().contains(name) ==> request_headers(changed).dom().contains(
            name,
        ) && request_headers(changed)[name] == options@.extra_headers[name],
        !options@.extra_headers.dom().contains(name) ==> (request_headers(changed).dom().contains(
            name,
        ) <==> request_headers(request).dom().contains(name)),
        !options@.extra_headers.dom().contains(name) && request_headers(request).dom().contains(name)
            ==> request_headers(changed)[name] == request_headers(request)[name],
{
}

/// Setting extra headers succeeds where there are few enough headers.
pub proof fn setting_few_headers_succeeds(
    options: ConnectOptions,
    request: http::Request<()>,
    result: Result<http::Request<()>, Error>,
)
    requires
        call_ensures(ConnectOptions::set_headers, (&options, request), result),
    ensures
        request_headers(request).dom().len() + options@.extra_headers.dom().len() < 6554
            ==> result is Ok,
        result matches Err(e) ==> e is WebsocketError,
{
}

/// Options that nobody changed have no extra headers and send an empty ping after two seconds. A
/// builder starts from them, and building changes nothing.
pub proof fn default_options(
    default: ConnectOptions,
    builder: ConnectOptionsBuilder,
    built: ConnectOptions,
)
    requires
        call_ensures(<ConnectOptions as Default>::default, (), default),
        call_ensures(ConnectOptions::builder, (), builder),
        call_ensures(ConnectOptionsBuilder::build, (builder,), built),
    ensures
        forall|name: Seq<char>| !#[trigger] default@.extra_headers.dom().contains(name),
        default@.keepalive_interval matches Some(interval) && duration_nanos(interval)
            == 2_000_000_000,
        default@.custom_keepalive_message is None,
        built@.extra_headers == default@.extra_headers,
        built@.keepalive_interval matches Some(interval) && duration_nanos(interval)
            == 2_000_000_000,
        built@.custom_keepalive_message is None,
{
    assert(built@.extra_headers =~= default@.extra_headers);
}

/// The options that are built are those that were set, each by its own setter, whatever was set
/// before: what a setter does not set it keeps.
pub proof fn setters_set_one_option_each(
    builder: ConnectOptionsBuilder,
    interval: Option<Duration>,
    message: Option<Message>,
    headers: http::HeaderMap<http::HeaderValue>,
    with_interval: ConnectOptionsBuilder,
    with_message: ConnectOptionsBuilder,
    with_headers: ConnectOptionsBuilder,
    built: ConnectOptions,
)
    requires
        call_ensures(
            ConnectOptionsBuilder::keepalive_interval,
            (builder, interval),
            with_interval,
        ),
        call_ensures(
            ConnectOptionsBuilder::custom_keepalive_message,
            (builder, message),
            with_message,
        ),
        call_ensures(ConnectOptionsBuilder::headers, (builder, headers), with_headers),
        call_ensures(ConnectOptionsBuilder::build, (builder,), built),
    ensures
        built@ == builder@,
        with_interval@.keepalive_interval == interval,
        with_interval@.extra_headers == builder@.extra_headers,
        with_interval@.custom_keepalive_message == builder@.custom_keepalive_message,
        match message {
            Some(m) => with_message@.custom_keepalive_message == Some(m@),
            None => with_message@.custom_keepalive_message is None,
        },
        with_message@.extra_headers == builder@.extra_headers,
        with_message@.keepalive_interval == builder@.keepalive_interval,
        with_headers@.extra_headers == header_values(headers),
        with_headers@.keepalive_interval == builder@.keepalive_interval,
        with_headers@.custom_keepalive_message == builder@.custom_keepalive_message,
{
}

/// Setting a header leaves its value as the only one under its name, in lower case, keeps all other
/// headers, and touches no other option.
pub proof fn header_sets_one_name(
    builder: ConnectOptionsBuilder,
    name: &str,
    value: http::HeaderValue,
    set: ConnectOptionsBuilder,
    other: Seq<char>,
)
    requires
        call_ensures(ConnectOptionsBuilder::header, (builder, name, value), set) || call_ensures(
            ConnectOptionsBuilder::try_header,
            (builder, name, value),
            Ok(set),
        ),
        other != lower(name@),
    ensures
        set@.extra_headers.dom().contains(lower(name@)),
        set@.extra_headers[lower(name@)] == seq![value_bytes(value)],
        set@.extra_headers.dom().contains(other) <==> builder@.extra_headers.dom().contains(other),
        set@.extra_headers[other] == builder@.extra_headers[other],
        set@.keepalive_interval == builder@.keepalive_interval,
        set@.custom_keepalive_message == builder@.custom_keepalive_message,
{
}

/// A header is refused only where its name is none or where there are 6554 names already, and the
/// builder is then as it was.
pub proof fn header_is_refused_only_for_a_reason(
    builder: ConnectOptionsBuilder,
    name: &str,
    value: http::HeaderValue,
    result: Result<ConnectOptionsBuilder, ConnectOptionsBuilder>,
)
    requires
        call_ensures(ConnectOptionsBuilder::try_header, (builder, name, value), result),
    ensures
        result is Ok <==> {
            &&& builder@.extra_headers.dom().len() < 6554
            &&& 1 <= name@.len() <= 65535
            &&& forall|i: int|
                0 <= i < name@.len() ==> ({
                    let c = #[trigger] name@[i];
                    ||| 'a' <= c <= 'z'
                    ||| 'A' <= c <= 'Z'
                    ||| '0' <= c <= '9'
                    ||| "!#$%&'*+-.^_`|~"@.contains(c)
                })
        },
        result matches Err(unchanged) ==> unchanged@ == builder@,
{
}

/// What was set can be read back.
pub proof fn options_read_back(
    options: ConnectOptions,
    interval: Option<Duration>,
    message: Option<&Message>,
    headers: &http::HeaderMap<http::HeaderValue>,
    count: usize,
    copy: ConnectOptions,
)
    requires
        call_ensures(ConnectOptions::keepalive_interval, (&options,), interval),
        call_ensures(ConnectOptions::custom_keepalive_message, (&options,), message),
        call_ensures(ConnectOptions::extra_headers, (&options,), headers),
        call_ensures(ConnectOptions::header_count, (&options,), count),
        call_ensures(<ConnectOptions as Clone>::clone, (&options,), copy),
    ensures
        options@.keepalive_interval == interval,
        match message {
            Some(m) => options@.custom_keepalive_message == Some(m@),
            None => options@.custom_keepalive_message is None,
        },
        options@.extra_headers == header_values(*headers),
        options@.extra_headers.dom().len() == count,
        copy@.keepalive_interval == interval,
        copy@.custom_keepalive_message == options@.custom_keepalive_message,
        copy@.extra_headers == header_values(*headers),
{
}

} // verus!
