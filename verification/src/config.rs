//! Connection options and the upgrade request they lead to.
use vstd::prelude::*;

use std::time::Duration;

use tokio_tungstenite::tungstenite::http;

use crate::error::{Error, ErrorView};
use crate::headers::{
    client_request, copy_headers, entries, header_values, headers_mut, insert, is_header_name,
    is_upgrade, lists, lower, name_count, name_text, no_headers, parse_name, remove,
    request_headers, request_method, request_uri, try_append, upgrade_target, value_bytes,
    values_at, values_of, Headers, HEADER_LIMIT,
};
use crate::message::{Message, MessageView};
use crate::outside::duration_nanos;

verus! {

/// Headers of an upgrade request before extra headers are added.
pub const UPGRADE_HEADERS: usize = 5;

/// Options of a connection: headers on the upgrade request and keepalive behaviour.
///
/// Made by [`ConnectOptions::default`] or [`ConnectOptions::builder`].
#[derive(Debug)]
#[non_exhaustive]
pub struct ConnectOptions {
    /// Extra headers for the upgrade request, such as cookies or auth tokens.
    extra_headers: http::HeaderMap<http::HeaderValue>,
    /// Idle time before a keepalive is sent; `None` disables keepalives.
    ///
    /// Keepalives also keep the connection alive while the receive buffer is full. With
    /// keepalives disabled, a consumer that stops reading can leave the connection parked: the
    /// loop does not read inbound frames then, so it does not see a server close either.
    keepalive_interval: Option<Duration>,
    /// Sent as the keepalive in place of a ping, for servers that expect a payload of their own.
    custom_keepalive_message: Option<Message>,
}

/// What [`ConnectOptions`] hold.
pub struct ConnectOptionsView {
    pub extra_headers: Headers,
    pub keepalive_interval: Option<Duration>,
    pub custom_keepalive_message: Option<MessageView>,
}

impl View for ConnectOptions {
    type V = ConnectOptionsView;

    closed spec fn view(&self) -> ConnectOptionsView {
        ConnectOptionsView {
            extra_headers: header_values(self.extra_headers),
            keepalive_interval: self.keepalive_interval,
            custom_keepalive_message: match self.custom_keepalive_message {
                Some(message) => Some(message@),
                None => None,
            },
        }
    }
}

impl ConnectOptionsView {
    /// Whether these are the default options: no headers, a keepalive ping every two seconds.
    pub open spec fn is_default(self) -> bool {
        &&& self.extra_headers == Headers::empty()
        &&& self.keepalive_interval is Some
        &&& duration_nanos(self.keepalive_interval->0) == 2_000_000_000
        &&& self.custom_keepalive_message is None
    }

    /// Whether the extra headers are sure to fit on an upgrade request, whatever their names are.
    pub open spec fn headers_fit(self) -> bool {
        self.extra_headers.dom().len() + UPGRADE_HEADERS < HEADER_LIMIT
    }
}

/// Headers after extra headers were set on them: under each extra name stand its extra values
/// alone, all of them in order, and the other names keep what they had.
pub open spec fn with_extra(base: Headers, extra: Headers) -> Headers {
    Map::new(
        |name: Seq<char>| base.dom().contains(name) || extra.dom().contains(name),
        |name: Seq<char>|
            if extra.dom().contains(name) {
                extra[name]
            } else {
                base[name]
            },
    )
}

/// Headers after the names in a list were removed one after the other.
spec fn remove_all(base: Headers, list: Seq<(http::HeaderName, http::HeaderValue)>) -> Headers
    decreases list.len(),
{
    if list.len() == 0 {
        base
    } else {
        remove_all(base, list.drop_last()).remove(name_text(list.last().0))
    }
}

/// Headers after the entries of a list were added one after the other.
spec fn append_all(base: Headers, list: Seq<(http::HeaderName, http::HeaderValue)>) -> Headers
    decreases list.len(),
{
    if list.len() == 0 {
        base
    } else {
        let before = append_all(base, list.drop_last());
        let name = name_text(list.last().0);
        before.insert(name, values_at(before, name).push(value_bytes(list.last().1)))
    }
}

/// What removing the names in a list leaves under a name.
proof fn lemma_remove_all(
    base: Headers,
    list: Seq<(http::HeaderName, http::HeaderValue)>,
    name: Seq<char>,
)
    ensures
        remove_all(base, list).dom().contains(name) <==> base.dom().contains(name) && values_of(
            list,
            name,
        ).len() == 0,
        remove_all(base, list).dom().contains(name) ==> remove_all(base, list)[name] == base[name],
    decreases list.len(),
{
    if list.len() > 0 {
        lemma_remove_all(base, list.drop_last(), name);
    }
}

/// What adding the entries of a list leaves under a name.
proof fn lemma_append_all(
    base: Headers,
    list: Seq<(http::HeaderName, http::HeaderValue)>,
    name: Seq<char>,
)
    ensures
        append_all(base, list).dom().contains(name) <==> base.dom().contains(name) || values_of(
            list,
            name,
        ).len() > 0,
        values_at(append_all(base, list), name) == values_at(base, name) + values_of(list, name),
    decreases list.len(),
{
    if list.len() > 0 {
        lemma_append_all(base, list.drop_last(), name);
        assert(values_at(append_all(base, list), name) =~= values_at(base, name) + values_of(
            list,
            name,
        ));
    } else {
        assert(values_at(append_all(base, list), name) =~= values_at(base, name) + values_of(
            list,
            name,
        ));
    }
}

/// The names in a list of headers form a finite set.
proof fn lemma_listed_names_finite(list: Seq<(http::HeaderName, http::HeaderValue)>)
    ensures
        Set::new(|name: Seq<char>| values_of(list, name).len() > 0).finite(),
    decreases list.len(),
{
    let names = Set::new(|name: Seq<char>| values_of(list, name).len() > 0);
    if list.len() == 0 {
        assert(names =~= Set::empty());
    } else {
        lemma_listed_names_finite(list.drop_last());
        let before = Set::new(|name: Seq<char>| values_of(list.drop_last(), name).len() > 0);
        assert(names =~= before.insert(name_text(list.last().0)));
    }
}

/// A name that occurs in a part of a list occurs in the list.
proof fn lemma_listed_in_prefix(
    list: Seq<(http::HeaderName, http::HeaderValue)>,
    n: int,
    name: Seq<char>,
)
    requires
        0 <= n <= list.len(),
        values_of(list.take(n), name).len() > 0,
    ensures
        values_of(list, name).len() > 0,
    decreases list.len(),
{
    if n < list.len() {
        assert(list.drop_last().take(n) =~= list.take(n));
        lemma_listed_in_prefix(list.drop_last(), n, name);
    } else {
        assert(list.take(n) =~= list);
    }
}

/// While the listed extra headers are set there are no more names than there were and are listed.
proof fn lemma_append_all_count(
    base: Headers,
    extra: Headers,
    list: Seq<(http::HeaderName, http::HeaderValue)>,
    n: int,
)
    requires
        0 <= n <= list.len(),
        lists(list, extra),
        base.dom().finite(),
        extra.dom().finite(),
    ensures
        append_all(remove_all(base, list), list.take(n)).dom().len() <= base.dom().len()
            + extra.dom().len(),
{
    let names = base.dom().union(extra.dom());
    let held = append_all(remove_all(base, list), list.take(n)).dom();
    assert forall|name: Seq<char>| held.contains(name) implies names.contains(name) by {
        lemma_append_all(remove_all(base, list), list.take(n), name);
        lemma_remove_all(base, list, name);
        if values_of(list.take(n), name).len() > 0 {
            lemma_listed_in_prefix(list, n, name);
        }
    }
    vstd::set_lib::lemma_len_union(base.dom(), extra.dom());
    vstd::set_lib::lemma_len_subset(held, names);
}

/// Removing the listed names and adding the listed entries is setting the extra headers.
proof fn lemma_append_all_is_with_extra(
    base: Headers,
    extra: Headers,
    list: Seq<(http::HeaderName, http::HeaderValue)>,
)
    requires
        lists(list, extra),
    ensures
        append_all(remove_all(base, list), list) == with_extra(base, extra),
{
    let set = append_all(remove_all(base, list), list);
    assert forall|name: Seq<char>|
        set.dom().contains(name) <==> with_extra(base, extra).dom().contains(name) by {
        lemma_append_all(remove_all(base, list), list, name);
        lemma_remove_all(base, list, name);
    }
    assert forall|name: Seq<char>| with_extra(base, extra).dom().contains(name) implies set[name]
        == with_extra(base, extra)[name] by {
        lemma_append_all(remove_all(base, list), list, name);
        lemma_remove_all(base, list, name);
        assert(set[name] == values_at(set, name));
        assert(set[name] =~= with_extra(base, extra)[name]);
    }
    assert(set =~= with_extra(base, extra));
}

impl Clone for ConnectOptions {
    fn clone(&self) -> (copy: Self)
        ensures
            copy@ == self@,
    {
        ConnectOptions {
            extra_headers: copy_headers(&self.extra_headers),
            keepalive_interval: self.keepalive_interval,
            custom_keepalive_message: match &self.custom_keepalive_message {
                Some(message) => Some(message.clone()),
                None => None,
            },
        }
    }
}

impl Default for ConnectOptions {
    fn default() -> (options: Self)
        ensures
            options@.is_default(),
    {
        ConnectOptions {
            extra_headers: no_headers(),
            keepalive_interval: Some(Duration::from_secs(2)),
            custom_keepalive_message: None,
        }
    }
}

impl ConnectOptions {
    /// Starts building options from the defaults.
    #[must_use]
    pub fn builder() -> (builder: ConnectOptionsBuilder)
        ensures
            builder@.is_default(),
    {
        ConnectOptionsBuilder { options: ConnectOptions::default() }
    }

    /// The extra headers for the upgrade request.
    pub fn extra_headers(&self) -> (headers: &http::HeaderMap<http::HeaderValue>)
        ensures
            header_values(*headers) == self@.extra_headers,
    {
        &self.extra_headers
    }

    /// How many names the extra headers have.
    pub fn header_count(&self) -> (count: usize)
        ensures
            count == self@.extra_headers.dom().len(),
    {
        name_count(&self.extra_headers)
    }

    /// The idle time before a keepalive is sent, if keepalives are enabled.
    pub fn keepalive_interval(&self) -> (interval: Option<Duration>)
        ensures
            interval == self@.keepalive_interval,
    {
        self.keepalive_interval
    }

    /// The message that is sent as the keepalive in place of a ping, if there is one.
    pub fn custom_keepalive_message(&self) -> (message: Option<&Message>)
        ensures
            match (message, self@.custom_keepalive_message) {
                (Some(m), Some(held)) => m@ == held,
                (None, None) => true,
                _ => false,
            },
    {
        self.custom_keepalive_message.as_ref()
    }

    /// Builds the upgrade request for a URL: the request that `tungstenite` makes of the URL,
    /// with the extra headers set on it. It fails where `tungstenite` makes none, and it may fail
    /// where there are more extra headers than are sure to fit.
    pub fn build_request(&self, url: &str) -> (request: Result<http::Request<()>, Error>)
        ensures
            builds(url@, self@, request),
    {
        let request = match client_request(url) {
            Ok(request) => request,
            Err(e) => return Err(Error::from(e)),
        };
        assert(request_headers(request).dom().len() <= UPGRADE_HEADERS);
        self.set_headers(request)
    }

    /// Sets the extra headers on a request. Where the request has headers of the same name, the
    /// extra ones take their place. It may fail where there are more headers than are sure to fit.
    pub fn set_headers(&self, request: http::Request<()>) -> (result: Result<
        http::Request<()>,
        Error,
    >)
        ensures
            match result {
                Ok(changed) => {
                    &&& request_method(changed) == request_method(request)
                    &&& request_uri(changed) == request_uri(request)
                    &&& request_headers(changed) == with_extra(
                        request_headers(request),
                        self@.extra_headers,
                    )
                },
                Err(e) => {
                    &&& e@ is WebsocketError
                    &&& request_headers(request).dom().len() + self@.extra_headers.dom().len()
                        >= HEADER_LIMIT
                },
            },
    {
        let ghost base = request_headers(request);
        let mut changed = request;
        let list = entries(&self.extra_headers);
        let ghost extra = header_values(self.extra_headers);
        let ghost whole = list@;
        let headers = headers_mut(&mut changed);
        proof {
            lemma_listed_names_finite(whole);
            assert(extra.dom() =~= Set::new(
                |name: Seq<char>| values_of(whole, name).len() > 0,
            ));
            assert(whole.take(0) =~= Seq::empty());
        }
        let mut i: usize = 0;
        while i < list.len()
            invariant
                list@ == whole,
                0 <= i <= whole.len(),
                header_values(*headers) == remove_all(base, whole.take(i as int)),
            decreases whole.len() - i,
        {
            proof {
                let next = whole.take(i + 1);
                assert(next.drop_last() =~= whole.take(i as int));
                assert(next.last() == whole[i as int]);
            }
            remove(headers, &list[i].0);
            i = i + 1;
        }
        assert(whole.take(whole.len() as int) =~= whole);
        for entry in it: list
            invariant
                it.seq() == whole,
                header_values(*headers) == append_all(
                    remove_all(base, whole),
                    whole.take(it.index()),
                ),
                extra == self@.extra_headers,
                base == request_headers(request),
                lists(whole, extra),
                base.dom().finite(),
                extra.dom().finite(),
        {
            proof {
                lemma_append_all_count(base, extra, whole, it.index());
                let next = whole.take(it.index() + 1);
                assert(next.drop_last() =~= whole.take(it.index()));
                assert(next.last() == entry);
            }
            let (name, value) = entry;
            match try_append(headers, name, value) {
                Ok(_) => {},
                Err(e) => return Err(Error::from(e)),
            }
        }
        proof {
            lemma_append_all_is_with_extra(base, extra, whole);
        }
        Ok(changed)
    }
}

/// What building the upgrade request for a URL comes to.
pub open spec fn builds(
    url: Seq<char>,
    options: ConnectOptionsView,
    result: Result<http::Request<()>, Error>,
) -> bool {
    match (result, upgrade_target(url)) {
        (Ok(request), Ok((uri, host))) => {
            &&& request_method(request) == "GET"@
            &&& request_uri(request) == uri
            &&& exists|base: Headers| #[trigger]
                is_upgrade(base, host) && request_headers(request) == with_extra(
                    base,
                    options.extra_headers,
                )
        },
        (Err(e), Err(source)) => e@ == ErrorView::WebsocketError(source),
        (Err(e), Ok(_)) => e@ is WebsocketError && !options.headers_fit(),
        (Ok(_), Err(_)) => false,
    }
}

/// Builder for [`ConnectOptions`].
#[derive(Debug)]
pub struct ConnectOptionsBuilder {
    options: ConnectOptions,
}

impl View for ConnectOptionsBuilder {
    type V = ConnectOptionsView;

    closed spec fn view(&self) -> ConnectOptionsView {
        self.options@
    }
}

impl Clone for ConnectOptionsBuilder {
    fn clone(&self) -> (copy: Self)
        ensures
            copy@ == self@,
    {
        ConnectOptionsBuilder { options: self.options.clone() }
    }
}

impl ConnectOptionsBuilder {
    /// Sets the idle time before a keepalive is sent; `None` disables keepalives.
    #[must_use]
    pub fn keepalive_interval(self, interval: Option<Duration>) -> (builder: Self)
        ensures
            builder@ == (ConnectOptionsView { keepalive_interval: interval, ..self@ }),
    {
        let mut options = self.options;
        options.keepalive_interval = interval;
        ConnectOptionsBuilder { options }
    }

    /// How many names the extra headers have so far.
    pub fn header_count(&self) -> (count: usize)
        ensures
            count == self@.extra_headers.dom().len(),
    {
        self.options.header_count()
    }

    /// Sets a single header on the upgrade request. What was set under the same name before is
    /// replaced.
    #[must_use]
    pub fn header(self, name: &str, value: http::HeaderValue) -> (builder: Self)
        requires
            is_header_name(name@),
            self@.extra_headers.dom().len() < HEADER_LIMIT,
        ensures
            builder@ == (ConnectOptionsView {
                extra_headers: self@.extra_headers.insert(lower(name@), seq![value_bytes(value)]),
                ..self@
            }),
    {
        let mut options = self.options;
        if let Some(name) = parse_name(name) {
            insert(&mut options.extra_headers, name, value);
        }
        ConnectOptionsBuilder { options }
    }

    /// Sets a single header on the upgrade request, as [`ConnectOptionsBuilder::header`] does. The
    /// builder is handed back as it was where the text is no header name, or where there are so
    /// many names that another one is not sure to fit.
    pub fn try_header(self, name: &str, value: http::HeaderValue) -> (result: Result<Self, Self>)
        ensures
            match result {
                Ok(builder) => {
                    &&& is_header_name(name@)
                    &&& self@.extra_headers.dom().len() < HEADER_LIMIT
                    &&& builder@ == (ConnectOptionsView {
                        extra_headers: self@.extra_headers.insert(
                            lower(name@),
                            seq![value_bytes(value)],
                        ),
                        ..self@
                    })
                },
                Err(unchanged) => {
                    &&& unchanged == self
                    &&& !is_header_name(name@) || self@.extra_headers.dom().len() >= HEADER_LIMIT
                },
            },
    {
        if self.header_count() >= HEADER_LIMIT {
            return Err(self);
        }
        match parse_name(name) {
            Some(_) => Ok(self.header(name, value)),
            None => Err(self),
        }
    }

    /// Replaces the whole set of extra headers.
    #[must_use]
    pub fn headers(self, headers: http::HeaderMap<http::HeaderValue>) -> (builder: Self)
        ensures
            builder@ == (ConnectOptionsView { extra_headers: header_values(headers), ..self@ }),
    {
        let mut options = self.options;
        options.extra_headers = headers;
        ConnectOptionsBuilder { options }
    }

    /// Sets the message that is sent as the keepalive in place of a ping.
    #[must_use]
    pub fn custom_keepalive_message(self, message: Option<Message>) -> (builder: Self)
        ensures
            builder@ == (ConnectOptionsView {
                custom_keepalive_message: match message {
                    Some(m) => Some(m@),
                    None => None,
                },
                ..self@
            }),
    {
        let mut options = self.options;
        options.custom_keepalive_message = message;
        ConnectOptionsBuilder { options }
    }

    /// Finishes building.
    #[must_use]
    pub fn build(self) -> (options: ConnectOptions)
        ensures
            options@ == self@,
    {
        self.options
    }
}

/// Each setter of the builder touches its own option and no other, so options that are set once
/// each can be set in any order.
pub proof fn setters_commute(
    options: ConnectOptionsView,
    interval: Option<Duration>,
    message: Option<MessageView>,
    headers: Headers,
)
    ensures
        ({
            let interval_set = ConnectOptionsView { keepalive_interval: interval, ..options };
            let message_set = ConnectOptionsView { custom_keepalive_message: message, ..options };
            let headers_set = ConnectOptionsView { extra_headers: headers, ..options };
            &&& (ConnectOptionsView { custom_keepalive_message: message, ..interval_set })
                == (ConnectOptionsView { keepalive_interval: interval, ..message_set })
            &&& (ConnectOptionsView { extra_headers: headers, ..interval_set })
                == (ConnectOptionsView { keepalive_interval: interval, ..headers_set })
            &&& (ConnectOptionsView { extra_headers: headers, ..message_set })
                == (ConnectOptionsView { custom_keepalive_message: message, ..headers_set })
        }),
{
}

/// A header that is set twice under one name, in upper or lower case, has the value that was set
/// last; headers under other names keep theirs.
pub proof fn last_header_wins(
    headers: Headers,
    name: Seq<char>,
    same: Seq<char>,
    first: Seq<u8>,
    last: Seq<u8>,
)
    requires
        lower(name) == lower(same),
    ensures
        headers.insert(lower(name), seq![first]).insert(lower(same), seq![last])
            == headers.insert(lower(name), seq![last]),
        forall|other: Seq<char>|
            other != lower(name) ==> #[trigger] headers.insert(lower(name), seq![last]).get(other)
                == headers.get(other),
{
    assert(headers.insert(lower(name), seq![first]).insert(lower(same), seq![last])
        =~= headers.insert(lower(name), seq![last]));
}

/// No extra header is lost, and extra headers take precedence on an upgrade request; the headers that the request has of
/// itself stay where no extra header has their name.
pub proof fn extra_headers_take_precedence(base: Headers, extra: Headers, name: Seq<char>)
    ensures
        with_extra(base, extra).dom() == base.dom().union(extra.dom()),
        extra.dom().contains(name) ==> with_extra(base, extra)[name] == extra[name],
        base.dom().contains(name) && !extra.dom().contains(name) ==> with_extra(base, extra)[name]
            == base[name],
        with_extra(base, Headers::empty()) == base,
{
    assert(with_extra(base, extra).dom() =~= base.dom().union(extra.dom()));
    assert(with_extra(base, Headers::empty()) =~= base);
}

} // verus!
