use std::time::Duration;

use socketeer::headers::HEADER_LIMIT;
use socketeer::{http, ConnectOptions, Error, Message};

#[test]
fn builder_default_matches_default() {
    let built = ConnectOptions::builder().build();
    let default = ConnectOptions::default();
    assert_eq!(built.keepalive_interval(), default.keepalive_interval());
    assert_eq!(
        built.custom_keepalive_message(),
        default.custom_keepalive_message()
    );
    assert_eq!(built.extra_headers(), default.extra_headers());
}

#[test]
fn builder_sets_each_field() {
    let opts = ConnectOptions::builder()
        .keepalive_interval(None)
        .custom_keepalive_message(Some(Message::text("ping")))
        .header("x-test", "v".parse().unwrap())
        .build();
    assert_eq!(opts.keepalive_interval(), None);
    assert_eq!(
        opts.custom_keepalive_message(),
        Some(&Message::text("ping"))
    );
    assert_eq!(opts.extra_headers().get("x-test").unwrap(), "v");
}

#[test]
fn headers_replaces_whole_map() {
    let mut map = http::HeaderMap::new();
    map.insert("a", "1".parse().unwrap());
    map.insert("b", "2".parse().unwrap());
    let opts = ConnectOptions::builder()
        .header("z", "0".parse().unwrap())
        .headers(map)
        .build();
    assert_eq!(opts.extra_headers().len(), 2);
    assert_eq!(opts.extra_headers().get("a").unwrap(), "1");
    assert!(opts.extra_headers().get("z").is_none());
}

#[test]
fn default_options_ping_every_two_seconds() {
    let options = ConnectOptions::default();
    assert_eq!(options.keepalive_interval(), Some(Duration::from_secs(2)));
    assert_eq!(options.custom_keepalive_message(), None);
    assert_eq!(options.header_count(), 0);
}

#[test]
fn header_replaces_the_value_under_the_same_name() {
    let opts = ConnectOptions::builder()
        .header("X-Token", "first".parse().unwrap())
        .header("x-token", "last".parse().unwrap())
        .header("x-other", "kept".parse().unwrap())
        .build();
    let values: Vec<&http::HeaderValue> = opts.extra_headers().get_all("x-token").iter().collect();
    assert_eq!(values, vec!["last"]);
    assert_eq!(opts.extra_headers().get("x-other").unwrap(), "kept");
    assert_eq!(opts.header_count(), 2);
}

#[test]
fn options_can_be_set_in_any_order() {
    let interval = Some(Duration::from_millis(100));
    let message = Message::binary(b"keepalive".to_vec());
    let one = ConnectOptions::builder()
        .keepalive_interval(interval)
        .custom_keepalive_message(Some(message.clone()))
        .header("a", "1".parse().unwrap())
        .build();
    let other = ConnectOptions::builder()
        .header("a", "1".parse().unwrap())
        .custom_keepalive_message(Some(message))
        .keepalive_interval(interval)
        .build();
    assert_eq!(one.keepalive_interval(), other.keepalive_interval());
    assert_eq!(
        one.custom_keepalive_message(),
        other.custom_keepalive_message()
    );
    assert_eq!(one.extra_headers(), other.extra_headers());
}

#[test]
fn builder_and_options_can_be_cloned() {
    let builder = ConnectOptions::builder()
        .custom_keepalive_message(Some(Message::text("tic")))
        .header("a", "1".parse().unwrap());
    assert_eq!(builder.header_count(), 1);
    let options = builder.clone().build();
    let copy = options.clone();
    assert_eq!(copy.extra_headers(), options.extra_headers());
    assert_eq!(copy.custom_keepalive_message(), Some(&Message::text("tic")));
    assert_eq!(builder.build().extra_headers(), options.extra_headers());
}

#[test]
fn request_has_the_upgrade_headers() {
    let request = ConnectOptions::default()
        .build_request("ws://example.com:9000/chat?room=1")
        .unwrap();
    assert_eq!(
        request.uri().to_string(),
        "ws://example.com:9000/chat?room=1"
    );
    let headers = request.headers();
    assert_eq!(request.method(), "GET");
    assert_eq!(headers.len(), 5);
    assert_eq!(headers.get("host").unwrap(), "example.com:9000");
    assert_eq!(headers.get("connection").unwrap(), "Upgrade");
    assert_eq!(headers.get("upgrade").unwrap(), "websocket");
    assert_eq!(headers.get("sec-websocket-version").unwrap(), "13");
    assert_eq!(headers.get("sec-websocket-key").unwrap().len(), 24);
}

#[test]
fn extra_headers_override_those_of_the_request() {
    let mut map = http::HeaderMap::new();
    map.append("x-many", "1".parse().unwrap());
    map.append("x-many", "2".parse().unwrap());
    map.insert("host", "proxy.example".parse().unwrap());
    let request = ConnectOptions::builder()
        .headers(map)
        .build()
        .build_request("ws://example.com/")
        .unwrap();
    let headers = request.headers();
    assert_eq!(headers.get("host").unwrap(), "proxy.example");
    let many: Vec<&http::HeaderValue> = headers.get_all("x-many").iter().collect();
    assert_eq!(many, vec!["1", "2"]);
    assert_eq!(headers.get("upgrade").unwrap(), "websocket");
    assert_eq!(headers.len(), 7);
}

#[test]
fn no_extra_header_is_lost() {
    let mut map = http::HeaderMap::new();
    map.append("cookie", "a=1".parse().unwrap());
    map.append("cookie", "b=2".parse().unwrap());
    let request = ConnectOptions::builder()
        .headers(map)
        .build()
        .build_request("ws://127.0.0.1:80/")
        .unwrap();
    let cookies: Vec<&http::HeaderValue> = request.headers().get_all("cookie").iter().collect();
    assert_eq!(cookies, vec!["a=1", "b=2"]);
}

#[test]
fn several_values_replace_those_of_the_request() {
    let mut map = http::HeaderMap::new();
    map.append("x-own", "1".parse().unwrap());
    map.append("x-own", "2".parse().unwrap());
    let request = http::Request::builder()
        .method("POST")
        .uri("ws://example.com/")
        .header("x-own", "old")
        .header("x-own", "older")
        .body(())
        .unwrap();
    let changed = ConnectOptions::builder()
        .headers(map)
        .build()
        .set_headers(request)
        .unwrap();
    assert_eq!(changed.method(), "POST");
    let own: Vec<&http::HeaderValue> = changed.headers().get_all("x-own").iter().collect();
    assert_eq!(own, vec!["1", "2"]);
}

#[test]
fn headers_past_the_largest_map_are_an_error() {
    let mut map = http::HeaderMap::new();
    for i in 0..24576 {
        let name = http::HeaderName::from_bytes(format!("x-{i}").as_bytes()).unwrap();
        map.insert(name, "v".parse().unwrap());
    }
    let result = ConnectOptions::builder()
        .headers(map)
        .build()
        .build_request("ws://example.com/");
    assert!(matches!(result.unwrap_err(), Error::WebsocketError(_)));
}

#[test]
fn headers_past_those_that_are_sure_to_fit_may_fit() {
    let mut map = http::HeaderMap::new();
    for i in 0..10000 {
        let name = http::HeaderName::from_bytes(format!("x-{i}").as_bytes()).unwrap();
        map.insert(name, "v".parse().unwrap());
    }
    let request = ConnectOptions::builder()
        .headers(map)
        .build()
        .build_request("ws://example.com/")
        .unwrap();
    assert_eq!(request.headers().len(), 10005);
}

#[test]
fn request_without_a_host_is_refused() {
    let result = ConnectOptions::default().build_request("file:///etc/hosts");
    assert!(matches!(result.unwrap_err(), Error::WebsocketError(_)));
}

#[test]
fn request_takes_thousands_of_extra_headers() {
    let mut builder = ConnectOptions::builder();
    for i in 0..6000 {
        builder = builder.header(&format!("x-{i}"), "v".parse().unwrap());
    }
    let options = builder.build();
    assert_eq!(options.header_count(), 6000);
    let request = options.build_request("ws://example.com/").unwrap();
    assert_eq!(request.headers().len(), 6005);
}

#[test]
fn extra_headers_can_be_set_on_any_request() {
    let options = ConnectOptions::builder()
        .header("X-Token", "extra".parse().unwrap())
        .build();
    let request = http::Request::builder()
        .uri("ws://example.com/path")
        .header("x-token", "own")
        .header("x-own", "kept")
        .body(())
        .unwrap();
    let changed = options.set_headers(request).unwrap();
    assert_eq!(changed.uri().to_string(), "ws://example.com/path");
    assert_eq!(changed.headers().len(), 2);
    assert_eq!(changed.headers().get("x-token").unwrap(), "extra");
    assert_eq!(changed.headers().get("x-own").unwrap(), "kept");
}

#[test]
fn try_header_sets_what_header_sets() {
    let checked = ConnectOptions::builder()
        .try_header("X-Token", "first".parse().unwrap())
        .unwrap()
        .try_header("x-token", "last".parse().unwrap())
        .unwrap();
    let plain = ConnectOptions::builder().header("x-token", "last".parse().unwrap());
    assert_eq!(
        checked.build().extra_headers(),
        plain.build().extra_headers()
    );
}

#[test]
fn try_header_hands_the_builder_back() {
    let builder = ConnectOptions::builder().header("a", "1".parse().unwrap());
    for bad in ["", "two words", "gr\u{fc}n", "a:b"] {
        let unchanged = builder
            .clone()
            .try_header(bad, "v".parse().unwrap())
            .unwrap_err()
            .build();
        assert_eq!(unchanged.header_count(), 1);
        assert_eq!(unchanged.extra_headers().get("a").unwrap(), "1");
    }
}

#[test]
fn try_header_stops_where_another_name_is_not_sure_to_fit() {
    let mut builder = ConnectOptions::builder();
    for i in 0..HEADER_LIMIT {
        builder = builder
            .try_header(&format!("x-{i}"), "v".parse().unwrap())
            .unwrap();
    }
    assert_eq!(builder.header_count(), HEADER_LIMIT);
    let unchanged = builder
        .try_header("one-more", "v".parse().unwrap())
        .unwrap_err();
    assert_eq!(unchanged.header_count(), HEADER_LIMIT);
}
