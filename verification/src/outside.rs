//! Outside types that the library carries.
use vstd::prelude::*;

use std::fmt::Error as FmtError;

use rmp_serde::decode::Error as MsgPackDecodeError;
use rmp_serde::encode::Error as MsgPackEncodeError;
use serde_json::Error as JsonError;
use tokio_tungstenite::tungstenite::Error as WsError;

verus! {

/// `std::fmt::Formatter`, handed to `fmt`.
#[verifier::external_type_specification]
#[verifier::external_body]
pub struct ExFormatter<'a>(std::fmt::Formatter<'a>);

/// `std::fmt::Error`, which `fmt` may return.
#[verifier::external_type_specification]
#[verifier::external_body]
pub struct ExFmtError(FmtError);

/// `std::fmt::Formatter::write_str` appends the text to what is being formatted. What has been
/// formatted so far cannot be read back from a formatter, so nothing is claimed.
pub assume_specification<'a>[ std::fmt::Formatter::<'a>::write_str ](
    f: &mut std::fmt::Formatter<'a>,
    data: &str,
) -> (result: std::fmt::Result)
;

/// `std::fmt::DebugStruct`, which formats a struct.
#[verifier::external_type_specification]
#[verifier::external_body]
pub struct ExDebugStruct<'a, 'b: 'a>(std::fmt::DebugStruct<'a, 'b>);

/// `std::fmt::Formatter::debug_struct` starts to format a struct. What has been formatted so far
/// cannot be read back, so nothing is claimed.
#[verifier::external_body]
pub(crate) fn debug_struct<'a, 'b>(f: &'a mut std::fmt::Formatter<'b>, name: &str) -> (formatting:
    std::fmt::DebugStruct<'a, 'b>) {
    f.debug_struct(name)
}

/// `std::fmt::DebugStruct::field` adds a field that holds a URL. What has been formatted so far
/// cannot be read back, so nothing is claimed.
#[verifier::external_body]
pub(crate) fn debug_url(formatting: &mut std::fmt::DebugStruct<'_, '_>, name: &str, url: &url::Url) {
    formatting.field(name, url);
}

/// `std::fmt::DebugStruct::finish_non_exhaustive` ends a struct that has more fields. What has
/// been formatted so far cannot be read back, so nothing is claimed.
#[verifier::external_body]
pub(crate) fn finish_debug(formatting: &mut std::fmt::DebugStruct<'_, '_>) -> (result:
    std::fmt::Result) {
    formatting.finish_non_exhaustive()
}

/// How long a duration is, in nanoseconds.
pub uninterp spec fn duration_nanos(duration: std::time::Duration) -> nat;

/// `std::time::Duration::from_secs` makes a duration of so many seconds.
pub assume_specification[ std::time::Duration::from_secs ](secs: u64) -> (duration:
    std::time::Duration)
    ensures
        duration_nanos(duration) == secs * 1_000_000_000,
;

/// `std::time::Duration::from_millis` makes a duration of so many milliseconds.
pub assume_specification[ std::time::Duration::from_millis ](millis: u64) -> (duration:
    std::time::Duration)
    ensures
        duration_nanos(duration) == millis * 1_000_000,
;

/// `url::ParseError`, carried as the source of a URL error.
#[verifier::external_type_specification]
#[verifier::external_body]
pub struct ExUrlError(url::ParseError);

/// `url::Url`, a URL.
#[verifier::external_type_specification]
#[verifier::external_body]
pub struct ExUrl(url::Url);

/// A URL written out.
pub uninterp spec fn url_text(url: url::Url) -> Seq<char>;

/// What `url` makes of a text: the URL that it stands for, written out, or why it is none.
pub uninterp spec fn parsed_url(text: Seq<char>) -> Result<Seq<char>, url::ParseError>;

/// `url::Url::parse` reads a text as an absolute URL.
#[verifier::external_body]
pub(crate) fn parse_url(text: &str) -> (url: Result<url::Url, url::ParseError>)
    ensures
        parsed_url(text@) == (match url {
            Ok(url) => Ok(url_text(url)),
            Err(e) => Err(e),
        }),
{
    url::Url::parse(text)
}

/// `url::Url::as_str` gives a URL written out.
#[verifier::external_body]
pub(crate) fn url_str(url: &url::Url) -> (text: &str)
    ensures
        text@ == url_text(*url),
{
    url.as_str()
}

/// `tungstenite::Error`, carried as the source of a websocket error.
#[verifier::external_type_specification]
#[verifier::external_body]
pub struct ExWsError(WsError);

/// `serde_json::Error`, carried by codec errors.
#[verifier::external_type_specification]
#[verifier::external_body]
pub struct ExJsonError(JsonError);

/// `rmp_serde::encode::Error`, carried by codec errors.
#[verifier::external_type_specification]
#[verifier::external_body]
pub struct ExMsgPackEncodeError(MsgPackEncodeError);

/// `rmp_serde::decode::Error`, carried by codec errors.
#[verifier::external_type_specification]
#[verifier::external_body]
pub struct ExMsgPackDecodeError(MsgPackDecodeError);

/// `tokio::sync::oneshot::Sender`, carried to where a send is confirmed.
#[verifier::external_type_specification]
#[verifier::external_body]
#[verifier::reject_recursive_types(T)]
pub struct ExOneshotSender<T>(tokio::sync::oneshot::Sender<T>);

/// `tokio::sync::mpsc::Sender`, carried by the handles that send.
#[verifier::external_type_specification]
#[verifier::external_body]
#[verifier::reject_recursive_types(T)]
pub struct ExMpscSender<T>(tokio::sync::mpsc::Sender<T>);

/// `tokio::sync::mpsc::Sender::clone` makes another sender of the same channel. A sender stands
/// for the channel that it sends to, so the two are equal.
#[verifier::external_body]
pub(crate) fn same_sender<T>(sender: &tokio::sync::mpsc::Sender<T>) -> (same:
    tokio::sync::mpsc::Sender<T>)
    ensures
        same == *sender,
{
    sender.clone()
}

/// `tokio::sync::mpsc::Receiver`, carried by the handles that receive.
#[verifier::external_type_specification]
#[verifier::external_body]
#[verifier::reject_recursive_types(T)]
pub struct ExMpscReceiver<T>(tokio::sync::mpsc::Receiver<T>);

/// `tokio::task::JoinError`, what waiting for the loop may come to.
#[verifier::external_type_specification]
#[verifier::external_body]
pub struct ExJoinError(tokio::task::JoinError);

/// `tokio::task::JoinHandle`, carried by the handle that waits for the loop.
#[verifier::external_type_specification]
#[verifier::external_body]
#[verifier::reject_recursive_types(T)]
pub struct ExJoinHandle<T>(tokio::task::JoinHandle<T>);

/// `std::sync::Mutex`, carried as the place of the terminal error.
#[verifier::external_type_specification]
#[verifier::external_body]
#[verifier::reject_recursive_types(T)]
pub struct ExMutex<T: ?Sized>(std::sync::Mutex<T>);

/// `std::sync::Arc::ptr_eq` tells whether two handles share one allocation. A mutex stands for
/// itself and not for what it holds, so two handles are equal just when they share it.
#[verifier::external_body]
pub(crate) fn same_mutex<T>(
    a: &std::sync::Arc<std::sync::Mutex<T>>,
    b: &std::sync::Arc<std::sync::Mutex<T>>,
) -> (same: bool)
    ensures
        same == (*a == *b),
{
    std::sync::Arc::ptr_eq(a, b)
}

} // verus!
