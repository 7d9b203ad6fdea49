//! What the library has from other crates, and what it takes them to do.
use eventual::{Complete, Future};
use rmp_serde::decode::Error as MsgPackFailure;
use serde_json::Error as JsonFailure;
use vstd::prelude::*;
use vstd::utf8::{decode_utf8, valid_utf8};
use websocket::url::{ParseError, Url};

use crate::address::host_fits;
use crate::error::{Error, UrlError};
use crate::messages::ID;

verus! {

/// An error of the WebSocket, carried through unread.
#[verifier::external_type_specification]
#[verifier::external_body]
pub struct ExWebSocketError(websocket::WebSocketError);

/// An error of the JSON parser, carried through unread.
#[verifier::external_type_specification]
#[verifier::external_body]
pub struct ExJsonError(JsonFailure);

/// An error of the MsgPack parser, carried through unread.
#[verifier::external_type_specification]
#[verifier::external_body]
pub struct ExMsgPackError(MsgPackFailure);

/// The error of `std::str::from_utf8`, which nothing reads.
#[verifier::external_type_specification]
#[verifier::external_body]
pub struct ExUtf8Error(std::str::Utf8Error);

/// The producing half of a promise.
#[verifier::external_type_specification]
#[verifier::external_body]
#[verifier::reject_recursive_types(T)]
#[verifier::reject_recursive_types(E)]
pub struct ExComplete<T: Send + 'static, E: Send + 'static>(Complete<T, E>);

/// The consuming half of a promise.
#[verifier::external_type_specification]
#[verifier::external_body]
#[verifier::reject_recursive_types(T)]
#[verifier::reject_recursive_types(E)]
pub struct ExFuture<T: Send + 'static, E: Send + 'static>(Future<T, E>);

/// Whether the two are halves of one promise of a subscription: completing
/// the first with a number settles the second with it.
pub uninterp spec fn settles_subscription(
    promise: Complete<ID, Error>,
    future: Future<ID, Error>,
) -> bool;

/// `eventual::Future::pair`, which makes the two halves of a fresh promise.
#[verifier::external_body]
pub(crate) fn subscription_promise() -> (pair: (Complete<ID, Error>, Future<ID, Error>))
    ensures
        settles_subscription(pair.0, pair.1),
{
    Future::pair()
}

/// Whether the two are halves of one promise that something is over:
/// completing the first settles the second.
pub uninterp spec fn settles_completion(
    promise: Complete<(), Error>,
    future: Future<(), Error>,
) -> bool;

/// `eventual::Future::pair`, which makes the two halves of a fresh promise.
#[verifier::external_body]
pub(crate) fn completion_promise() -> (pair: (Complete<(), Error>, Future<(), Error>))
    ensures
        settles_completion(pair.0, pair.1),
{
    Future::pair()
}

/// `std::str::from_utf8` gives the text that the bytes encode, and fails on
/// exactly those bytes that are not valid UTF-8.
pub assume_specification<'a>[ std::str::from_utf8 ](bytes: &'a [u8]) -> (text: Result<
    &'a str,
    std::str::Utf8Error,
>)
    ensures
        text matches Ok(s) ==> valid_utf8(bytes@) && s@ == decode_utf8(bytes@),
        text is Err ==> !valid_utf8(bytes@),
;

/// What `websocket::url::Url::parse` makes of a text: the URL in its normal
/// form, or what is wrong with the text.
pub uninterp spec fn parsed_url(text: Seq<char>) -> Result<Seq<char>, UrlError>;

/// `websocket::url::Url::parse`, with the URL given as its serialization and
/// the error as the library's own. The result depends on the text alone. On a
/// text that is not certain to fit, `url` or `idna` may overflow a count and panic.
#[verifier::external_body]
pub(crate) fn parse_url(text: &str) -> (url: Result<String, UrlError>)
    requires
        host_fits(text@),
    ensures
        url matches Ok(u) ==> parsed_url(text@) is Ok && parsed_url(text@)->Ok_0 == u@,
        url matches Err(e) ==> parsed_url(text@) is Err && parsed_url(text@)->Err_0 == e,
{
    Url::parse(text).map(|url| url.into_string()).map_err(|e| match e {
        ParseError::EmptyHost => UrlError::EmptyHost,
        ParseError::IdnaError => UrlError::IdnaError,
        ParseError::InvalidPort => UrlError::InvalidPort,
        ParseError::InvalidIpv4Address => UrlError::InvalidIpv4Address,
        ParseError::InvalidIpv6Address => UrlError::InvalidIpv6Address,
        ParseError::InvalidDomainCharacter => UrlError::InvalidDomainCharacter,
        ParseError::RelativeUrlWithoutBase => UrlError::RelativeUrlWithoutBase,
        ParseError::RelativeUrlWithCannotBeABaseBase => UrlError::RelativeUrlWithCannotBeABaseBase,
        ParseError::SetHostOnCannotBeABaseUrl => UrlError::SetHostOnCannotBeABaseUrl,
        ParseError::Overflow => UrlError::Overflow,
    })
}

} // verus!
