use vstd::prelude::*;

use vstd::utf8::{decode_utf8, valid_utf8};

use crate::error::{connect_failure_spec, BridgeError, IoKind};

verus! {

/// Relies on `String::from_utf8`: it accepts exactly the valid UTF-8 byte
/// sequences and keeps the text they encode.
#[verifier::external_body]
fn utf8_to_string(b: Vec<u8>) -> (r: Option<String>)
    ensures
        r is Some <==> valid_utf8(b@),
        r is Some ==> r.unwrap()@ == decode_utf8(b@),
{
    String::from_utf8(b).ok()
}

/// What a reply with status `status` and body `body` yields: only `200` is a
/// success, and its body must be UTF-8 text.
pub open spec fn reply_result(status: u16, body: Seq<u8>) -> Result<(u16, Seq<char>), BridgeError> {
    if status != 200 {
        Err(BridgeError::UnexpectedStatus(status))
    } else {
        if valid_utf8(body) {
            Ok((status, decode_utf8(body)))
        } else {
            Err(BridgeError::EncodingError)
        }
    }
}

/// Checks a parsed HTTP reply: a status other than `200` fails with
/// `UnexpectedStatus`, a body that is not UTF-8 fails with `EncodingError`,
/// and otherwise the status and the body's text come back verbatim.
pub fn accept_reply(status: u16, body: Vec<u8>) -> (r: Result<(u16, String), BridgeError>)
    ensures
        match r {
            Ok((code, text)) => reply_result(status, body@) == Ok::<(u16, Seq<char>), BridgeError>((code, text@)),
            Err(e) => reply_result(status, body@) == Err::<(u16, Seq<char>), BridgeError>(e),
        },
{
    if status != 200 {
        return Err(BridgeError::UnexpectedStatus(status));
    }
    match utf8_to_string(body) {
        Some(text) => Ok((status, text)),
        None => Err(BridgeError::EncodingError),
    }
}

/// How the HTTP exchange over an open connection failed.
#[derive(Debug, Clone, Copy, PartialEq, Eq, Structural)]
pub enum HttpFailure {
    /// The peer's bytes do not parse as an HTTP/1.1 response.
    Parse,
    /// The connection broke while the request was written or the reply read.
    Io,
}

/// Classifies a failed HTTP exchange.
pub fn http_failure(f: HttpFailure) -> (r: BridgeError)
    ensures
        f == HttpFailure::Parse ==> r == BridgeError::MalformedResponse,
        f == HttpFailure::Io ==> r == BridgeError::IOError,
{
    match f {
        HttpFailure::Parse => BridgeError::MalformedResponse,
        HttpFailure::Io => BridgeError::IOError,
    }
}

/// A `200` reply whose body is UTF-8 text yields status `200` and that text
/// verbatim.
pub proof fn ok_reply_is_verbatim(body: Seq<u8>)
    requires
        valid_utf8(body),
    ensures
        reply_result(200, body) == Ok::<(u16, Seq<char>), BridgeError>((200u16, decode_utf8(body))),
{
}

/// A reply with any status but `200` (a `404`, a `500`) fails with
/// `UnexpectedStatus` carrying that status; its body is never returned.
pub proof fn other_status_fails(status: u16, body: Seq<u8>)
    requires
        status != 200,
    ensures
        reply_result(status, body) == Err::<(u16, Seq<char>), BridgeError>(BridgeError::UnexpectedStatus(status)),
{
}

/// A `200` reply whose body is not valid UTF-8 fails with `EncodingError`.
pub proof fn invalid_text_fails(body: Seq<u8>)
    requires
        !valid_utf8(body),
    ensures
        reply_result(200, body) == Err::<(u16, Seq<char>), BridgeError>(BridgeError::EncodingError),
{
}

/// A connect that finds no listener at the endpoint, or that runs out of
/// time waiting for one, fails with `TransportUnavailable`.
pub proof fn missing_listener_is_unavailable(k: IoKind)
    requires
        k == IoKind::NotFound || k == IoKind::ConnectionRefused || k == IoKind::TimedOut,
    ensures
        connect_failure_spec(k) == BridgeError::TransportUnavailable,
{
}

} // verus!
