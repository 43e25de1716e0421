use vstd::prelude::*;
use vstd::string::StringSliceAdditionalSpecFns;

use axum::http::{Method, Uri};

use crate::error::BridgeError;

verus! {

/// The `Host` header that every request carries: the transport has no real
/// host, so the value is a placeholder.
pub const PLACEHOLDER_HOST: &'static str = "d";

/// An HTTP token character (RFC 9110), the characters a method name is made of.
pub open spec fn is_token_byte(b: u8) -> bool {
    (0x30 <= b && b <= 0x39) || (0x41 <= b && b <= 0x5a) || (0x61 <= b && b <= 0x7a)
        || b == 0x21 || b == 0x23 || b == 0x24 || b == 0x25 || b == 0x26 || b == 0x27
        || b == 0x2a || b == 0x2b || b == 0x2d || b == 0x2e || b == 0x5e || b == 0x5f
        || b == 0x60 || b == 0x7c || b == 0x7e
}

/// A method name: a non-empty run of token characters.
pub open spec fn is_method_name(s: Seq<u8>) -> bool {
    s.len() > 0 && forall|i: int| 0 <= i < s.len() ==> is_token_byte(#[trigger] s[i])
}

/// Whether the `http` crate accepts `s` as a request target.
pub uninterp spec fn uri_accepts(s: Seq<u8>) -> bool;

/// Relies on `http::Method::from_bytes`: it accepts exactly the non-empty
/// byte strings whose every byte is a token character.
#[verifier::external_body]
fn method_ok(b: &[u8]) -> (r: bool)
    ensures
        r == is_method_name(b@),
{
    Method::from_bytes(b).is_ok()
}

/// Relies on `http::Uri`'s `TryFrom<&[u8]>`: it decides on the bytes alone,
/// and refuses the empty string.
#[verifier::external_body]
fn target_ok(b: &[u8]) -> (r: bool)
    ensures
        r == uri_accepts(b@),
        b@.len() == 0 ==> !r,
{
    Uri::try_from(b).is_ok()
}

/// Whether `method` and `uri` can form a request.
pub open spec fn valid_request(method: &str, uri: &str) -> bool {
    is_method_name(method.spec_bytes()) && uri_accepts(uri.spec_bytes())
}

/// The head of an HTTP/1.1 request: its method and its target, as the
/// caller wrote them. The body is always empty and the `Host` header is
/// [`PLACEHOLDER_HOST`].
pub struct RequestHead {
    method: Vec<u8>,
    target: Vec<u8>,
}

impl View for RequestHead {
    type V = (Seq<u8>, Seq<u8>);

    closed spec fn view(&self) -> (Seq<u8>, Seq<u8>) {
        (self.method@, self.target@)
    }
}

impl RequestHead {
    /// Builds the head of a request for `method` and `uri`; fails with
    /// `InvalidRequest` exactly when one of them cannot stand in a request.
    pub fn new(method: &str, uri: &str) -> (r: Result<RequestHead, BridgeError>)
        ensures
            r is Ok <==> valid_request(method, uri),
            r is Ok ==> r->Ok_0@ == (method.spec_bytes(), uri.spec_bytes()),
            r is Err ==> r->Err_0 == BridgeError::InvalidRequest,
    {
        let m = method.as_bytes();
        let t = uri.as_bytes();
        if method_ok(m) && target_ok(t) {
            Ok(RequestHead { method: vstd::slice::slice_to_vec(m), target: vstd::slice::slice_to_vec(t) })
        } else {
            Err(BridgeError::InvalidRequest)
        }
    }

    /// The method name.
    pub fn method(&self) -> (r: &[u8])
        ensures
            r@ == self@.0,
    {
        self.method.as_slice()
    }

    /// The request target.
    pub fn target(&self) -> (r: &[u8])
        ensures
            r@ == self@.1,
    {
        self.target.as_slice()
    }
}

} // verus!
