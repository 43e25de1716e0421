use vstd::prelude::*;

use crate::endpoint::TransportKind;

verus! {

/// The ways an exchange over the bridge can fail.
#[derive(Debug, Clone, Copy, PartialEq, Eq, Structural)]
pub enum BridgeError {
    /// No listener exists at the endpoint.
    TransportUnavailable,
    /// Another listener already occupies the endpoint.
    EndpointInUse,
    /// The caller lacks access to the endpoint.
    PermissionDenied,
    /// A read or a write failed in the middle of an exchange.
    IOError,
    /// The peer's reply is not a well-formed HTTP/1.1 response.
    MalformedResponse,
    /// The HTTP reply carried a status other than 200.
    UnexpectedStatus(u16),
    /// The HTTP reply body is not valid UTF-8.
    EncodingError,
    /// The HTTP method or the URI cannot form a request.
    InvalidRequest,
}

/// What the operating system reported for a failed transport operation.
#[derive(Debug, Clone, Copy, PartialEq, Eq, Structural)]
pub enum IoKind {
    NotFound,
    ConnectionRefused,
    PermissionDenied,
    AddrInUse,
    TimedOut,
    BrokenPipe,
    UnexpectedEof,
    Other,
}

/// The error reported when opening a connection fails with `k`. A connect
/// that times out found no listener that answered.
pub open spec fn connect_failure_spec(k: IoKind) -> BridgeError {
    match k {
        IoKind::NotFound | IoKind::ConnectionRefused | IoKind::TimedOut => BridgeError::TransportUnavailable,
        IoKind::PermissionDenied => BridgeError::PermissionDenied,
        _ => BridgeError::IOError,
    }
}

/// The error reported when binding a listening endpoint of transport `t`
/// fails with `k`. A named pipe that already has an instance refuses a
/// first instance with a permission error: the name is taken.
pub open spec fn bind_failure_spec(t: TransportKind, k: IoKind) -> BridgeError {
    match k {
        IoKind::AddrInUse => BridgeError::EndpointInUse,
        IoKind::PermissionDenied => if t == TransportKind::NamedPipe {
            BridgeError::EndpointInUse
        } else {
            BridgeError::PermissionDenied
        },
        _ => BridgeError::IOError,
    }
}

/// Classifies a failed connect.
pub fn connect_failure(k: IoKind) -> (r: BridgeError)
    ensures
        r == connect_failure_spec(k),
{
    match k {
        IoKind::NotFound | IoKind::ConnectionRefused | IoKind::TimedOut => BridgeError::TransportUnavailable,
        IoKind::PermissionDenied => BridgeError::PermissionDenied,
        _ => BridgeError::IOError,
    }
}

/// Classifies a failed bind of an endpoint of transport `t`.
pub fn bind_failure(t: TransportKind, k: IoKind) -> (r: BridgeError)
    ensures
        r == bind_failure_spec(t, k),
        t == TransportKind::NamedPipe && k == IoKind::PermissionDenied ==> r == BridgeError::EndpointInUse,
{
    match k {
        IoKind::AddrInUse => BridgeError::EndpointInUse,
        IoKind::PermissionDenied => if t == TransportKind::NamedPipe {
            BridgeError::EndpointInUse
        } else {
            BridgeError::PermissionDenied
        },
        _ => BridgeError::IOError,
    }
}

} // verus!
