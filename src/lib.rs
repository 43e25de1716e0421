//! A bridge between a local duplex transport (a Unix domain socket or a
//! Windows named pipe) and callers that speak HTTP or plain bytes over it.
//!
//! The library holds every decision of the bridge: how endpoints are named,
//! how transport failures are classified, when an HTTP reply counts as a
//! success, and the state machines that drive a relay exchange and the
//! forwarding of bytes between a peer and a backend. The program around it
//! performs the I/O those state machines ask for.

mod endpoint;
mod error;
mod forward;
mod http;
mod relay;
mod request;

pub use error::{bind_failure, bind_failure_spec, connect_failure, connect_failure_spec, BridgeError, IoKind};
pub use http::{
    accept_reply, http_failure, invalid_text_fails, missing_listener_is_unavailable, ok_reply_is_verbatim,
    other_status_fails, reply_result, HttpFailure,
};
pub use request::{is_method_name, is_token_byte, uri_accepts, valid_request, RequestHead, PLACEHOLDER_HOST};
pub use relay::{echo_returns_payload, reading_follows_writing, RelayAction, RelayClient, RelayPhase, RelayState};
pub use forward::{after_accept, handler_action, AcceptStep, Handler, HandlerAction, Pump, PumpAction, PumpPhase, PumpState};
pub use endpoint::{endpoint_spec, has_prefix, pipe_prefix, unix_scheme, Endpoint, Platform, TransportKind};
