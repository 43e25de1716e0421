use vstd::prelude::*;

use crate::error::BridgeError;

verus! {

/// The host platform, which decides the transport an endpoint names.
#[derive(Debug, Clone, Copy, PartialEq, Eq, Structural)]
pub enum Platform {
    /// Unix domain sockets, named by filesystem paths.
    Posix,
    /// Named pipes, named `\\.\pipe\<name>`.
    Windows,
}

#[derive(Debug, Clone, Copy, PartialEq, Eq, Structural)]
pub enum TransportKind {
    UnixSocket,
    NamedPipe,
}

/// The optional scheme in front of a socket path: `unix:`.
pub open spec fn unix_scheme() -> Seq<u8> {
    seq![0x75u8, 0x6e, 0x69, 0x78, 0x3a]
}

/// The namespace every pipe name starts with: `\\.\pipe\`.
pub open spec fn pipe_prefix() -> Seq<u8> {
    seq![0x5cu8, 0x5c, 0x2e, 0x5c, 0x70, 0x69, 0x70, 0x65, 0x5c]
}

pub open spec fn has_prefix(s: Seq<u8>, p: Seq<u8>) -> bool {
    p.len() <= s.len() && s.subrange(0, p.len() as int) == p
}

/// What an address names on a platform: on POSIX a socket path, written bare
/// or after `unix:`; on Windows a pipe name. An address of the other
/// platform's form, or one that names nothing, has no listener.
pub open spec fn endpoint_spec(addr: Seq<u8>, platform: Platform) -> Result<(TransportKind, Seq<u8>), BridgeError> {
    match platform {
        Platform::Posix => if has_prefix(addr, pipe_prefix()) {
            Err(BridgeError::TransportUnavailable)
        } else {
            let path = if has_prefix(addr, unix_scheme()) {
                addr.subrange(unix_scheme().len() as int, addr.len() as int)
            } else {
                addr
            };
            if path.len() == 0 {
                Err(BridgeError::TransportUnavailable)
            } else {
                Ok((TransportKind::UnixSocket, path))
            }
        },
        Platform::Windows => if has_prefix(addr, pipe_prefix()) && addr.len() > pipe_prefix().len() {
            Ok((TransportKind::NamedPipe, addr))
        } else {
            Err(BridgeError::TransportUnavailable)
        },
    }
}

fn unix_scheme_bytes() -> (r: Vec<u8>)
    ensures
        r@ == unix_scheme(),
{
    let r = vec![0x75u8, 0x6e, 0x69, 0x78, 0x3a];
    assert(r@ =~= unix_scheme());
    r
}

fn pipe_prefix_bytes() -> (r: Vec<u8>)
    ensures
        r@ == pipe_prefix(),
{
    let r = vec![0x5cu8, 0x5c, 0x2e, 0x5c, 0x70, 0x69, 0x70, 0x65, 0x5c];
    assert(r@ =~= pipe_prefix());
    r
}

fn starts_with(s: &[u8], p: &[u8]) -> (r: bool)
    ensures
        r == has_prefix(s@, p@),
{
    if p.len() > s.len() {
        return false;
    }
    let mut i: usize = 0;
    while i < p.len()
        invariant
            p@.len() <= s@.len(),
            i <= p@.len(),
            s@.subrange(0, i as int) == p@.subrange(0, i as int),
        decreases p@.len() - i,
    {
        if s[i] != p[i] {
            assert(s@.subrange(0, p@.len() as int)[i as int] != p@[i as int]);
            return false;
        }
        assert(s@.subrange(0, i + 1) =~= s@.subrange(0, i as int).push(s@[i as int]));
        assert(p@.subrange(0, i + 1) =~= p@.subrange(0, i as int).push(p@[i as int]));
        i = i + 1;
    }
    assert(p@.subrange(0, p@.len() as int) =~= p@);
    true
}

/// A named local endpoint: a socket path or a pipe name.
pub struct Endpoint {
    kind: TransportKind,
    address: Vec<u8>,
}

impl View for Endpoint {
    type V = (TransportKind, Seq<u8>);

    closed spec fn view(&self) -> (TransportKind, Seq<u8>) {
        (self.kind, self.address@)
    }
}

impl Endpoint {
    /// Reads an endpoint address as the platform's native form.
    pub fn parse(addr: &[u8], platform: Platform) -> (r: Result<Endpoint, BridgeError>)
        ensures
            match endpoint_spec(addr@, platform) {
                Ok(v) => r is Ok && r.unwrap()@ == v,
                Err(e) => r is Err && r->Err_0 == e,
            },
    {
        let pipe = pipe_prefix_bytes();
        let is_pipe = starts_with(addr, pipe.as_slice());
        match platform {
            Platform::Posix => {
                if is_pipe {
                    return Err(BridgeError::TransportUnavailable);
                }
                let scheme = unix_scheme_bytes();
                let path = if starts_with(addr, scheme.as_slice()) {
                    vstd::slice::slice_to_vec(vstd::slice::slice_subrange(addr, scheme.len(), addr.len()))
                } else {
                    vstd::slice::slice_to_vec(addr)
                };
                if path.len() == 0 {
                    Err(BridgeError::TransportUnavailable)
                } else {
                    Ok(Endpoint { kind: TransportKind::UnixSocket, address: path })
                }
            },
            Platform::Windows => {
                if is_pipe && addr.len() > pipe.len() {
                    Ok(Endpoint { kind: TransportKind::NamedPipe, address: vstd::slice::slice_to_vec(addr) })
                } else {
                    Err(BridgeError::TransportUnavailable)
                }
            },
        }
    }

    pub fn kind(&self) -> (r: TransportKind)
        ensures
            r == self@.0,
    {
        self.kind
    }

    /// The socket path or the full pipe name.
    pub fn address(&self) -> (r: &[u8])
        ensures
            r@ == self@.1,
    {
        self.address.as_slice()
    }
}

} // verus!
