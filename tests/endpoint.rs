use socket_relay::{BridgeError, Endpoint, Platform, TransportKind};

#[test]
fn bare_socket_path() {
    let e = Endpoint::parse(b"/run/docker.sock", Platform::Posix).unwrap();
    assert_eq!(e.kind(), TransportKind::UnixSocket);
    assert_eq!(e.address(), b"/run/docker.sock");
}

#[test]
fn unix_scheme_is_stripped() {
    let e = Endpoint::parse(b"unix:relative.sock", Platform::Posix).unwrap();
    assert_eq!(e.address(), b"relative.sock");
}

#[test]
fn empty_address_names_nothing() {
    assert!(matches!(Endpoint::parse(b"", Platform::Posix), Err(BridgeError::TransportUnavailable)));
    assert!(matches!(Endpoint::parse(b"unix:", Platform::Posix), Err(BridgeError::TransportUnavailable)));
    assert!(matches!(Endpoint::parse(b"", Platform::Windows), Err(BridgeError::TransportUnavailable)));
}

#[test]
fn pipe_name_on_posix_is_unavailable() {
    assert!(matches!(Endpoint::parse(br"\\.\pipe\docker_engine", Platform::Posix), Err(BridgeError::TransportUnavailable)));
}

#[test]
fn pipe_name_on_windows() {
    let e = Endpoint::parse(br"\\.\pipe\podman-desktop-companion", Platform::Windows).unwrap();
    assert_eq!(e.kind(), TransportKind::NamedPipe);
    assert_eq!(e.address(), br"\\.\pipe\podman-desktop-companion");
}

#[test]
fn windows_needs_a_pipe_name() {
    assert!(matches!(Endpoint::parse(br"\\.\pipe\", Platform::Windows), Err(BridgeError::TransportUnavailable)));
    assert!(matches!(Endpoint::parse(b"unix:/tmp/test.sock", Platform::Windows), Err(BridgeError::TransportUnavailable)));
    assert!(matches!(Endpoint::parse(b"/tmp/test.sock", Platform::Windows), Err(BridgeError::TransportUnavailable)));
}
