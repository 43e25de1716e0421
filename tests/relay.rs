use socket_relay::{
    after_accept, AcceptStep, BridgeError, Handler, HandlerAction, IoKind, Pump, PumpAction, PumpPhase, RelayAction,
    RelayClient, RelayPhase,
};

/// Drives one relay exchange against a peer that echoes what it received,
/// writing at most `write_limit` bytes at a time and replying in chunks of
/// `read_limit` bytes.
fn echo_exchange(payload: &[u8], write_limit: usize, read_limit: usize) -> Result<Vec<u8>, BridgeError> {
    let mut client = RelayClient::new(payload.to_vec());
    let mut peer_received: Vec<u8> = Vec::new();
    let mut replied = 0;
    loop {
        match client.next_action() {
            RelayAction::Connect => client.connected(),
            RelayAction::Write => {
                let unsent = client.unsent();
                let n = unsent.len().min(write_limit);
                peer_received.extend_from_slice(&unsent[..n]);
                client.wrote(n);
            }
            RelayAction::CloseWrite => client.write_closed(),
            RelayAction::Read => {
                let end = (replied + read_limit).min(peer_received.len());
                let chunk = peer_received[replied..end].to_vec();
                replied = end;
                client.received(&chunk);
            }
            RelayAction::Finish => return client.finish(),
        }
    }
}

#[test]
fn echo_returns_the_payload() {
    let payload = b"GET /_ping HTTP/1.1\r\nHost: d\r\n\r\n";
    assert_eq!(echo_exchange(payload, 1024, 1024), Ok(payload.to_vec()));
    assert_eq!(echo_exchange(payload, 3, 5), Ok(payload.to_vec()));
}

#[test]
fn echo_of_empty_payload_is_empty() {
    assert_eq!(echo_exchange(b"", 16, 16), Ok(Vec::new()));
}

#[test]
fn echo_of_binary_payload() {
    let payload: Vec<u8> = (0..5000u32).map(|i| (i % 256) as u8).collect();
    assert_eq!(echo_exchange(&payload, 4096, 1000), Ok(payload.clone()));
    assert_eq!(echo_exchange(&payload, 1, 7), Ok(payload));
}

#[test]
fn relay_writes_everything_before_reading() {
    let mut client = RelayClient::new(b"abcdef".to_vec());
    assert_eq!(client.next_action(), RelayAction::Connect);
    client.connected();
    assert_eq!(client.next_action(), RelayAction::Write);
    assert_eq!(client.unsent(), b"abcdef");
    client.wrote(4);
    assert_eq!(client.next_action(), RelayAction::Write);
    assert_eq!(client.unsent(), b"ef");
    client.wrote(2);
    assert_eq!(client.next_action(), RelayAction::CloseWrite);
    client.write_closed();
    assert_eq!(client.next_action(), RelayAction::Read);
}

#[test]
fn peer_closing_without_reply_gives_empty_reply() {
    let mut client = RelayClient::new(b"ping".to_vec());
    client.connected();
    client.wrote(4);
    client.write_closed();
    client.received(&[]);
    assert_eq!(client.phase(), RelayPhase::Done);
    assert_eq!(client.finish(), Ok(Vec::new()));
}

#[test]
fn relay_connect_to_missing_listener_fails() {
    let mut client = RelayClient::new(b"ping".to_vec());
    client.failed(IoKind::ConnectionRefused);
    assert_eq!(client.next_action(), RelayAction::Finish);
    assert_eq!(client.finish(), Err(BridgeError::TransportUnavailable));
    let mut client = RelayClient::new(b"ping".to_vec());
    client.failed(IoKind::PermissionDenied);
    assert_eq!(client.finish(), Err(BridgeError::PermissionDenied));
}

#[test]
fn relay_failure_mid_exchange_is_io_error() {
    let mut client = RelayClient::new(b"ping".to_vec());
    client.connected();
    client.wrote(2);
    client.failed(IoKind::BrokenPipe);
    assert_eq!(client.phase(), RelayPhase::Failed(BridgeError::IOError));
    assert_eq!(client.finish(), Err(BridgeError::IOError));

    let mut client = RelayClient::new(b"ping".to_vec());
    client.connected();
    client.wrote(4);
    client.write_closed();
    client.received(b"po");
    client.failed(IoKind::UnexpectedEof);
    assert_eq!(client.finish(), Err(BridgeError::IOError));
}

#[test]
fn relay_write_of_zero_bytes_fails() {
    let mut client = RelayClient::new(b"ping".to_vec());
    client.connected();
    client.wrote(0);
    assert_eq!(client.finish(), Err(BridgeError::IOError));
}

#[test]
fn pump_forwards_bytes_in_order() {
    let mut pump = Pump::new();
    let mut sink: Vec<u8> = Vec::new();
    let chunks: Vec<Vec<u8>> = vec![b"hello ".to_vec(), b"over the ".to_vec(), b"socket".to_vec(), Vec::new()];
    let mut next = 0;
    loop {
        match pump.next_action() {
            PumpAction::ReadSource => {
                pump.read(chunks[next].clone());
                next += 1;
            }
            PumpAction::WriteSink => {
                let unsent = pump.unsent();
                let n = unsent.len().min(4);
                sink.extend_from_slice(&unsent[..n]);
                pump.wrote(n);
            }
            PumpAction::CloseSink => pump.sink_closed(),
            PumpAction::Stop => break,
        }
    }
    assert_eq!(pump.next_action(), PumpAction::Stop);
    assert_eq!(sink, b"hello over the socket".to_vec());
}

#[test]
fn pump_of_empty_source_drains_at_once() {
    let mut pump = Pump::new();
    pump.read(Vec::new());
    assert_eq!(pump.next_action(), PumpAction::CloseSink);
    pump.sink_closed();
    assert_eq!(pump.next_action(), PumpAction::Stop);
}

#[test]
fn pump_breaks_on_failure() {
    let mut pump = Pump::new();
    pump.read(b"data".to_vec());
    pump.wrote(0);
    assert_eq!(pump.next_action(), PumpAction::Stop);
    let mut pump = Pump::new();
    pump.read(b"data".to_vec());
    pump.failed();
    assert_eq!(pump.next_action(), PumpAction::Stop);
    let _ = PumpPhase::Broken;
}

#[test]
fn handler_returns_only_after_both_loops_and_reaping() {
    let mut h = Handler::new();
    assert_eq!(h.next_action(), HandlerAction::Forward);
    h.inbound_over = true;
    assert_eq!(h.next_action(), HandlerAction::Forward);
    h.outbound_over = true;
    assert_eq!(h.next_action(), HandlerAction::Reap);
    h.reaped = true;
    assert_eq!(h.next_action(), HandlerAction::Return);

    let mut h = Handler::new();
    h.outbound_over = true;
    assert_eq!(h.next_action(), HandlerAction::StopInbound);
}

/// Takes one step of a pump whose source yields `chunks` in turn and whose
/// sink accepts at most `limit` bytes per write.
fn step(pump: &mut Pump, chunks: &[Vec<u8>], next: &mut usize, sink: &mut Vec<u8>, limit: usize) {
    match pump.next_action() {
        PumpAction::ReadSource => {
            let chunk = if *next < chunks.len() { chunks[*next].clone() } else { Vec::new() };
            *next += 1;
            pump.read(chunk);
        }
        PumpAction::WriteSink => {
            let unsent = pump.unsent();
            let n = unsent.len().min(limit);
            sink.extend_from_slice(&unsent[..n]);
            pump.wrote(n);
        }
        PumpAction::CloseSink => pump.sink_closed(),
        PumpAction::Stop => {}
    }
}

#[test]
fn two_connections_do_not_interfere() {
    let a_chunks = vec![b"first ".to_vec(), b"connection".to_vec()];
    let b_chunks = vec![b"the second ".to_vec(), b"one, ".to_vec(), b"longer".to_vec()];
    let (mut a, mut b) = (Pump::new(), Pump::new());
    let (mut a_next, mut b_next) = (0, 0);
    let (mut a_sink, mut b_sink) = (Vec::new(), Vec::new());
    let (mut a_handler, mut b_handler) = (Handler::new(), Handler::new());
    // One step of each connection in turn, with different write sizes.
    while a.next_action() != PumpAction::Stop || b.next_action() != PumpAction::Stop {
        step(&mut a, &a_chunks, &mut a_next, &mut a_sink, 3);
        step(&mut b, &b_chunks, &mut b_next, &mut b_sink, 5);
        if a.next_action() == PumpAction::Stop {
            a_handler.outbound_over = true;
        }
        assert_eq!(b_handler.next_action(), HandlerAction::Forward);
    }
    b_handler.outbound_over = true;
    assert_eq!(a_sink, b"first connection".to_vec());
    assert_eq!(b_sink, b"the second one, longer".to_vec());
    assert_eq!(a_handler.next_action(), HandlerAction::StopInbound);
    assert_eq!(b_handler.next_action(), HandlerAction::StopInbound);
}

#[test]
fn accept_failures_keep_the_server_running() {
    assert_eq!(after_accept(Ok(())), AcceptStep::Serve);
    assert_eq!(after_accept(Err(IoKind::Other)), AcceptStep::Skip);
    assert_eq!(after_accept(Err(IoKind::BrokenPipe)), AcceptStep::Skip);
}
