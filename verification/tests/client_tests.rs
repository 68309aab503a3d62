use discord_ipc::{Activity, DiscordIPCErrorCode, DiscordIPCErrorCodeCritical, DiscordIPCResponse,
    DiscordIpcClient, Error, Transport, endpoint_name, resolve_pipe_dir};

/// A scripted in-memory channel: records every open attempt and every
/// written buffer, accepts the connection on a chosen attempt, and
/// serves a fixed byte stream to reads.
struct StubTransport {
    open: bool,
    opens: Vec<Vec<u8>>,
    writes: Vec<Vec<u8>>,
    to_read: Vec<u8>,
    read_pos: usize,
    accept_on_attempt: Option<usize>,
    fail_close: bool,
}

impl StubTransport {
    fn refusing() -> Self {
        StubTransport {
            open: false,
            opens: Vec::new(),
            writes: Vec::new(),
            to_read: Vec::new(),
            read_pos: 0,
            accept_on_attempt: None,
            fail_close: false,
        }
    }

    fn accepting(on_attempt: usize, to_read: Vec<u8>) -> Self {
        StubTransport {
            open: false,
            opens: Vec::new(),
            writes: Vec::new(),
            to_read,
            read_pos: 0,
            accept_on_attempt: Some(on_attempt),
            fail_close: false,
        }
    }
}

impl Transport for StubTransport {
    fn try_open(&mut self, endpoint: &Vec<u8>) -> Result<(), Error> {
        let attempt = self.opens.len();
        self.opens.push(endpoint.clone());
        match self.accept_on_attempt {
            Some(n) if attempt >= n => {
                self.open = true;
                self.writes.clear();
                Ok(())
            }
            _ => Err(Error::Io(format!("connection refused on attempt {}", attempt))),
        }
    }

    fn write_all(&mut self, data: &Vec<u8>) -> Result<(), Error> {
        assert!(self.open, "write on a closed stub");
        self.writes.push(data.clone());
        Ok(())
    }

    fn read_exact(&mut self, n: usize) -> Result<Vec<u8>, Error> {
        assert!(self.open, "read on a closed stub");
        if self.read_pos + n > self.to_read.len() {
            return Err(Error::Io("unexpected end of stream".to_string()));
        }
        let buf = self.to_read[self.read_pos..self.read_pos + n].to_vec();
        self.read_pos += n;
        Ok(buf)
    }

    fn close_channel(&mut self) -> Result<(), Error> {
        assert!(self.open, "close on a closed stub");
        self.open = false;
        if self.fail_close {
            return Err(Error::Io("shutdown failed".to_string()));
        }
        Ok(())
    }
}

/// One full frame as the companion would write it: header then body.
fn frame(opcode: u32, body: &[u8]) -> Vec<u8> {
    let mut out = discord_ipc::pack(opcode, body.len() as u32);
    out.extend_from_slice(body);
    out
}

fn ack_frame() -> Vec<u8> {
    frame(1, b"{\"cmd\":\"DISPATCH\",\"data\":null}")
}

#[test]
fn test_connect_retry_exhaustion() {
    let stub = StubTransport::refusing();
    let mut client = DiscordIpcClient::new("123", 42, stub);
    let r = client.connect();
    match r {
        Err(Error::CouldNotConnect(msg)) => {
            assert!(msg.contains("attempt 9"), "last error surfaced: {}", msg);
        }
        other => panic!("expected CouldNotConnect, got {:?}", other),
    }
    let stub = client.transport_ref();
    assert_eq!(stub.opens.len(), 10);
    for (i, name) in stub.opens.iter().enumerate() {
        assert_eq!(name, &format!("discord-ipc-{}", i).into_bytes());
    }
    assert!(!client.is_connected());
}

#[test]
fn test_connect_stops_at_first_success() {
    let stub = StubTransport::accepting(3, ack_frame());
    let mut client = DiscordIpcClient::new("123", 42, stub);
    client.connect().expect("connect succeeds on the fourth endpoint");
    assert!(client.is_connected());
    assert_eq!(client.transport_ref().opens.len(), 4);
}

#[test]
fn test_handshake_frame_and_single_ack_consumed() {
    let stub = StubTransport::accepting(0, ack_frame());
    let mut client = DiscordIpcClient::new("123", 42, stub);
    client.connect().expect("connect succeeds");
    let stub = client.transport_ref();
    assert_eq!(stub.writes.len(), 2, "one header and one body written");
    let body = b"{\"v\":1,\"client_id\":\"123\"}".to_vec();
    assert_eq!(stub.writes[0], discord_ipc::pack(0, body.len() as u32));
    assert_eq!(stub.writes[1], body);
    assert_eq!(
        stub.read_pos,
        stub.to_read.len(),
        "exactly the one acknowledgment frame was consumed"
    );
}

#[test]
fn test_set_activity_emits_one_opcode_1_frame() {
    let activity_json = b"{\"state\":\"playing\",\"details\":\"deep\"}".to_vec();
    let stub = StubTransport::accepting(0, ack_frame());
    let mut client = DiscordIpcClient::new("123", 4242, stub);
    client.connect().expect("connect succeeds");
    let writes_before = client.transport_ref().writes.len();

    client
        .set_activity(Activity::new(activity_json.clone()))
        .expect("set_activity succeeds");

    let stub = client.transport_ref();
    assert_eq!(stub.writes.len(), writes_before + 2, "exactly one frame: header and body");
    let header = &stub.writes[writes_before];
    let body = &stub.writes[writes_before + 1];
    assert_eq!(header, &discord_ipc::pack(1, body.len() as u32));

    let parsed: serde_json::Value = serde_json::from_slice(body).expect("body is valid JSON");
    assert_eq!(parsed["cmd"], serde_json::Value::String("SET_ACTIVITY".to_string()));
    assert_eq!(parsed["args"]["pid"].as_u64(), Some(4242));
    let expected: serde_json::Value = serde_json::from_slice(&activity_json).unwrap();
    assert_eq!(parsed["args"]["activity"], expected, "activity deep-equals what was set");
    assert!(parsed["evt"].is_null());
    let nonce = parsed["nonce"].as_str().expect("nonce is a string");
    assert_eq!(nonce.len(), 36);
}

#[test]
fn test_clear_activity_emits_null_activity() {
    let stub = StubTransport::accepting(0, ack_frame());
    let mut client = DiscordIpcClient::new("123", 4242, stub);
    client.connect().expect("connect succeeds");
    let writes_before = client.transport_ref().writes.len();

    client.clear_activity().expect("clear_activity succeeds");

    let stub = client.transport_ref();
    assert_eq!(stub.writes.len(), writes_before + 2);
    let header = &stub.writes[writes_before];
    let body = &stub.writes[writes_before + 1];
    assert_eq!(header, &discord_ipc::pack(1, body.len() as u32));
    let parsed: serde_json::Value = serde_json::from_slice(body).expect("body is valid JSON");
    assert_eq!(parsed["cmd"], serde_json::Value::String("SET_ACTIVITY".to_string()));
    assert!(parsed["args"]["activity"].is_null());
}

#[test]
fn test_operations_from_unconnected_state() {
    let stub = StubTransport::refusing();
    let mut client = DiscordIpcClient::new("123", 42, stub);
    assert!(matches!(client.recv(), Err(Error::NotConnected)));
    assert!(matches!(client.set_activity(Activity::new(b"{}".to_vec())), Err(Error::NotConnected)));
    assert!(matches!(client.clear_activity(), Err(Error::NotConnected)));
    assert!(matches!(client.close(), Err(Error::NotConnected)));
    assert!(matches!(client.send_handshake(), Err(Error::NotConnected)));
    assert!(matches!(client.reconnect(), Err(Error::NotConnected)));
}

#[test]
fn test_recv_error_notification() {
    let mut stream = ack_frame();
    stream.extend_from_slice(&frame(1, b"{\"error\":1000,\"message\":\"closing\"}"));
    let stub = StubTransport::accepting(0, stream);
    let mut client = DiscordIpcClient::new("123", 42, stub);
    client.connect().expect("connect succeeds");
    let (op, resp) = client.recv().expect("recv succeeds");
    assert_eq!(op, 1);
    match resp {
        DiscordIPCResponse::Error(e) => {
            assert_eq!(
                e.code,
                DiscordIPCErrorCode::Critical(DiscordIPCErrorCodeCritical::CloseNormal)
            );
            assert_eq!(e.message, "closing");
        }
        other => panic!("expected an error notification, got {:?}", other),
    }
}

#[test]
fn test_close_sends_notice_and_shuts_down() {
    let stub = StubTransport::accepting(0, ack_frame());
    let mut client = DiscordIpcClient::new("123", 42, stub);
    client.connect().expect("connect succeeds");
    let writes_before = client.transport_ref().writes.len();
    client.close().expect("close succeeds");
    assert!(!client.is_connected());
    let stub = client.transport_ref();
    assert!(!stub.open, "channel shut down");
    assert_eq!(stub.writes.len(), writes_before + 2);
    assert_eq!(stub.writes[writes_before], discord_ipc::pack(2, 4));
    assert_eq!(stub.writes[writes_before + 1], b"null".to_vec());
}

#[test]
fn test_reconnect_closes_and_handshakes_again() {
    let mut stream = ack_frame();
    stream.extend_from_slice(&ack_frame());
    let stub = StubTransport::accepting(0, stream);
    let mut client = DiscordIpcClient::new("123", 42, stub);
    client.connect().expect("connect succeeds");
    client.reconnect().expect("reconnect succeeds");
    assert!(client.is_connected());
    assert_eq!(client.transport_ref().opens.len(), 2);
}

#[test]
fn test_endpoint_name() {
    assert_eq!(endpoint_name(0), b"discord-ipc-0".to_vec());
    assert_eq!(endpoint_name(9), b"discord-ipc-9".to_vec());
}

#[test]
fn test_resolve_pipe_dir_first_hint_wins() {
    let hints = vec![None, Some("/run/user/1000".to_string()), Some("/tmp".to_string())];
    assert_eq!(resolve_pipe_dir(hints), Ok("/run/user/1000".to_string()));
}

#[test]
fn test_resolve_pipe_dir_no_hint() {
    let hints: Vec<Option<String>> = vec![None, None, None, None];
    assert_eq!(resolve_pipe_dir(hints), Err(Error::CouldNotResolvePipePattern));
}

#[test]
fn test_connect_failed_handshake_leaves_unconnected() {
    // The endpoint accepts but never answers the handshake: the ack
    // read fails, and the failed connect must leave the connection
    // unusable - unconnected, with the channel closed.
    let stub = StubTransport::accepting(0, Vec::new());
    let mut client = DiscordIpcClient::new("123", 42, stub);
    let r = client.connect();
    assert!(matches!(r, Err(Error::Io(_))), "got {:?}", r);
    assert!(!client.is_connected());
    assert!(!client.transport_ref().open, "channel closed after the failed handshake");
}

#[test]
fn test_reconnect_proceeds_when_close_fails() {
    // The close step of reconnect is best-effort: a shutdown error is
    // swallowed and the reconnection still happens.
    let mut stream = ack_frame();
    stream.extend_from_slice(&ack_frame());
    let mut stub = StubTransport::accepting(0, stream);
    stub.fail_close = true;
    let mut client = DiscordIpcClient::new("123", 42, stub);
    client.connect().expect("connect succeeds");
    client.reconnect().expect("reconnect succeeds although the close step failed");
    assert!(client.is_connected());
    assert_eq!(client.transport_ref().opens.len(), 2);
}
