use netcom::dto::WriteRequestDto;
use netcom::netcom::{FrameProgress, NetcomClient, NetcomError, RequestKind};
use netcom::netstring::{encode_netstring, parse_netstring};
use netcom::ops::{ParamMap, RdOp, WrOp, WrValueDto};
use netcom::DEFAULT_PORT;

fn ready_payload(progress: FrameProgress) -> Vec<u8> {
    match progress {
        FrameProgress::Ready(p) => p,
        other => panic!("expected a whole frame, got {:?}", other),
    }
}

/// Drives the handshake as a transport driver would: checks the fixed line,
/// then feeds the version frame the peer answers with.
fn perform_handshake(client: &mut NetcomClient) {
    assert!(client.needs_connect());
    let line = NetcomClient::handshake_line();
    assert_eq!(line, b"PROTO30\n".to_vec());
    let frame = encode_netstring(br#"{"version":"3.0"}"#);
    let payload = ready_payload(client.feed(&frame));
    client.on_handshake_frame(&payload).unwrap();
}

#[test]
fn should_serialize_write_request_dto() {
    let mut p: ParamMap<WrValueDto> = ParamMap::new();
    p.insert("p1".to_string(), WrValueDto::Simple("242.0".to_string()));
    p.insert("p2".to_string(), WrValueDto::Simple("3.14159".to_string()));
    p.insert(
        "p3".to_string(),
        WrValueDto::Detailed {
            v: "1.0".to_string(),
            t: "i16".to_string(),
        },
    );
    let w = WriteRequestDto {
        r: "write".to_string(),
        device: "foo-device".to_string(),
        p,
    };

    let mut p3 = serde_json::Map::new();
    p3.insert("v".to_string(), serde_json::Value::from(1.0));
    p3.insert("t".to_string(), serde_json::Value::from("i16"));
    let mut pm = serde_json::Map::new();
    pm.insert("p1".to_string(), serde_json::Value::from(242.0));
    pm.insert("p2".to_string(), serde_json::Value::from(3.14159));
    pm.insert("p3".to_string(), serde_json::Value::Object(p3));
    let mut root = serde_json::Map::new();
    root.insert("r".to_string(), serde_json::Value::from("write"));
    root.insert("device".to_string(), serde_json::Value::from("foo-device"));
    root.insert("p".to_string(), serde_json::Value::Object(pm));
    let expected = serde_json::Value::Object(root);

    let bytes = w.to_json();
    let value: serde_json::Value = serde_json::from_slice(&bytes).unwrap();
    assert_eq!(value, expected);
}

#[test]
fn write_compiles_duplicate_names_last_wins() {
    let mut client = NetcomClient::new("localhost", DEFAULT_PORT);
    perform_handshake(&mut client);
    let ops = vec![
        WrOp::Default {
            p: "x".to_string(),
            v: "1.0".to_string(),
        },
        WrOp::Default {
            p: "x".to_string(),
            v: "2.0".to_string(),
        },
    ];
    let frame = client.begin_write("dev", ops).unwrap();
    let payload = parse_netstring(&frame).unwrap();
    let value: serde_json::Value = serde_json::from_slice(payload).unwrap();
    let p = value.get("p").unwrap().as_object().unwrap();
    assert_eq!(p.len(), 1);
    assert_eq!(p.get("x").unwrap().as_f64().unwrap(), 2.0);
}

#[test]
fn read_request_frame_is_the_exact_encoding() {
    let mut client = NetcomClient::new("localhost", DEFAULT_PORT);
    perform_handshake(&mut client);
    let ops = vec![
        RdOp::Default {
            p: "p1".to_string(),
        },
        RdOp::WithType {
            p: "p2".to_string(),
            t: "i16".to_string(),
        },
    ];
    let frame = client.begin_read("foo-device", ops).unwrap();
    let expected_json = r#"{"r":"read","device":"foo-device","p":{"p1":null,"p2":{"t":"i16"}}}"#;
    assert_eq!(frame, encode_netstring(expected_json.as_bytes()));
}

#[test]
fn string_values_are_escaped_in_requests() {
    let mut client = NetcomClient::new("localhost", DEFAULT_PORT);
    perform_handshake(&mut client);
    let device = "a\"b\\c\nd";
    let frame = client.begin_read(device, Vec::new()).unwrap();
    let payload = parse_netstring(&frame).unwrap();
    let value: serde_json::Value = serde_json::from_slice(payload).unwrap();
    assert_eq!(value.get("device").unwrap().as_str().unwrap(), device);
}

#[test]
fn protocol_mismatch_reports_both_discriminators() {
    let mut client = NetcomClient::new("localhost", DEFAULT_PORT);
    perform_handshake(&mut client);
    let _frame = client.begin_read("dev", Vec::new()).unwrap();
    let response = encode_netstring(br#"{"R":"write","result":{}}"#);
    let payload = ready_payload(client.feed(&response));
    match client.finish_read(&payload) {
        Err(NetcomError::ResponseError { expected, actual }) => {
            assert_eq!(expected, "read");
            assert_eq!(actual, "write");
        }
        other => panic!("expected a protocol mismatch, got {:?}", other),
    }
    // The connection stays usable: the next transaction goes through.
    assert!(client.is_connected());
    let _frame = client.begin_read("dev", Vec::new()).unwrap();
    let response = encode_netstring(br#"{"R":"read","result":{"a":1.5}}"#);
    let payload = ready_payload(client.feed(&response));
    let map = client.finish_read(&payload).unwrap();
    assert_eq!(map.get(&"a".to_string()), Some(Some("1.5".to_string())));
}

#[test]
fn lazy_connect_handshakes_before_the_first_read() {
    let mut client = NetcomClient::new("localhost", DEFAULT_PORT);
    // No explicit connect: the driver consults the engine, which demands a
    // handshake first, and only then hands out the read frame.
    assert!(!client.is_connected());
    assert!(client.needs_connect());
    assert!(matches!(
        client.begin_read("dev", Vec::new()),
        Err(NetcomError::NotConnected)
    ));
    perform_handshake(&mut client);
    assert!(client.is_connected());
    assert_eq!(client.version(), &Some("3.0".to_string()));
    assert!(!client.needs_connect());
    let frame = client.begin_read("dev", Vec::new()).unwrap();
    assert!(!frame.is_empty());
}

#[test]
fn device_list_round_trip() {
    let mut client = NetcomClient::new("localhost", DEFAULT_PORT);
    perform_handshake(&mut client);
    let frame = client.begin_device_list().unwrap();
    assert_eq!(frame, encode_netstring(br#"{"r":"device-list"}"#));
    let response = encode_netstring(
        br#"{"R":"device-list","devices":[{"id":1,"network":2,"name":"n","description":"d","type":"t"}]}"#,
    );
    let payload = ready_payload(client.feed(&response));
    let devices = client.finish_device_list(&payload).unwrap();
    assert_eq!(devices.len(), 1);
    assert_eq!(devices[0].id, 1);
    assert_eq!(devices[0].network, 2);
    assert_eq!(devices[0].name, "n");
    assert_eq!(devices[0].description, "d");
    assert_eq!(devices[0].device_type, "t");
}

#[test]
fn client_info_round_trip() {
    let mut client = NetcomClient::new("localhost", DEFAULT_PORT);
    perform_handshake(&mut client);
    let frame = client.begin_client_info("tester").unwrap();
    assert_eq!(frame, encode_netstring(br#"{"r":"client-info","name":"tester"}"#));
    let response = encode_netstring(br#"{"R":"client-info"}"#);
    let payload = ready_payload(client.feed(&response));
    client.finish_client_info(&payload).unwrap();
}

#[test]
fn frames_can_arrive_in_pieces() {
    let mut client = NetcomClient::new("localhost", DEFAULT_PORT);
    let frame = encode_netstring(br#"{"version":"3.0"}"#);
    let (a, b) = frame.split_at(5);
    assert!(matches!(client.feed(a), FrameProgress::More));
    let payload = ready_payload(client.feed(b));
    client.on_handshake_frame(&payload).unwrap();
    assert!(client.is_connected());
}

#[test]
fn malformed_frame_is_fatal() {
    let mut client = NetcomClient::new("localhost", DEFAULT_PORT);
    perform_handshake(&mut client);
    assert!(matches!(client.feed(b"xyz"), FrameProgress::Broken));
    assert!(!client.is_connected());
}

#[test]
fn decode_errors_leave_the_connection_usable() {
    let mut client = NetcomClient::new("localhost", DEFAULT_PORT);
    perform_handshake(&mut client);
    let _frame = client.begin_read("dev", Vec::new()).unwrap();
    let response = encode_netstring(b"not json at all");
    let payload = ready_payload(client.feed(&response));
    assert!(matches!(
        client.finish_read(&payload),
        Err(NetcomError::JsonError(_))
    ));
    assert!(client.is_connected());

    let _frame = client.begin_read("dev", Vec::new()).unwrap();
    let bad_utf8: [u8; 2] = [0xff, 0xfe];
    let response = encode_netstring(&bad_utf8);
    let payload = ready_payload(client.feed(&response));
    assert!(matches!(
        client.finish_read(&payload),
        Err(NetcomError::Utf8Error(_))
    ));
    assert!(client.is_connected());
}

#[test]
fn handshake_failure_leaves_no_partial_state() {
    let mut client = NetcomClient::new("localhost", DEFAULT_PORT);
    let frame = encode_netstring(br#"{"unrelated":true}"#);
    let payload = ready_payload(client.feed(&frame));
    assert!(matches!(
        client.on_handshake_frame(&payload),
        Err(NetcomError::JsonError(_))
    ));
    assert!(!client.is_connected());
    assert_eq!(client.version(), &None);
}

#[test]
fn peer_close_and_transport_errors_disconnect() {
    let mut client = NetcomClient::new("localhost", DEFAULT_PORT);
    perform_handshake(&mut client);
    assert!(matches!(
        client.on_peer_closed(),
        NetcomError::ConnectionClosed
    ));
    assert!(!client.is_connected());

    perform_handshake(&mut client);
    let cause = std::io::Error::new(std::io::ErrorKind::Other, "boom");
    assert!(matches!(
        client.on_transport_error(cause),
        NetcomError::StreamError(_)
    ));
    assert!(!client.is_connected());
}

#[test]
fn explicit_disconnect_is_idempotent_and_keeps_the_version() {
    let mut client = NetcomClient::new("localhost", DEFAULT_PORT);
    perform_handshake(&mut client);
    client.disconnect();
    assert!(!client.is_connected());
    client.disconnect();
    assert!(!client.is_connected());
    assert_eq!(client.version(), &Some("3.0".to_string()));
}

#[test]
fn request_kinds_name_their_discriminators() {
    assert_eq!(RequestKind::DeviceList.discriminator(), "device-list");
    assert_eq!(RequestKind::ClientInfo.discriminator(), "client-info");
    assert_eq!(RequestKind::Read.discriminator(), "read");
    assert_eq!(RequestKind::Write.discriminator(), "write");
    assert_eq!(DEFAULT_PORT, 7878);
}

#[test]
fn error_descriptions_name_the_kind() {
    assert_eq!(NetcomError::NotConnected.describe(), "not connected");
    assert_eq!(
        NetcomError::ConnectionClosed.describe(),
        "connection closed by peer"
    );
}
