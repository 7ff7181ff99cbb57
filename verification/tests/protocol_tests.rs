use remote_listener::codec::decode_request;
use remote_listener::codec::FramingError;
use remote_listener::dispatch::dispatch;
use remote_listener::dispatch::resolve_shutdown_delay;
use remote_listener::dispatch::Action;
use remote_listener::dispatch::DispatchError;
use remote_listener::protocol::ContentType;
use remote_listener::protocol::InfoType;
use remote_listener::protocol::PayloadType;
use remote_listener::protocol::Request;

fn request_with(content_type: ContentType, payload: &str) -> Request {
    Request {
        payload: payload.to_string(),
        info: InfoType::Instant,
        content_type,
        content_length: payload.len() as u8,
    }
}

#[test]
fn decode_open_frame_reproduces_fields() {
    let buf = [0x01u8, 0x01, 0x04, b'o', b'p', b'e', b'n'];
    let req = decode_request(&buf).unwrap();
    assert_eq!(req.payload, "open");
    assert_eq!(req.content_type, ContentType::OperaGx);
    assert_eq!(req.info, InfoType::Instant);
    assert_eq!(req.content_length, 4);
}

#[test]
fn scenario_open_spawns_target() {
    let buf = [0x01u8, 0x01, 0x04, b'o', b'p', b'e', b'n'];
    let req = decode_request(&buf).unwrap();
    assert_eq!(dispatch(&req), Ok(Action::SpawnTarget));
}

#[test]
fn scenario_off_kills_target_processes() {
    let buf = [0x01u8, 0x01, 0x03, b'o', b'f', b'f'];
    let req = decode_request(&buf).unwrap();
    assert_eq!(dispatch(&req), Ok(Action::KillTargetProcesses));
}

#[test]
fn scenario_os_off_schedules_immediate_shutdown() {
    let buf = [0x02u8, 0x01, 0x03, b'o', b'f', b'f'];
    let req = decode_request(&buf).unwrap();
    assert_eq!(dispatch(&req), Ok(Action::ScheduleShutdown { delay_seconds: 0 }));
}

#[test]
fn scenario_os_open_is_unsupported() {
    let buf = [0x02u8, 0x01, 0x04, b'o', b'p', b'e', b'n'];
    let req = decode_request(&buf).unwrap();
    assert_eq!(req.content_type, ContentType::OS);
    assert_eq!(req.payload, "open");
    assert_eq!(dispatch(&req), Err(DispatchError::UnsupportedCommand));
}

#[test]
fn unknown_header_bytes_decode_to_unsupported() {
    let buf = [0x00u8, 0x37, 0x00];
    let req = decode_request(&buf).unwrap();
    assert_eq!(req.content_type, ContentType::Unsupported);
    assert_eq!(req.info, InfoType::Unsupported);
    assert_eq!(req.payload, "");
    assert_eq!(req.content_length, 0);
}

#[test]
fn delayed_info_byte_decodes() {
    let buf = [0x01u8, 0x02, 0x00];
    let req = decode_request(&buf).unwrap();
    assert_eq!(req.info, InfoType::Delayed);
}

#[test]
fn empty_buffer_is_truncated() {
    let buf: [u8; 0] = [];
    assert!(matches!(decode_request(&buf), Err(FramingError::TruncatedFrame)));
}

#[test]
fn header_only_shorter_than_three_bytes_is_truncated() {
    let buf = [0x01u8, 0x01];
    assert!(matches!(decode_request(&buf), Err(FramingError::TruncatedFrame)));
}

#[test]
fn missing_payload_bytes_are_truncated() {
    let buf = [0x01u8, 0x01, 0x04, b'o', b'p'];
    assert!(matches!(decode_request(&buf), Err(FramingError::TruncatedFrame)));
}

#[test]
fn invalid_utf8_payload_is_rejected() {
    let buf = [0x01u8, 0x01, 0x02, 0xff, 0xfe];
    assert!(matches!(decode_request(&buf), Err(FramingError::InvalidEncoding)));
}

#[test]
fn lone_continuation_byte_is_rejected() {
    let buf = [0x01u8, 0x01, 0x01, 0x80];
    assert!(matches!(decode_request(&buf), Err(FramingError::InvalidEncoding)));
}

#[test]
fn overlong_encoding_is_rejected() {
    let buf = [0x01u8, 0x01, 0x02, 0xc0, 0xaf];
    assert!(matches!(decode_request(&buf), Err(FramingError::InvalidEncoding)));
}

#[test]
fn multibyte_payload_text_is_reproduced() {
    let payload = "héllo ∀";
    let bytes = payload.as_bytes();
    let mut buf = vec![0x01u8, 0x02, bytes.len() as u8];
    buf.extend_from_slice(bytes);
    let req = decode_request(&buf).unwrap();
    assert_eq!(req.payload, payload);
    assert_eq!(req.info, InfoType::Delayed);
    assert_eq!(req.content_length, bytes.len() as u8);
}

#[test]
fn longest_payload_length_is_reproduced() {
    let payload = "a".repeat(255);
    let mut buf = vec![0x01u8, 0x01, 255];
    buf.extend_from_slice(payload.as_bytes());
    let req = decode_request(&buf).unwrap();
    assert_eq!(req.payload, payload);
    assert_eq!(req.content_length, 255);
}

#[test]
fn bytes_past_declared_length_are_ignored() {
    let buf = [0x01u8, 0x01, 0x02, b'h', b'i', b'X', b'Y'];
    let req = decode_request(&buf).unwrap();
    assert_eq!(req.payload, "hi");
    assert_eq!(req.content_length, 2);
}

#[test]
fn action_keyword_is_case_insensitive_and_stops_at_separator() {
    let req = request_with(ContentType::OperaGx, "OPEN;ignored");
    assert_eq!(PayloadType::from(&req), PayloadType::Open);
    let req = request_with(ContentType::OperaGx, "OfF;x;y");
    assert_eq!(PayloadType::from(&req), PayloadType::ShutDown);
    let req = request_with(ContentType::OperaGx, "Off");
    assert_eq!(PayloadType::from(&req), PayloadType::ShutDown);
    let req = request_with(ContentType::OperaGx, "open extra");
    assert_eq!(PayloadType::from(&req), PayloadType::Unsupported);
    let req = request_with(ContentType::OperaGx, "");
    assert_eq!(PayloadType::from(&req), PayloadType::Unsupported);
    let req = request_with(ContentType::OperaGx, ";open");
    assert_eq!(PayloadType::from(&req), PayloadType::Unsupported);
    let req = request_with(ContentType::OperaGx, "shutdown");
    assert_eq!(PayloadType::from(&req), PayloadType::Unsupported);
}

#[test]
fn dispatch_table_has_exactly_three_entries() {
    let contents = [ContentType::OperaGx, ContentType::OS, ContentType::Unsupported];
    let payloads = ["open", "off", "nope"];
    for content_type in contents {
        for payload in payloads {
            let req = request_with(content_type, payload);
            let result = dispatch(&req);
            let expected = match (content_type, payload) {
                (ContentType::OperaGx, "open") => Ok(Action::SpawnTarget),
                (ContentType::OperaGx, "off") => Ok(Action::KillTargetProcesses),
                (ContentType::OS, "off") => Ok(Action::ScheduleShutdown { delay_seconds: 0 }),
                _ => Err(DispatchError::UnsupportedCommand),
            };
            assert_eq!(result, expected);
        }
    }
}

#[test]
fn shutdown_delay_defaults_to_immediate() {
    assert_eq!(resolve_shutdown_delay(None), 0);
    assert_eq!(resolve_shutdown_delay(Some(30)), 30);
}
