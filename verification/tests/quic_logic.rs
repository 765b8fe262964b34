use quicfs::quic::client::{bind_address_for, hex_dump};
use quicfs::quic::events::{
    client_event_action, client_readiness, server_event_action, server_readiness,
    should_start_http3, ClientEventAction, ClientState, ClientStep, Http3Event, PollEvent,
    ReadinessError, ServerEventAction,
};
use quicfs::quic::partial::{BodyOutcome, HeadersOutcome, PartialResponses};
use quicfs::quic::response::{build_response, decimal_bytes, plan_response, Header, ResponsePlan};
use quicfs::quic::server::{
    new_client_action, retry_source_id, version_is_supported, NewClientAction, PacketType,
    MAX_CONN_ID_LEN,
};
use quicfs::quic::token::{mint_token, validate_token, IpAddress};

fn header(name: &[u8], value: &[u8]) -> Header {
    Header { name: name.to_vec(), value: value.to_vec() }
}

#[test]
fn minted_token_layout() {
    let addr = IpAddress::V4([127, 0, 0, 1]);
    let token = mint_token(&[0xaa, 0xbb], &addr);
    assert_eq!(token, b"quiche\x7f\x00\x00\x01\xaa\xbb".to_vec());
}

#[test]
fn minted_token_validates_for_its_client() {
    let v4 = IpAddress::V4([10, 1, 2, 3]);
    let v6 = IpAddress::V6([0x20, 0x01, 0x0d, 0xb8, 0, 0, 0, 0, 0, 0, 0, 0, 0, 0, 0, 1]);
    for addr in [v4, v6] {
        let dcid = vec![1, 2, 3, 4, 5, 6, 7, 8];
        let token = mint_token(&dcid, &addr);
        assert_eq!(validate_token(&addr, &token), Some(dcid));
    }
}

#[test]
fn token_for_another_client_is_refused() {
    let token = mint_token(&[9, 9], &IpAddress::V4([10, 0, 0, 1]));
    assert_eq!(validate_token(&IpAddress::V4([10, 0, 0, 2]), &token), None);
}

#[test]
fn token_without_marker_is_refused() {
    assert_eq!(validate_token(&IpAddress::V4([1, 2, 3, 4]), b"quich"), None);
    assert_eq!(validate_token(&IpAddress::V4([1, 2, 3, 4]), b"QUICHE\x01\x02\x03\x04"), None);
    assert_eq!(validate_token(&IpAddress::V4([1, 2, 3, 4]), b"quiche\x01\x02"), None);
    assert_eq!(validate_token(&IpAddress::V4([1, 2, 3, 4]), b"quiche\x01\x02\x03\x04"), Some(vec![]));
}

#[test]
fn supported_versions() {
    assert!(version_is_supported(1));
    assert!(version_is_supported(0xff00_001d));
    assert!(version_is_supported(0xff00_001b));
    assert!(!version_is_supported(0xff00_001a));
    assert!(!version_is_supported(2));
}

#[test]
fn new_client_not_initial_is_rejected() {
    let addr = IpAddress::V4([1, 1, 1, 1]);
    match new_client_action(PacketType::Handshake, 1, &None, &[1], &addr) {
        NewClientAction::Reject(e) => assert_eq!(e.message, "Packet is not Initial"),
        _ => panic!("expected a rejection"),
    }
}

#[test]
fn new_client_unknown_version_is_negotiated() {
    let addr = IpAddress::V4([1, 1, 1, 1]);
    assert!(matches!(
        new_client_action(PacketType::Initial, 0xbabababa, &None, &[1], &addr),
        NewClientAction::NegotiateVersion
    ));
}

#[test]
fn new_client_without_token_gets_retry_then_accept() {
    let addr = IpAddress::V4([192, 168, 0, 7]);
    let dcid = [5, 6, 7, 8];
    let token = match new_client_action(PacketType::Initial, 1, &Some(Vec::new()), &dcid, &addr) {
        NewClientAction::Retry { token } => token,
        _ => panic!("expected a retry"),
    };
    assert_eq!(token, mint_token(&dcid, &addr));
    match new_client_action(PacketType::Initial, 1, &Some(token), &[0; 20], &addr) {
        NewClientAction::Accept { odcid } => assert_eq!(odcid, dcid.to_vec()),
        _ => panic!("expected acceptance"),
    }
}

#[test]
fn new_client_with_bad_token_is_rejected() {
    let addr = IpAddress::V4([192, 168, 0, 7]);
    match new_client_action(PacketType::Initial, 1, &Some(b"nonsense".to_vec()), &[1], &addr) {
        NewClientAction::Reject(e) => assert_eq!(e.message, "Invalid address validation token"),
        _ => panic!("expected a rejection"),
    }
}

#[test]
fn retry_source_id_is_a_connection_id_long() {
    let key: Vec<u8> = (0u8..32).collect();
    let scid = retry_source_id(&key, &[1, 2, 3]);
    assert_eq!(scid.len(), MAX_CONN_ID_LEN);
    assert_eq!(scid, retry_source_id(&key, &[1, 2, 3]));
    let ring_key = ring::hmac::Key::new(ring::hmac::HMAC_SHA256, &key);
    let full = ring::hmac::sign(&ring_key, &[1, 2, 3]);
    assert_eq!(&scid[..], &full.as_ref()[..20]);
    assert_ne!(scid, retry_source_id(&key, &[1, 2, 4]));
}

#[test]
fn retry_source_id_is_rfc4231_hmac_sha256_prefix() {
    // RFC 4231, test case 2: key "Jefe", data "what do ya want for nothing?".
    let scid = retry_source_id(b"Jefe", b"what do ya want for nothing?");
    let expected: [u8; 20] = [
        0x5b, 0xdc, 0xc1, 0x46, 0xbf, 0x60, 0x75, 0x4e, 0x6a, 0x04, 0x24, 0x26, 0x08, 0x95, 0x75,
        0xc7, 0x5a, 0x00, 0x3f, 0x08,
    ];
    assert_eq!(scid, expected.to_vec());
}

#[test]
fn hex_dump_is_lower_case_two_digits_per_byte() {
    assert_eq!(hex_dump(&[]), "");
    assert_eq!(hex_dump(&[0x00, 0x0f, 0xa0, 0xff, 0x3c]), "000fa0ff3c");
}

#[test]
fn bind_address_follows_peer_family() {
    assert_eq!(bind_address_for(true), "0.0.0.0:0");
    assert_eq!(bind_address_for(false), "[::]:0");
}

#[test]
fn decimal_digits() {
    assert_eq!(decimal_bytes(0), b"0".to_vec());
    assert_eq!(decimal_bytes(200), b"200".to_vec());
    assert_eq!(decimal_bytes(18446744073709551615), b"18446744073709551615".to_vec());
}

#[test]
fn get_request_is_served_from_below_root() {
    let headers = vec![
        header(b":method", b"GET"),
        header(b":path", b"/../etc/./passwd//x/.."),
        header(b"user-agent", b"test"),
    ];
    match plan_response(b"examples/root", &headers) {
        ResponsePlan::ServeFile { path } => assert_eq!(path, b"examples/root/etc/passwd/x".to_vec()),
        ResponsePlan::MethodNotAllowed => panic!("GET refused"),
    }
}

#[test]
fn last_path_and_method_headers_count() {
    let headers = vec![
        header(b":path", b"/a"),
        header(b":method", b"POST"),
        header(b":path", b"/b/c"),
        header(b":method", b"GET"),
    ];
    match plan_response(b"root/", &headers) {
        ResponsePlan::ServeFile { path } => assert_eq!(path, b"root/b/c".to_vec()),
        ResponsePlan::MethodNotAllowed => panic!("GET refused"),
    }
    match plan_response(b"", &[header(b":method", b"GET")]) {
        ResponsePlan::ServeFile { path } => assert_eq!(path, Vec::<u8>::new()),
        ResponsePlan::MethodNotAllowed => panic!("GET refused"),
    }
}

#[test]
fn other_methods_are_not_allowed() {
    let post = vec![header(b":method", b"POST"), header(b":path", b"/index.html")];
    assert!(matches!(plan_response(b"root", &post), ResponsePlan::MethodNotAllowed));
    let none = vec![header(b":path", b"/index.html")];
    assert!(matches!(plan_response(b"root", &none), ResponsePlan::MethodNotAllowed));
    let (headers, body) = build_response(&ResponsePlan::MethodNotAllowed, Some(b"x".to_vec()));
    assert_eq!(body, Vec::<u8>::new());
    assert_eq!(headers[0].name, b":status".to_vec());
    assert_eq!(headers[0].value, b"405".to_vec());
    assert_eq!(headers[2].value, b"0".to_vec());
}

#[test]
fn served_file_and_missing_file_responses() {
    let plan = ResponsePlan::ServeFile { path: b"root/a".to_vec() };
    let (headers, body) = build_response(&plan, Some(b"hello world".to_vec()));
    assert_eq!(body, b"hello world".to_vec());
    assert_eq!(headers.len(), 3);
    assert_eq!((headers[0].name.clone(), headers[0].value.clone()), (b":status".to_vec(), b"200".to_vec()));
    assert_eq!((headers[1].name.clone(), headers[1].value.clone()), (b"server".to_vec(), b"quiche".to_vec()));
    assert_eq!(
        (headers[2].name.clone(), headers[2].value.clone()),
        (b"content-length".to_vec(), b"11".to_vec())
    );
    let (headers, body) = build_response(&plan, None);
    assert_eq!(body, b"Not Found!".to_vec());
    assert_eq!(headers[0].value, b"404".to_vec());
    assert_eq!(headers[2].value, b"10".to_vec());
}

#[test]
fn blocked_response_is_kept_whole() {
    let mut p = PartialResponses::new();
    assert!(!p.contains(4));
    p.on_response_blocked(4, vec![header(b":status", b"200")], b"abc".to_vec());
    let r = p.get(4).unwrap();
    assert_eq!(r.written, 0);
    assert!(r.headers.is_some());
    assert_eq!(r.body, b"abc".to_vec());
}

#[test]
fn short_body_send_keeps_the_rest() {
    let mut p = PartialResponses::new();
    p.on_body_sent(8, b"abcdef".to_vec(), BodyOutcome::Written(2));
    assert_eq!(p.get(8).unwrap().written, 2);
    assert!(p.get(8).unwrap().headers.is_none());
    p.on_body_sent(12, b"abc".to_vec(), BodyOutcome::Written(3));
    assert!(!p.contains(12));
    p.on_body_sent(16, b"abc".to_vec(), BodyOutcome::Failed);
    assert!(!p.contains(16));
    p.on_body_sent(20, b"abc".to_vec(), BodyOutcome::Done);
    assert_eq!(p.get(20).unwrap().written, 0);
}

#[test]
fn writable_stream_finishes_pending_response() {
    let mut p = PartialResponses::new();
    p.on_response_blocked(0, vec![header(b":status", b"200")], b"abcd".to_vec());
    assert!(!p.on_writable_headers(0, HeadersOutcome::Blocked));
    assert!(p.get(0).unwrap().headers.is_some());
    assert!(p.on_writable_headers(0, HeadersOutcome::Sent));
    assert!(p.get(0).unwrap().headers.is_none());
    p.on_writable_body(0, BodyOutcome::Written(3));
    assert_eq!(p.get(0).unwrap().written, 3);
    assert!(p.on_writable_headers(0, HeadersOutcome::Failed));
    p.on_writable_body(0, BodyOutcome::Written(1));
    assert!(!p.contains(0));
    assert!(!p.on_writable_headers(0, HeadersOutcome::Sent));
}

#[test]
fn failed_body_send_forgets_response() {
    let mut p = PartialResponses::new();
    p.on_body_sent(3, b"abcd".to_vec(), BodyOutcome::Done);
    p.on_writable_body(3, BodyOutcome::Failed);
    assert!(!p.contains(3));
}

#[test]
fn client_readiness_flags() {
    assert_eq!(client_readiness(&[]), Err(ReadinessError::TimedOut));
    let ev = |token, readable, writable| PollEvent { token, readable, writable };
    assert_eq!(client_readiness(&[ev(0, true, false)]), Ok((true, true)));
    assert_eq!(client_readiness(&[ev(0, false, true)]), Ok((false, true)));
    assert_eq!(client_readiness(&[ev(0, true, false), ev(0, false, false)]), Ok((false, false)));
    assert_eq!(
        client_readiness(&[ev(0, true, false), ev(3, false, false), ev(5, true, true)]),
        Err(ReadinessError::UnexpectedEvent(1))
    );
}

#[test]
fn server_readiness_flags() {
    let ev = |token, readable, writable| PollEvent { token, readable, writable };
    assert_eq!(server_readiness(&[]), Ok((false, false)));
    assert_eq!(server_readiness(&[ev(0, true, false)]), Ok((true, false)));
    assert_eq!(server_readiness(&[ev(1, true, false)]), Err(ReadinessError::UnexpectedEvent(0)));
}

#[test]
fn event_actions() {
    assert_eq!(client_event_action(Http3Event::Data), ClientEventAction::ReadBody);
    assert_eq!(client_event_action(Http3Event::Finished), ClientEventAction::Close);
    assert_eq!(client_event_action(Http3Event::Reset), ClientEventAction::Close);
    assert_eq!(client_event_action(Http3Event::GoAway), ClientEventAction::Note);
    assert_eq!(server_event_action(Http3Event::Headers), ServerEventAction::HandleRequest);
    assert_eq!(server_event_action(Http3Event::Done), ServerEventAction::Stop);
    assert_eq!(server_event_action(Http3Event::Failed), ServerEventAction::Fail);
    assert_eq!(server_event_action(Http3Event::Data), ServerEventAction::Ignore);
    assert!(should_start_http3(false, true));
    assert!(!should_start_http3(true, true));
    assert!(!should_start_http3(false, false));
    assert_eq!(ClientState::after(ClientStep::Accepted), ClientState::HttpInitiate);
    assert_eq!(ClientState::after(ClientStep::EventsDone), ClientState::Shutdown);
}
