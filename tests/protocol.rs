use ecp::auth::{auth_step, AuthAction, Handshake};
use ecp::connection::DEFAULT_PORT;
use ecp::{Command, Connection, ContentData, ContentType, ECPMessage, Frame, Get, Request, Response};

const CHALLENGE: &str =
    "{\"notify\":\"authenticate\",\"param-challenge\":\"dGhpcyBpcyBhIG5vbmNlISE=\"}";
const KEY: &[u8] = b"0123456789abcdef";
const EXPECTED_REPLY: &str = "{\"request\":\"authenticate\",\"request-id\":\"0\",\"param-response\":\"Ztaqhg0MrX6SC54/GSzr1ltPG3U=\"}";

fn text(t: &str) -> Frame {
    Frame::Text { text: String::from(t) }
}

fn decode(t: &str) -> Response {
    Response::from_message(ECPMessage::Text { text: String::from(t) }).unwrap()
}

#[test]
fn sync_numbers_count_from_zero() {
    let mut connection = Connection::new([192, 168, 1, 226], KEY.to_vec());
    assert_eq!(connection.sync_counter, -1);
    let numbers: Vec<i32> = (0..5).map(|_| connection.next_sync_number()).collect();
    assert_eq!(numbers, vec![0, 1, 2, 3, 4]);
    assert_eq!(connection.sync_counter, 4);
}

#[test]
fn new_connection_is_closed_on_default_port() {
    let connection = Connection::new([10, 0, 0, 1], KEY.to_vec());
    assert_eq!(connection.port, DEFAULT_PORT);
    assert_eq!(connection.port, 8060);
    assert!(!connection.is_open());
    assert!(!connection.is_authenticated());
}

#[test]
fn clone_is_fresh_and_unopened() {
    let mut connection = Connection::new([10, 0, 0, 1], KEY.to_vec());
    connection.next_sync_number();
    connection.attach_session(true);
    let copy = connection.clone();
    assert_eq!(copy.ipv4, [10, 0, 0, 1]);
    assert_eq!(copy.key, KEY.to_vec());
    assert_eq!(copy.sync_counter, -1);
    assert!(!copy.is_open());
}

#[test]
fn classify_each_frame_kind() {
    assert_eq!(
        ECPMessage::from_message(Frame::Ping { bytes: vec![1] }),
        ECPMessage::Control { bytes: vec![1] }
    );
    assert_eq!(
        ECPMessage::from_message(Frame::Pong { bytes: vec![2] }),
        ECPMessage::Control { bytes: vec![2] }
    );
    assert_eq!(
        ECPMessage::from_message(Frame::Close { bytes: vec![] }),
        ECPMessage::Control { bytes: vec![] }
    );
    assert_eq!(
        ECPMessage::from_message(Frame::Binary { bytes: vec![3, 4] }),
        ECPMessage::Binary { bytes: vec![3, 4] }
    );
    assert_eq!(
        ECPMessage::from_message(Frame::Raw { bytes: vec![5] }),
        ECPMessage::Unrecognized { bytes: vec![5] }
    );
    assert_eq!(
        ECPMessage::from_message(text("{\"response\":\"query-apps\"}")),
        ECPMessage::Text { text: String::from("{\"response\":\"query-apps\"}") }
    );
    assert_eq!(
        ECPMessage::from_message(text(CHALLENGE)),
        ECPMessage::Authentication { text: String::from(CHALLENGE), response: None }
    );
}

#[test]
fn reencoded_frames_round_trip() {
    let frames = vec![
        text("{\"response\":\"x\"}"),
        Frame::Binary { bytes: vec![9, 8, 7] },
    ];
    for frame in frames {
        let again = ECPMessage::from_message(frame.clone()).into_message();
        assert_eq!(again, frame);
        let twice = ECPMessage::from_message(again.clone()).into_message();
        assert_eq!(twice, again);
    }
    let control = ECPMessage::from_message(Frame::Ping { bytes: vec![1, 2] }).into_message();
    assert_eq!(control, Frame::Binary { bytes: vec![1, 2] });
    assert_eq!(ECPMessage::from_message(control.clone()).into_message(), control);
}

#[test]
fn auth_markers() {
    assert!(ECPMessage::is_auth_challenge(CHALLENGE));
    assert!(!ECPMessage::is_auth_response(CHALLENGE));
    assert!(ECPMessage::is_auth_response("{\"response\":\"authenticate\",\"status\":\"200\"}"));
    assert!(ECPMessage::is_auth_message("{\"response\":\"authenticate\"}"));
    assert!(!ECPMessage::is_auth_message("{\"response\":\"query-apps\"}"));
}

#[test]
fn challenge_response_matches_known_digest() {
    let first = ECPMessage::generate_challenge_response(CHALLENGE, 0, &KEY.to_vec());
    let second = ECPMessage::generate_challenge_response(CHALLENGE, 0, &KEY.to_vec());
    assert_eq!(first, text(EXPECTED_REPLY));
    assert_eq!(first, second);
}

#[test]
fn challenge_reply_carries_counter() {
    let reply = ECPMessage::generate_challenge_response(CHALLENGE, -12, &KEY.to_vec());
    match reply {
        Frame::Text { text } => {
            assert!(text.starts_with("{\"request\":\"authenticate\",\"request-id\":\"-12\","));
        }
        other => panic!("unexpected frame {:?}", other),
    }
}

#[test]
fn try_from_auth_message_kinds() {
    let key = KEY.to_vec();
    assert_eq!(
        ECPMessage::try_from_auth_message(text(CHALLENGE), 0, &key),
        Some(ECPMessage::Authentication {
            text: String::from(CHALLENGE),
            response: Some(text(EXPECTED_REPLY)),
        })
    );
    let verdict = "{\"response\":\"authenticate\",\"status\":\"200\"}";
    assert_eq!(
        ECPMessage::try_from_auth_message(text(verdict), 0, &key),
        Some(ECPMessage::Authentication { text: String::from(verdict), response: None })
    );
    assert_eq!(ECPMessage::try_from_auth_message(text("{\"response\":\"x\"}"), 0, &key), None);
    assert_eq!(ECPMessage::try_from_auth_message(Frame::Binary { bytes: vec![1] }, 0, &key), None);
}

#[test]
fn handshake_steps() {
    let key = KEY.to_vec();
    assert_eq!(auth_step(text(CHALLENGE), 0, &key), AuthAction::Reply { frame: text(EXPECTED_REPLY) });
    assert_eq!(auth_step(Frame::Binary { bytes: vec![0] }, 0, &key), AuthAction::Wait);
    assert_eq!(auth_step(text("{\"response\":\"query-apps\"}"), 0, &key), AuthAction::Wait);
    assert_eq!(
        auth_step(text("{\"response\":\"authenticate\",\"status\":\"200\"}"), 0, &key),
        AuthAction::Finish { authenticated: true }
    );
    assert_eq!(
        auth_step(text("{\"response\":\"authenticate\",\"status\":\"401\",\"status-msg\":\"Error\"}"), 0, &key),
        AuthAction::Finish { authenticated: false }
    );
    assert_eq!(
        auth_step(text("{\"response\":\"authenticate\",\"status-msg\":\"ERROR 200\"}"), 0, &key),
        AuthAction::Finish { authenticated: false }
    );
    assert_eq!(
        auth_step(text("{\"response\":\"authenticate\",\"status\":\"102\"}"), 0, &key),
        AuthAction::Wait
    );
    assert_eq!(auth_step(text("{\"notify\":\"authenticate\"}"), 0, &key), AuthAction::Wait);
}

#[test]
fn open_and_authenticate_end_to_end() {
    let mut connection = Connection::new([192, 168, 1, 226], KEY.to_vec());
    let counter = connection.next_sync_number();
    let frames = vec![
        Frame::Ping { bytes: vec![] },
        text(CHALLENGE),
        text("{\"notify\":\"something-else\"}"),
        text(CHALLENGE),
        text("{\"response\":\"authenticate\",\"response-id\":\"0\",\"status\":\"200\",\"status-msg\":\"OK\"}"),
    ];
    let mut sent = Vec::new();
    let mut outcome = None;
    let mut handshake = Handshake::new(counter);
    for frame in frames {
        match handshake.step(frame, &connection.key) {
            AuthAction::Reply { frame } => sent.push(frame),
            AuthAction::Wait => {}
            AuthAction::Finish { authenticated } => {
                outcome = Some(authenticated);
                break;
            }
        }
    }
    connection.attach_session(outcome.unwrap_or(false));
    assert_eq!(sent, vec![text(EXPECTED_REPLY)]);
    assert!(connection.is_open());
    assert!(connection.is_authenticated());
    assert_eq!(connection.sync_counter, 0);
}

#[test]
fn failed_handshake_leaves_session_open() {
    let mut connection = Connection::new([192, 168, 1, 226], KEY.to_vec());
    connection.next_sync_number();
    connection.attach_session(false);
    assert!(connection.is_open());
    assert!(!connection.is_authenticated());
}

#[test]
fn request_frame_needs_open_session() {
    let mut connection = Connection::new([192, 168, 1, 226], KEY.to_vec());
    let request = Request::new().set_subject("query-apps");
    assert_eq!(connection.request_frame(&request), None);
    assert_eq!(connection.sync_counter, -1);
    connection.next_sync_number();
    connection.attach_session(true);
    let request = Request::new().set_subject("query-apps").set_request_id(1);
    assert_eq!(
        connection.request_frame(&request),
        Some(text("{\"request\":\"query-apps\",\"request-id\":\"1\"}"))
    );
    assert_eq!(connection.sync_counter, 1);
}

#[test]
fn response_from_skips_non_text_frames() {
    assert_eq!(Connection::response_from(Frame::Ping { bytes: vec![] }), None);
    assert_eq!(Connection::response_from(Frame::Binary { bytes: vec![1] }), None);
    assert_eq!(Connection::response_from(text("{\"response\":\"authenticate\",\"status\":\"200\"}")), None);
    let response = Connection::response_from(text("{\"response\":\"key-press\",\"status\":\"200\"}")).unwrap();
    assert_eq!(response.subject, "key-press");
    assert!(response.is_success());
}

#[test]
fn build_request_without_params() {
    let request = Request::new().set_subject("query-device-info").set_request_id(7);
    assert_eq!(
        request.build(),
        ECPMessage::Text { text: String::from("{\"request\":\"query-device-info\",\"request-id\":\"7\"}") }
    );
    assert_eq!(
        Request::new().build(),
        ECPMessage::Text { text: String::from("{\"request\":\"\",\"request-id\":\"0\"}") }
    );
}

#[test]
fn build_request_with_params() {
    let request = Request::new()
        .set_subject("key-press")
        .add_param("param-key", "Left")
        .add_param("param-extra", "1")
        .add_param("param-key", "Right")
        .set_request_id(-3);
    assert_eq!(
        request.build(),
        ECPMessage::Text {
            text: String::from(
                "{\"request\":\"key-press\",\"param-key\":\"Right\",\"param-extra\":\"1\",\"request-id\":\"-3\"}"
            )
        }
    );
}

#[test]
fn set_params_replaces_or_keeps() {
    let kept = Request::new().add_param("a", "1").set_params(None);
    assert_eq!(
        kept.build(),
        ECPMessage::Text { text: String::from("{\"request\":\"\",\"a\":\"1\",\"request-id\":\"0\"}") }
    );
    let replaced = Request::new().add_param("a", "1").set_params(Some(vec![
        (String::from("b"), String::from("2")),
        (String::from("b"), String::from("3")),
    ]));
    assert_eq!(
        replaced.build(),
        ECPMessage::Text { text: String::from("{\"request\":\"\",\"b\":\"3\",\"request-id\":\"0\"}") }
    );
}

#[test]
fn command_and_query_requests() {
    let press = Request::from(Command::PressKey { key: String::from("Power") });
    assert_eq!(
        press.build(),
        ECPMessage::Text {
            text: String::from("{\"request\":\"key-press\",\"param-key\":\"Power\",\"request-id\":\"0\"}")
        }
    );
    let icon: Request = Get::QueryAppIcon { channel_id: 140704 }.into();
    assert_eq!(
        icon.build(),
        ECPMessage::Text {
            text: String::from("{\"request\":\"query-icon\",\"param-channel-id\":\"140704\",\"request-id\":\"0\"}")
        }
    );
    assert_eq!(Get::AudioSettings.subject(), "query-audio-settings");
    assert_eq!(Get::Screensavers.subject(), "query-screensavers");
    assert_eq!(Get::DeviceInfo.params(), None);
    assert_eq!(Command::CaptureScreen.subject(), "capture-screen");
    assert_eq!(Command::CaptureScreen.params(), None);
    assert_eq!(
        Command::LaunchApp { channel_id: -5 }.params(),
        Some(vec![(String::from("param-channel-id"), String::from("-5"))])
    );
    assert_eq!(
        Command::TexteditText {
            textedit_id: String::from("t1"),
            text: String::from("hi"),
            selection_start: 0,
            selection_end: 2,
        }
        .params()
        .unwrap()
        .len(),
        4
    );
}

#[test]
fn malformed_json_decodes_to_sentinels_twice() {
    let first = decode("not json {");
    let second = decode("not json {");
    assert_eq!(first, second);
    assert_eq!(first.subject, "");
    assert_eq!(first.response_id, -1);
    assert_eq!(first.content_type, None);
    assert_eq!(first.content_data, None);
    assert_eq!(first.status_code, 0);
    assert_eq!(first.status_message, "");
    assert_eq!(first.raw_bytes, b"not json {".to_vec());
}

#[test]
fn decode_plain_fields() {
    let raw = "{\"response\":\"query-apps\",\"response-id\":\"12\",\"status\":\"200\",\"status-msg\":\"OK\"}";
    let response = decode(raw);
    assert_eq!(response.subject, "query-apps");
    assert_eq!(response.response_id, 12);
    assert_eq!(response.status_code, 200);
    assert_eq!(response.status_message, "OK");
    assert_eq!(response.content_type, None);
    assert_eq!(response.content_data, None);
    assert_eq!(response.raw_bytes, raw.as_bytes().to_vec());
}

#[test]
fn decode_unreadable_integers_use_sentinels() {
    let response = decode("{\"response-id\":\"abc\",\"status\":200}");
    assert_eq!(response.response_id, -1);
    assert_eq!(response.status_code, 0);
    assert_eq!(response.subject, "");
}

#[test]
fn decode_json_content() {
    let response = decode("{\"content-type\":\"application/json\",\"content-data\":\"eyJhIjoxfQ==\"}");
    assert_eq!(response.content_type, Some(ContentType::Json));
    assert_eq!(response.content_data, Some(ContentData::Text { string: String::from("{\"a\":1}") }));
}

#[test]
fn decode_png_content() {
    let response = decode("{\"content-type\":\"image/png\",\"content-data\":\"iVBORw0KGgoA/w==\"}");
    assert_eq!(response.content_type, Some(ContentType::Png));
    assert_eq!(
        response.content_data,
        Some(ContentData::Data { bytes: vec![0x89, 0x50, 0x4e, 0x47, 0x0d, 0x0a, 0x1a, 0x0a, 0, 255] })
    );
}

#[test]
fn decode_content_fallbacks() {
    let bad_base64 = decode("{\"content-type\":\"text/xml\",\"content-data\":\"%%%\"}");
    assert_eq!(bad_base64.content_type, Some(ContentType::Xml));
    assert_eq!(bad_base64.content_data, Some(ContentData::Text { string: String::from("%%%") }));
    let bad_utf8 = decode("{\"content-type\":\"application/xml\",\"content-data\":\"//5B\"}");
    assert_eq!(bad_utf8.content_data, Some(ContentData::Data { bytes: vec![0xff, 0xfe, 0x41] }));
    let unknown = decode("{\"content-type\":\"text/plain\",\"content-data\":\"eyJhIjoxfQ==\"}");
    assert_eq!(unknown.content_type, Some(ContentType::Unknown));
    assert_eq!(unknown.content_data, None);
    let jpeg = decode("{\"content-type\":\"image/jpeg\",\"content-data\":\"//5B\"}");
    assert_eq!(jpeg.content_type, Some(ContentType::Jpeg));
    assert_eq!(jpeg.content_data, Some(ContentData::Data { bytes: vec![0xff, 0xfe, 0x41] }));
    let absent_type = decode("{\"content-data\":\"eyJhIjoxfQ==\"}");
    assert_eq!(absent_type.content_type, None);
    assert_eq!(absent_type.content_data, None);
}

#[test]
fn content_type_priority() {
    assert_eq!(Response::content_type_from("application/xml+json"), ContentType::Xml);
    assert_eq!(Response::content_type_from("image/jpeg"), ContentType::Jpeg);
    assert_eq!(Response::content_type_from("application/json"), ContentType::Json);
    assert_eq!(Response::content_type_from("image/png"), ContentType::Png);
    assert_eq!(Response::content_type_from(""), ContentType::Unknown);
}

#[test]
fn non_text_messages_give_no_response() {
    assert_eq!(Response::from_message(ECPMessage::Binary { bytes: vec![1] }), None);
    assert_eq!(Response::from_message(ECPMessage::Control { bytes: vec![] }), None);
}

#[test]
fn is_success_only_at_200() {
    for (code, expected) in [(199, false), (200, true), (201, false), (0, false)] {
        let response = decode(&format!("{{\"status\":\"{}\"}}", code));
        assert_eq!(response.status_code, code);
        assert_eq!(response.is_success(), expected);
    }
}
