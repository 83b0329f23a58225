//! Tests of the wire protocol decoding: JSON parsing, line classification,
//! and message decoding.

use q_manager::json::JsonNode;
use q_manager::json::parse_json;
use q_manager::telethon::ClientLine;
use q_manager::telethon::classify_line;

#[test]
fn test_parse_json_shapes() {
    assert_eq!(parse_json("null"), Some(JsonNode::Null));
    assert_eq!(parse_json("true"), Some(JsonNode::Bool(true)));
    assert_eq!(parse_json("42"), Some(JsonNode::Num(Some(42))));
    assert_eq!(parse_json("4.5"), Some(JsonNode::Num(None)));
    assert_eq!(parse_json("\"hi\""), Some(JsonNode::Str("hi".to_string())));
    assert_eq!(
        parse_json("[1, 2]"),
        Some(JsonNode::Arr(vec![JsonNode::Num(Some(1)), JsonNode::Num(Some(2))]))
    );
    assert_eq!(parse_json("not json"), None);

    let parsed = parse_json(r#"{"a": 1}"#).unwrap();
    assert_eq!(parsed.get("a"), Some(&JsonNode::Num(Some(1))));
    assert_eq!(parsed.get("b"), None);
}

#[test]
fn test_classify_response_line() {
    let line = r#"{"id": "req_7", "ok": true, "payload": {"state": "ready"}}"#;
    match classify_line(line) {
        ClientLine::Response(resp) => {
            assert_eq!(resp.id, "req_7");
            assert!(resp.ok);
            assert!(resp.payload.is_some());
            assert!(resp.error.is_none());
        }
        _ => panic!("expected a response line"),
    }

    let line = r#"{"id": "req_8", "ok": false, "error": "boom"}"#;
    match classify_line(line) {
        ClientLine::Response(resp) => {
            assert!(!resp.ok);
            assert_eq!(resp.error.as_deref(), Some("boom"));
        }
        _ => panic!("expected a response line"),
    }
}

#[test]
fn test_classify_event_line() {
    let line = r#"{"event": {"type": "message", "message": {
        "id": 5, "chat_id": -100, "sender_id": 999, "text": "Join now",
        "is_outgoing": false,
        "buttons": [[{"text": "Join", "type": "url", "url": "https://t.me/mod?start=G1"}]]
    }}}"#;
    match classify_line(line) {
        ClientLine::Event(event) => {
            assert_eq!(event.kind, "message");
            let message = event.message.expect("event carries a message");
            assert_eq!(message.id, 5);
            assert_eq!(message.chat_id, -100);
            assert_eq!(message.sender_id, 999);
            assert_eq!(message.text, "Join now");
            assert!(!message.is_outgoing);
            assert_eq!(message.buttons.len(), 1);
            assert_eq!(message.buttons[0].len(), 1);
            let button = &message.buttons[0][0];
            assert_eq!(button.text, "Join");
            assert_eq!(button.kind, "url");
            assert_eq!(button.url.as_deref(), Some("https://t.me/mod?start=G1"));
            assert!(button.data.is_none());
        }
        _ => panic!("expected an event line"),
    }
}

#[test]
fn test_classify_ignores_noise() {
    assert!(matches!(classify_line("not json at all"), ClientLine::Ignored));
    assert!(matches!(classify_line(r#"{"hello": 1}"#), ClientLine::Ignored));
    // A malformed message inside an event is ignored rather than misread.
    let line = r#"{"event": {"type": "message", "message": {"id": "not a number"}}}"#;
    assert!(matches!(classify_line(line), ClientLine::Ignored));
    // A response whose error member has the wrong type does not decode.
    let line = r#"{"id": "req_9", "ok": true, "error": 42}"#;
    assert!(matches!(classify_line(line), ClientLine::Ignored));
}
