//! Tests for the frame parsers of both socket protocols.

use mixer_wrappers::chat::ChatClient;
use mixer_wrappers::chat::StreamMessage as ChatStreamMessage;
use mixer_wrappers::constellation::ConstellationClient;
use mixer_wrappers::constellation::StreamMessage;
use mixer_wrappers::internal::ParseError;

#[test]
fn parse_event_frame() {
    let msg = ConstellationClient::parse(r#"{"type":"event","event":"live","data":{"k":1}}"#)
        .unwrap();
    match msg {
        StreamMessage::Event(e) => {
            assert_eq!("event", e.event_type);
            assert_eq!("live", e.event);
            assert_eq!(
                Some(serde_json::from_str::<serde_json::Value>(r#"{"k":1}"#).unwrap()),
                e.data
            );
        }
        StreamMessage::Reply(_) => panic!("expected an event"),
    }
}

#[test]
fn parse_reply_frame() {
    let msg = ConstellationClient::parse(r#"{"type":"reply","id":42,"result":null,"error":null}"#)
        .unwrap();
    match msg {
        StreamMessage::Reply(r) => {
            assert_eq!(42, r.id);
            assert_eq!(None, r.result);
            assert_eq!(None, r.error);
        }
        StreamMessage::Event(_) => panic!("expected a reply"),
    }
}

#[test]
fn parse_missing_type() {
    let err = ConstellationClient::parse(r#"{"event":"live"}"#).unwrap_err();
    assert!(matches!(err, ParseError::MissingType));
    // A non-string type field counts as missing, as the original read it
    // through as_str.
    let err = ConstellationClient::parse(r#"{"type":5}"#).unwrap_err();
    assert!(matches!(err, ParseError::MissingType));
}

#[test]
fn parse_unknown_type() {
    let err = ConstellationClient::parse(r#"{"type":"bogus"}"#).unwrap_err();
    match err {
        ParseError::UnknownType(t) => assert_eq!("bogus", t),
        _ => panic!("expected an unknown-type error"),
    }
}

#[test]
fn parse_invalid_json() {
    let err = ConstellationClient::parse("{oops").unwrap_err();
    assert!(matches!(err, ParseError::InvalidJson));
}

#[test]
fn parse_invalid_shape() {
    // The type says event but the event field is missing.
    let err = ConstellationClient::parse(r#"{"type":"event"}"#).unwrap_err();
    assert!(matches!(err, ParseError::InvalidShape));
}

#[test]
fn chat_parse_event_frame() {
    let msg = ChatClient::parse(r#"{"type":"event","event":"ChatMessage","data":null}"#).unwrap();
    match msg {
        ChatStreamMessage::Event(e) => {
            assert_eq!("ChatMessage", e.event);
            assert_eq!(None, e.data);
        }
        ChatStreamMessage::Reply(_) => panic!("expected an event"),
    }
}

#[test]
fn chat_parse_reply_frame() {
    let msg = ChatClient::parse(
        r#"{"type":"reply","id":3,"data":{"authenticated":true},"error":null}"#,
    )
    .unwrap();
    match msg {
        ChatStreamMessage::Reply(r) => {
            assert_eq!(3, r.id);
            assert!(r.data.is_some());
            assert_eq!(None, r.error);
        }
        ChatStreamMessage::Event(_) => panic!("expected a reply"),
    }
}

#[test]
fn chat_parse_reply_with_error_string() {
    let msg = ChatClient::parse(r#"{"type":"reply","id":3,"data":null,"error":"not allowed"}"#)
        .unwrap();
    match msg {
        ChatStreamMessage::Reply(r) => {
            assert_eq!(Some("not allowed".to_owned()), r.error);
        }
        ChatStreamMessage::Event(_) => panic!("expected a reply"),
    }
}

#[test]
fn chat_parse_bad_types() {
    assert!(matches!(
        ChatClient::parse(r#"{"id":3}"#).unwrap_err(),
        ParseError::MissingType
    ));
    assert!(matches!(
        ChatClient::parse(r#"{"type":"something"}"#).unwrap_err(),
        ParseError::UnknownType(_)
    ));
    assert!(matches!(
        ChatClient::parse("not json").unwrap_err(),
        ParseError::InvalidJson
    ));
}
