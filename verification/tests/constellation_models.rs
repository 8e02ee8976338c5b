//! Tests for the real-time event service's message models.

use mixer_wrappers::constellation::models::{Event, MixerError, Reply};
use serde_json::Value;

fn to_value(text: &str) -> Value {
    serde_json::from_str(text).unwrap()
}

#[test]
fn event_try_from_json() {
    let text = r#"{"type":"event","event":"foobar","data": null}"#;
    let json: Value = serde_json::from_str(&text).unwrap();
    let event = Event::try_from(&json).unwrap();

    assert_eq!(event.event, "foobar");
}

#[test]
fn event_try_from_json_fail() {
    let json = to_value("{}");
    let res = Event::try_from(&json);

    assert!(res.is_err());
}

#[test]
fn reply_try_from_json() {
    let text = r#"{"type":"reply","id":40,"result":null,"error":null}"#;
    let json: Value = serde_json::from_str(&text).unwrap();
    let reply = Reply::try_from(&json).unwrap();

    assert_eq!(reply.id, 40);
}

#[test]
fn reply_try_from_json_fail() {
    let json = to_value("{}");
    let res = Reply::try_from(&json);

    assert!(res.is_err());
}

#[test]
fn event_from_json() {
    let text = r#"{"type":"event","event":"hello","data":{}}"#;
    let event = Event::try_from(&to_value(text)).unwrap();

    assert_eq!("event", event.event_type);
    assert_eq!("hello", event.event);
    assert_eq!(Some(to_value("{}")), event.data);

    assert_eq!(text, event.to_json_text());
}

#[test]
fn reply_from_json() {
    let text = r#"{"type":"reply","id":100,"result":{"foo":123},"error":null}"#;
    let reply = Reply::try_from(&to_value(text)).unwrap();

    assert_eq!("reply", reply.reply_type);
    assert_eq!(100, reply.id);
    assert_eq!(Some(to_value(r#"{"foo":123}"#)), reply.result);
    assert_eq!(None, reply.error);

    assert_eq!(text, reply.to_json_text());
}

#[test]
fn test_mixer_error() {
    let err = MixerError {
        id: 100,
        message: "".to_owned(),
    };
    let _ = format!("{:?}", err);
}

#[test]
fn reply_with_error_record() {
    let text = r#"{"type":"reply","id":7,"result":null,"error":{"id":4009,"message":"Unknown method name call"}}"#;
    let reply = Reply::try_from(&to_value(text)).unwrap();

    assert_eq!(7, reply.id);
    assert_eq!(None, reply.result);
    let err = reply.error.unwrap();
    assert_eq!(4009, err.id);
    assert_eq!("Unknown method name call", err.message);
}

#[test]
fn reply_rejects_bad_error_record() {
    // The error id does not fit a u16, so the record must be refused.
    let text = r#"{"type":"reply","id":7,"result":null,"error":{"id":70000,"message":"x"}}"#;
    assert!(Reply::try_from(&to_value(text)).is_err());
    // A non-object, non-null result must be refused too.
    let text = r#"{"type":"reply","id":7,"result":5,"error":null}"#;
    assert!(Reply::try_from(&to_value(text)).is_err());
    // A negative or fractional id must be refused.
    let text = r#"{"type":"reply","id":-1,"result":null,"error":null}"#;
    assert!(Reply::try_from(&to_value(text)).is_err());
    let text = r#"{"type":"reply","id":1.5,"result":null,"error":null}"#;
    assert!(Reply::try_from(&to_value(text)).is_err());
}

#[test]
fn event_escapes_its_fields() {
    let event = Event {
        event_type: "event".to_owned(),
        event: "say \"hi\"\n\\end\u{1}".to_owned(),
        data: None,
    };
    let text = event.to_json_text();
    assert_eq!(
        "{\"type\":\"event\",\"event\":\"say \\\"hi\\\"\\n\\\\end\\u0001\",\"data\":null}",
        text
    );
    // The escaping must agree with the JSON parser's reading.
    let back = Event::try_from(&serde_json::from_str(&text).unwrap()).unwrap();
    assert_eq!(event.event, back.event);
}

#[test]
fn event_with_empty_name() {
    let event = Event {
        event_type: "event".to_owned(),
        event: String::new(),
        data: None,
    };
    assert_eq!(
        r#"{"type":"event","event":"","data":null}"#,
        event.to_json_text()
    );
}
