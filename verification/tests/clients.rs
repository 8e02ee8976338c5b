//! Tests for the socket clients: connection gating, method ids and the
//! frames they produce.

use mixer_wrappers::chat::ChatClient;
use mixer_wrappers::constellation::ConstellationClient;
use mixer_wrappers::internal::{ClientSocketWrapper, NotConnectedError};
use std::sync::mpsc::channel;

#[test]
fn method_ids_start_at_zero_and_increase() {
    let (_send, recv) = channel();
    let mut client = ConstellationClient::new(recv);
    let m0 = client.create_method("first", Vec::new());
    let m1 = client.create_method("second", Vec::new());
    let m2 = client.create_method("third", Vec::new());
    assert_eq!(0, m0.id);
    assert_eq!(1, m1.id);
    assert_eq!(2, m2.id);
}

#[test]
fn chat_method_ids_increase_too() {
    let (_send, recv) = channel();
    let mut client = ChatClient::new(recv);
    let frame0 = client.authenticate(1, None, None);
    let frame1 = client.authenticate(1, None, None);
    assert!(frame0.contains("\"id\":0"));
    assert!(frame1.contains("\"id\":1"));
}

#[test]
fn call_method_while_not_connected() {
    let (_send, recv) = channel();
    let mut client = ConstellationClient::new(recv);
    let err = client.call_method("some_method", Vec::new()).unwrap_err();
    assert_eq!(NotConnectedError, err);
    // No method id may be consumed by the failed call.
    let m = client.create_method("first", Vec::new());
    assert_eq!(0, m.id);
}

#[test]
fn send_raw_message_while_not_connected() {
    let (_send, recv) = channel();
    let mut wrapper = ClientSocketWrapper::new(recv);
    assert_eq!(Err(NotConnectedError), wrapper.send_raw_message("hello"));
}

#[test]
fn send_raw_message_when_connected() {
    let (send, recv) = channel();
    let mut wrapper = ClientSocketWrapper::new(recv);
    send.send(true).unwrap();
    assert_eq!(Ok("hello"), wrapper.send_raw_message("hello"));
}

#[test]
fn check_connection_follows_the_channel() {
    let (send, recv) = channel();
    let mut wrapper = ClientSocketWrapper::new(recv);
    assert!(!wrapper.check_connection());
    send.send(true).unwrap();
    assert!(wrapper.check_connection());
    send.send(false).unwrap();
    assert!(!wrapper.check_connection());
    // No new status: the last one holds.
    assert!(!wrapper.check_connection());
}

#[test]
fn call_method_frame_text() {
    let (send, recv) = channel();
    let mut client = ConstellationClient::new(recv);
    send.send(true).unwrap();
    let params = vec![("abc".to_owned(), serde_json::Value::from(123u64))];
    let frame = client.call_method("some_method", params).unwrap();
    assert_eq!(
        r#"{"type":"method","method":"some_method","params":{"abc":123},"id":0}"#,
        frame
    );
}

#[test]
fn subscribe_frame_text() {
    let (send, recv) = channel();
    let mut client = ConstellationClient::new(recv);
    send.send(true).unwrap();
    let frame = client.subscribe(&["aaa", "bbb"]).unwrap();
    assert_eq!(
        r#"{"type":"method","method":"livesubscribe","params":{"events":["aaa","bbb"]},"id":0}"#,
        frame
    );
    let frame = client.unsubscribe(&["aaa"]).unwrap();
    assert_eq!(
        r#"{"type":"method","method":"liveunsubscribe","params":{"events":["aaa"]},"id":1}"#,
        frame
    );
}

#[test]
fn authenticate_frames() {
    let (_send, recv) = channel();
    let mut client = ChatClient::new(recv);
    let anonymous = client.authenticate(123, None, None);
    assert_eq!(
        r#"{"type":"method","method":"auth","arguments":[123],"id":0}"#,
        anonymous
    );
    let as_user = client.authenticate(123, Some(456), Some("ccc"));
    assert_eq!(
        r#"{"type":"method","method":"auth","arguments":[123,456,"ccc"],"id":1}"#,
        as_user
    );
    // A half-given identity falls back to the anonymous form.
    let half = client.authenticate(123, Some(456), None);
    assert_eq!(
        r#"{"type":"method","method":"auth","arguments":[123],"id":2}"#,
        half
    );
}

#[test]
fn chat_call_method_frame_text() {
    let (send, recv) = channel();
    let mut client = ChatClient::new(recv);
    send.send(true).unwrap();
    let arguments = vec![
        serde_json::Value::from(123u64),
        serde_json::Value::from("abc"),
    ];
    let frame = client.call_method("msg", &arguments).unwrap();
    assert_eq!(
        r#"{"type":"method","method":"msg","arguments":[123,"abc"],"id":0}"#,
        frame
    );
}

#[test]
fn chat_call_method_while_not_connected() {
    let (_send, recv) = channel();
    let mut client = ChatClient::new(recv);
    let err = client.call_method("msg", &[]).unwrap_err();
    assert_eq!(NotConnectedError, err);
}

#[test]
fn subscribe_with_no_events() {
    let (send, recv) = channel();
    let mut client = ConstellationClient::new(recv);
    send.send(true).unwrap();
    let frame = client.subscribe(&[]).unwrap();
    assert_eq!(
        r#"{"type":"method","method":"livesubscribe","params":{"events":[]},"id":0}"#,
        frame
    );
}

#[test]
fn empty_strings_in_frames() {
    let (_send, recv) = channel();
    let mut client = ChatClient::new(recv);
    let frame = client.authenticate(0, None, Some(""));
    assert_eq!(
        r#"{"type":"method","method":"auth","arguments":[0],"id":0}"#,
        frame
    );
}
