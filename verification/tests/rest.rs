//! Tests for the REST wrapper's request building and response handling.

use mixer_wrappers::constellation::errors::error_description;
use mixer_wrappers::rest::errors::BadHttpResponseError;
use mixer_wrappers::rest::{handle_response, REST};

#[test]
fn headers() {
    let rest = REST::new("foobar");
    let headers = rest.headers(None);
    assert_eq!(1, headers.len());
    assert_eq!("client-id", headers[0].0);
    assert_eq!("foobar", headers[0].1);
}

#[test]
fn headers_with_token() {
    let rest = REST::new("foobar");
    let headers = rest.headers(Some("the_token"));
    assert_eq!(2, headers.len());
    assert_eq!("client-id", headers[0].0);
    assert_eq!("foobar", headers[0].1);
    assert_eq!("authorization", headers[1].0);
    assert_eq!("Bearer the_token", headers[1].1);
}

#[test]
fn query_request_builds_the_exchange() {
    let rest = REST::new("foobar");
    let req = rest
        .query_request(
            "get",
            "somewhere",
            Some(&[("foo", "bar")]),
            Some("hello world"),
            Some("the_token"),
        )
        .unwrap();
    assert_eq!("GET", req.method);
    assert_eq!("https://mixer.com/api/v1/somewhere", req.url);
    assert_eq!(2, req.headers.len());
    assert_eq!(
        vec![("foo".to_owned(), "bar".to_owned())],
        req.query
    );
    assert_eq!(Some("hello world".to_owned()), req.body);
}

#[test]
fn query_request_rejects_bad_methods() {
    let rest = REST::new("foobar");
    assert!(rest.query_request("", "x", None, None, None).is_err());
    assert!(rest.query_request("GE T", "x", None, None, None).is_err());
    assert!(rest.query_request("G\u{e9}T", "x", None, None, None).is_err());
}

#[test]
fn response_ok_returns_body() {
    let resp = handle_response(200, "hello world".to_owned()).unwrap();
    assert_eq!("hello world", resp);
    assert!(handle_response(204, String::new()).is_ok());
    assert!(handle_response(299, String::new()).is_ok());
}

#[test]
fn response_error_carries_the_status() {
    let err = handle_response(501, "hello world".to_owned()).unwrap_err();
    assert_eq!(BadHttpResponseError(501), err);
    assert_eq!("BadHttpResponseError(501)", &format!("{:?}", err));
    assert_eq!(
        BadHttpResponseError(404),
        handle_response(404, String::new()).unwrap_err()
    );
    assert_eq!(
        BadHttpResponseError(199),
        handle_response(199, String::new()).unwrap_err()
    );
    assert_eq!(
        BadHttpResponseError(300),
        handle_response(300, String::new()).unwrap_err()
    );
}

#[test]
fn has_display() {
    let err = BadHttpResponseError(400);
    let _ = err.message();
    assert_eq!("An error occurred with error code 400.", err.message());
}

#[test]
fn has_partial_eq() {
    let err1 = BadHttpResponseError(400);
    let err2 = BadHttpResponseError(400);

    assert_eq!(err1, err2);
}

#[test]
fn test_get_channel_id() {
    let rest = REST::new("");
    let helper = rest.chat_helper();
    assert_eq!(
        "channels/aaaaaa?fields=id",
        helper.channel_id_endpoint("aaaaaa")
    );
    let id = helper.channel_id_from_response(r#"{"id":123}"#).unwrap();
    assert_eq!(123, id);
}

#[test]
fn channel_id_bad_responses() {
    let rest = REST::new("");
    let helper = rest.chat_helper();
    assert!(helper.channel_id_from_response("{}").is_err());
    assert!(helper.channel_id_from_response(r#"{"id":"x"}"#).is_err());
    assert!(helper.channel_id_from_response("bad").is_err());
}

#[test]
fn test_get_servers() {
    let rest = REST::new("");
    let helper = rest.chat_helper();
    assert_eq!("chats/123", helper.servers_endpoint(123));
    let servers = helper
        .servers_from_response(r#"{"endpoints":["a","b","c"]}"#)
        .unwrap();
    assert_eq!(vec!["a", "b", "c"], servers);
}

#[test]
fn servers_bad_responses() {
    let rest = REST::new("");
    let helper = rest.chat_helper();
    assert!(helper.servers_from_response("{}").is_err());
    assert!(helper
        .servers_from_response(r#"{"endpoints":["a",5]}"#)
        .is_err());
}

#[test]
fn test_register() {
    let rest = REST::new("aaaaaa");
    let helper = rest.webhook_helper();
    let headers = helper.register_headers("shhh");
    assert_eq!(2, headers.len());
    assert_eq!("client-id", headers[0].0);
    assert_eq!("aaaaaa", headers[0].1);
    assert_eq!("authorization", headers[1].0);
    assert_eq!("Secret shhh", headers[1].1);
    let body = helper.register_body(&["event_1", "event_2"], "http://example.com/callback");
    assert_eq!(
        r#"{"events":["event_1","event_2"],"kind":"web","url":"http://example.com/callback"}"#,
        body
    );
}

#[test]
fn error_descriptions() {
    assert_eq!(
        Some("Error parsing payload as JSON"),
        error_description(4006)
    );
    assert!(error_description(4110).is_some());
    assert_eq!(None, error_description(9999));
}

#[test]
fn largest_channel_id_endpoint() {
    let rest = REST::new("");
    let helper = rest.chat_helper();
    assert_eq!(
        "chats/18446744073709551615",
        helper.servers_endpoint(u64::MAX)
    );
}

#[test]
fn error_message_for_largest_status() {
    assert_eq!(
        "An error occurred with error code 65535.",
        BadHttpResponseError(65535).message()
    );
}
