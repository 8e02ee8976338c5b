//! Tests for the OAuth helpers.

use mixer_wrappers::oauth::{
    check_shortcode_response, code_exchange_body, get_authorize_url, get_shortcode_url_check,
    refresh_exchange_body, shortcode_request_body, ShortcodeResponse, ShortcodeStatus, Token,
};

const CLIENT_ID: &str = "a";
const CLIENT_SECRET: &str = "b";
const SCOPES: [&str; 2] = ["c", "d"];
const REDIRECT_URL: &str = "e";

#[test]
fn test_get_authorize_url() {
    let url = get_authorize_url(CLIENT_ID, CLIENT_SECRET, &SCOPES, REDIRECT_URL, false);
    let scopes_str = SCOPES.join("+");
    assert!(!url.contains("approval_prompt=force"));
    assert!(url.contains(&format!(
        "?client_id={}&scope={}&response_type=code&redirect_uri={}&state=",
        CLIENT_ID, scopes_str, REDIRECT_URL
    )));
}

#[test]
fn test_get_authorize_url_force() {
    let url = get_authorize_url(CLIENT_ID, CLIENT_SECRET, &SCOPES, REDIRECT_URL, true);
    assert!(url.contains("approval_prompt=force"));
}

#[test]
fn authorize_url_state_is_numeric() {
    let url = get_authorize_url(CLIENT_ID, CLIENT_SECRET, &SCOPES, REDIRECT_URL, false);
    let state = url.split("&state=").nth(1).unwrap();
    assert!(!state.is_empty());
    assert!(state.chars().all(|c| c.is_ascii_digit()));
}

#[test]
fn authorize_url_encodes_reserved_characters() {
    let url = get_authorize_url("a b", CLIENT_SECRET, &["s:1"], "https://x.y/z?a=b c", false);
    assert!(url.contains("client_id=a+b"));
    assert!(url.contains("scope=s%3A1"));
    assert!(url.contains("redirect_uri=https%3A%2F%2Fx.y%2Fz%3Fa%3Db+c"));
}

#[test]
fn test_check_shortcode_200() {
    let status = check_shortcode_response(200, r#"{"code": "foo"}"#);
    assert_eq!(status, ShortcodeStatus::UserGrantedAccess("foo".to_owned()));
}

#[test]
fn test_check_shortcode_204() {
    let status = check_shortcode_response(204, "");
    assert_eq!(status, ShortcodeStatus::WaitingOnUser);
}

#[test]
fn test_check_shortcode_403() {
    let status = check_shortcode_response(403, "");
    assert_eq!(status, ShortcodeStatus::UserDeniedAccess);
}

#[test]
fn test_check_shortcode_404() {
    let status = check_shortcode_response(404, "");
    assert_eq!(status, ShortcodeStatus::HandleInvalid);
}

#[test]
fn check_shortcode_bad_200_body() {
    // A 200 answer without a string code field counts as an invalid handle.
    assert_eq!(
        check_shortcode_response(200, "{}"),
        ShortcodeStatus::HandleInvalid
    );
    assert_eq!(
        check_shortcode_response(200, "not json"),
        ShortcodeStatus::HandleInvalid
    );
}

#[test]
fn test_get_shortcode() {
    let body = r#"{
        "code": "foo",
        "expires_in": 120,
        "handle": "bar"
    }"#;
    let response = ShortcodeResponse::from_json(body).unwrap();
    assert_eq!("foo", response.code);
    assert_eq!(120, response.expires_in);
    assert_eq!("bar", response.handle);
}

#[test]
fn shortcode_request_body_shape() {
    let body = shortcode_request_body(CLIENT_ID, CLIENT_SECRET, &SCOPES);
    assert_eq!(r#"{"client_id":"a","client_secret":"b","scope":"c d"}"#, body);
}

#[test]
fn shortcode_check_url() {
    let url = get_shortcode_url_check("bar");
    assert_eq!("https://mixer.com/api/v1/oauth/shortcode/check/bar", url);
}

#[test]
fn token_from_json_reads_the_record() {
    let body = r#"{
        "access_token": "123abc",
        "expires_in": 3600,
        "token_type": "test"
    }"#;
    let token = Token::from_json(body).unwrap();
    assert_eq!("123abc", token.access_token);
    assert_eq!(3600, token.expires_in);
    assert_eq!("test", token.token_type);
}

#[test]
fn token_from_json_rejects_bad_records() {
    assert!(Token::from_json("{}").is_err());
    assert!(Token::from_json(r#"{"access_token":5,"expires_in":1,"token_type":"t"}"#).is_err());
    assert!(Token::from_json("no").is_err());
}

#[test]
fn exchange_bodies() {
    assert_eq!(
        "grant_type=authorization_code&code=123abc&client_id=a&client_secret=b&redirect_uri=e",
        code_exchange_body(CLIENT_ID, CLIENT_SECRET, REDIRECT_URL, "123abc")
    );
    assert_eq!(
        "grant_type=refresh_token&refresh_token=123abc&client_id=a&client_secret=b",
        refresh_exchange_body(CLIENT_ID, CLIENT_SECRET, "123abc")
    );
}
