//! Wrappers around OAuth calls for authenticating the user interacting with
//! your application.
//!
//! `get_authorize_url` starts your application's user on the platform's
//! standard OAuth flow: the platform has the user authenticate and confirm,
//! then redirects them to the configured redirect URL, where a web server
//! takes the code from the user so it can be exchanged for the OAuth token.
//!
//! The library builds every request and reads every response of the flows;
//! an unverified executor performs the HTTP exchanges. `token_request_body`
//! builders produce the form bodies that the token endpoint takes for the
//! code and refresh-token exchanges, and `Token::from_json` reads its
//! answer. `shortcode_request_body` and `ShortcodeResponse::from_json` do
//! the same for starting a "shortcode" (device) flow, where the user enters
//! a short code on the platform's site instead of following a redirect, and
//! `check_shortcode_response` decides what a poll of the check endpoint
//! means.

use crate::json::{
    json_from_str, json_model, spec_str_field, spec_u64_field, value_as_str, value_get, SpecJson,
};
use crate::rest::errors::MalformedResponseError;
use crate::text::{
    chars_to_string, push_dec_text, push_json_string, push_str_chars, spec_dec_text, spec_escape,
    spec_hex_upper_char, spec_quoted,
};
use vstd::prelude::*;
use vstd::string::StringSliceAdditionalSpecFns;

verus! {

/// Relies on `rand::random` to draw a value; nothing is promised about
/// which value comes back.
pub assume_specification<T>[ rand::random::<T> ]() -> (r: T)
    where
        rand::distributions::Standard: rand::distributions::Distribution<T>,
;

/// A byte that form-urlencoding leaves as it is: an ASCII letter or digit,
/// or one of `*`, `-`, `.`, `_`.
pub open spec fn spec_url_safe_byte(b: u8) -> bool {
    ||| 0x30 <= b <= 0x39
    ||| 0x41 <= b <= 0x5a
    ||| 0x61 <= b <= 0x7a
    ||| b == 0x2a
    ||| b == 0x2d
    ||| b == 0x2e
    ||| b == 0x5f
}

/// How one byte is form-urlencoded: a space becomes `+`, a safe byte stands
/// for itself, every other byte becomes `%` and two upper-case hex digits.
pub open spec fn spec_urlencode_byte(b: u8) -> Seq<char> {
    if b == 0x20 {
        seq!['+']
    } else if spec_url_safe_byte(b) {
        seq![b as char]
    } else {
        seq!['%', spec_hex_upper_char(b as int / 16), spec_hex_upper_char(b as int % 16)]
    }
}

/// The form-urlencoding of a byte sequence.
pub open spec fn spec_urlencode(bs: Seq<u8>) -> Seq<char>
    decreases bs.len(),
{
    if bs.len() == 0 {
        Seq::empty()
    } else {
        spec_urlencode(bs.drop_last()) + spec_urlencode_byte(bs.last())
    }
}

/// Append the form-urlencoding of the UTF-8 bytes of `s` to `out`.
fn push_urlencoded(out: &mut Vec<char>, s: &str)
    ensures
        final(out)@ == old(out)@ + spec_urlencode(s.spec_bytes()),
{
    let bytes = s.as_bytes();
    let n = bytes.len();
    let mut i: usize = 0;
    while i < n
        invariant
            i <= n,
            n == bytes@.len(),
            bytes@ == s.spec_bytes(),
            out@ == old(out)@ + spec_urlencode(bytes@.subrange(0, i as int)),
        decreases n - i,
    {
        let b = bytes[i];
        if b == 0x20 {
            out.push('+');
        } else if (0x30 <= b && b <= 0x39) || (0x41 <= b && b <= 0x5a) || (0x61 <= b && b <= 0x7a)
            || b == 0x2a || b == 0x2d || b == 0x2e || b == 0x5f {
            out.push(b as char);
        } else {
            out.push('%');
            let hi = b / 16;
            let lo = b % 16;
            if hi < 10 {
                out.push(((hi + 0x30) as u8) as char);
            } else {
                out.push(((hi + 0x37) as u8) as char);
            }
            if lo < 10 {
                out.push(((lo + 0x30) as u8) as char);
            } else {
                out.push(((lo + 0x37) as u8) as char);
            }
        }
        proof {
            assert(bytes@.subrange(0, i as int + 1).drop_last() =~= bytes@.subrange(0, i as int));
            assert(out@ =~= old(out)@ + spec_urlencode(bytes@.subrange(0, i as int + 1)));
        }
        i = i + 1;
    }
    proof {
        assert(bytes@.subrange(0, n as int) =~= bytes@);
    }
}

/// The scope list as it stands in the authorize URL: each scope's bytes
/// form-urlencoded, joined with `+` (the encoding of the space that
/// separates the scopes).
pub open spec fn spec_scope_query(scopes: Seq<Seq<u8>>) -> Seq<char>
    decreases scopes.len(),
{
    if scopes.len() == 0 {
        Seq::empty()
    } else if scopes.len() == 1 {
        spec_urlencode(scopes[0])
    } else {
        spec_scope_query(scopes.drop_last()) + seq!['+'] + spec_urlencode(scopes.last())
    }
}

/// The UTF-8 bytes of each scope in a scope list.
pub open spec fn spec_scopes_bytes(scopes: Seq<&str>) -> Seq<Seq<u8>> {
    Seq::new(scopes.len(), |i: int| scopes[i].spec_bytes())
}

/// The authorize URL for an application: the fixed endpoint, the client id,
/// the scopes, `response_type=code`, the redirect URL, a `state` value, and
/// `approval_prompt=force` only when re-authentication is forced.
pub open spec fn spec_authorize_url(
    client_id: Seq<u8>,
    scopes: Seq<Seq<u8>>,
    redirect_url: Seq<u8>,
    force: bool,
    state: u64,
) -> Seq<char> {
    "https://mixer.com/oauth/authorize?client_id="@ + spec_urlencode(client_id) + "&scope="@
        + spec_scope_query(scopes) + "&response_type=code&redirect_uri="@ + spec_urlencode(
        redirect_url,
    ) + "&state="@ + spec_dec_text(state as int) + (if force {
        "&approval_prompt=force"@
    } else {
        Seq::<char>::empty()
    })
}

/// Get the authorize URL for your application, exactly as
/// [`spec_authorize_url`] says, with a randomly drawn `state` value.
///
/// The client secret plays no part in the URL; it is taken so that the four
/// credentials of the flow travel together.
///
/// Relies on `rand::random` for the `state` value; nothing is promised about
/// which value is drawn.
pub fn get_authorize_url(
    client_id: &str,
    _client_secret: &str,
    scopes: &[&str],
    redirect_url: &str,
    force: bool,
) -> (r: String)
    ensures
        exists|state: u64|
            r@ == #[trigger] spec_authorize_url(
                client_id.spec_bytes(),
                spec_scopes_bytes(scopes@),
                redirect_url.spec_bytes(),
                force,
                state,
            ),
{
    let state: u64 = rand::random();
    let ghost scope_bytes = spec_scopes_bytes(scopes@);
    let mut out: Vec<char> = Vec::new();
    push_str_chars(&mut out, "https://mixer.com/oauth/authorize?client_id=");
    push_urlencoded(&mut out, client_id);
    push_str_chars(&mut out, "&scope=");
    let ghost scoped = out@;
    let n = scopes.len();
    let mut i: usize = 0;
    while i < n
        invariant
            i <= n,
            n == scopes@.len(),
            scope_bytes == spec_scopes_bytes(scopes@),
            out@ == scoped + spec_scope_query(scope_bytes.subrange(0, i as int)),
        decreases n - i,
    {
        if i > 0 {
            out.push('+');
        }
        push_urlencoded(&mut out, scopes[i]);
        proof {
            assert(scope_bytes.subrange(0, i as int + 1).drop_last() =~= scope_bytes.subrange(
                0,
                i as int,
            ));
            assert(scope_bytes.subrange(0, i as int + 1).last() == scope_bytes[i as int]);
            assert(out@ =~= scoped + spec_scope_query(scope_bytes.subrange(0, i as int + 1)));
        }
        i = i + 1;
    }
    proof {
        assert(scope_bytes.subrange(0, n as int) =~= scope_bytes);
    }
    push_str_chars(&mut out, "&response_type=code&redirect_uri=");
    push_urlencoded(&mut out, redirect_url);
    push_str_chars(&mut out, "&state=");
    push_dec_text(&mut out, state);
    if force {
        push_str_chars(&mut out, "&approval_prompt=force");
    }
    proof {
        assert(out@ =~= spec_authorize_url(
            client_id.spec_bytes(),
            scope_bytes,
            redirect_url.spec_bytes(),
            force,
            state,
        ));
    }
    chars_to_string(out)
}

/// The fixed endpoint that codes and refresh tokens are exchanged at.
pub fn get_endpoint_token_url() -> (r: String)
    ensures
        r@ == "https://mixer.com/api/v1/oauth/token"@,
{
    "https://mixer.com/api/v1/oauth/token".to_owned()
}

/// The fixed endpoint that a shortcode flow starts at.
pub fn get_shortcode_url_start() -> (r: String)
    ensures
        r@ == "https://mixer.com/api/v1/oauth/shortcode"@,
{
    "https://mixer.com/api/v1/oauth/shortcode".to_owned()
}

/// The endpoint a shortcode flow is polled at for the given handle.
pub fn get_shortcode_url_check(handle: &str) -> (r: String)
    ensures
        r@ == "https://mixer.com/api/v1/oauth/shortcode/check/"@ + handle@,
{
    let mut out: Vec<char> = Vec::new();
    push_str_chars(&mut out, "https://mixer.com/api/v1/oauth/shortcode/check/");
    push_str_chars(&mut out, handle);
    chars_to_string(out)
}

/// The form body of a code exchange: `grant_type=authorization_code` and the
/// code, client credentials and redirect URL, each form-urlencoded.
pub open spec fn spec_code_exchange_body(
    client_id: Seq<u8>,
    client_secret: Seq<u8>,
    redirect_url: Seq<u8>,
    code: Seq<u8>,
) -> Seq<char> {
    "grant_type=authorization_code&code="@ + spec_urlencode(code) + "&client_id="@
        + spec_urlencode(client_id) + "&client_secret="@ + spec_urlencode(client_secret)
        + "&redirect_uri="@ + spec_urlencode(redirect_url)
}

/// Build the form body that exchanges a user's code for a token, exactly as
/// [`spec_code_exchange_body`] says.
pub fn code_exchange_body(
    client_id: &str,
    client_secret: &str,
    redirect_url: &str,
    code: &str,
) -> (r: String)
    ensures
        r@ == spec_code_exchange_body(
            client_id.spec_bytes(),
            client_secret.spec_bytes(),
            redirect_url.spec_bytes(),
            code.spec_bytes(),
        ),
{
    let mut out: Vec<char> = Vec::new();
    push_str_chars(&mut out, "grant_type=authorization_code&code=");
    push_urlencoded(&mut out, code);
    push_str_chars(&mut out, "&client_id=");
    push_urlencoded(&mut out, client_id);
    push_str_chars(&mut out, "&client_secret=");
    push_urlencoded(&mut out, client_secret);
    push_str_chars(&mut out, "&redirect_uri=");
    push_urlencoded(&mut out, redirect_url);
    proof {
        assert(out@ =~= spec_code_exchange_body(
            client_id.spec_bytes(),
            client_secret.spec_bytes(),
            redirect_url.spec_bytes(),
            code.spec_bytes(),
        ));
    }
    chars_to_string(out)
}

/// The form body of a refresh exchange: `grant_type=refresh_token`, the
/// refresh token and the client credentials, each form-urlencoded.
pub open spec fn spec_refresh_exchange_body(
    client_id: Seq<u8>,
    client_secret: Seq<u8>,
    refresh_token: Seq<u8>,
) -> Seq<char> {
    "grant_type=refresh_token&refresh_token="@ + spec_urlencode(refresh_token) + "&client_id="@
        + spec_urlencode(client_id) + "&client_secret="@ + spec_urlencode(client_secret)
}

/// Build the form body that exchanges a refresh token for another access
/// token, exactly as [`spec_refresh_exchange_body`] says.
pub fn refresh_exchange_body(client_id: &str, client_secret: &str, refresh_token: &str) -> (r:
    String)
    ensures
        r@ == spec_refresh_exchange_body(
            client_id.spec_bytes(),
            client_secret.spec_bytes(),
            refresh_token.spec_bytes(),
        ),
{
    let mut out: Vec<char> = Vec::new();
    push_str_chars(&mut out, "grant_type=refresh_token&refresh_token=");
    push_urlencoded(&mut out, refresh_token);
    push_str_chars(&mut out, "&client_id=");
    push_urlencoded(&mut out, client_id);
    push_str_chars(&mut out, "&client_secret=");
    push_urlencoded(&mut out, client_secret);
    proof {
        assert(out@ =~= spec_refresh_exchange_body(
            client_id.spec_bytes(),
            client_secret.spec_bytes(),
            refresh_token.spec_bytes(),
        ));
    }
    chars_to_string(out)
}

/// Model of a [`Token`].
pub struct SpecToken {
    pub access_token: Seq<char>,
    pub expires_in: u64,
    pub token_type: Seq<char>,
}

/// The token record the token endpoint answers with.
#[derive(Debug, PartialEq)]
pub struct Token {
    /// The access token to authenticate calls with
    pub access_token: String,
    /// Expiration time in seconds
    pub expires_in: u64,
    /// The token's type
    pub token_type: String,
}

impl View for Token {
    type V = SpecToken;

    open spec fn view(&self) -> SpecToken {
        SpecToken {
            access_token: self.access_token@,
            expires_in: self.expires_in,
            token_type: self.token_type@,
        }
    }
}

/// The token record a response body carries, if any: an object whose
/// `access_token` and `token_type` fields hold strings and whose
/// `expires_in` field holds an unsigned integer.
pub open spec fn spec_token_of(s: Seq<char>) -> Option<SpecToken> {
    match json_model(s) {
        Some(SpecJson::Obj(m)) => {
            if spec_str_field(m, "access_token"@) is Some && spec_u64_field(m, "expires_in"@)
                is Some && spec_str_field(m, "token_type"@) is Some {
                Some(
                    SpecToken {
                        access_token: spec_str_field(m, "access_token"@)->Some_0,
                        expires_in: spec_u64_field(m, "expires_in"@)->Some_0,
                        token_type: spec_str_field(m, "token_type"@)->Some_0,
                    },
                )
            } else {
                None
            }
        },
        _ => None,
    }
}

impl Token {
    /// Read a token record out of a token-endpoint response body, exactly
    /// as [`spec_token_of`] says.
    pub fn from_json(text: &str) -> (r: Result<Token, MalformedResponseError>)
        ensures
            match spec_token_of(text@) {
                Some(t) => r matches Ok(tok) && tok@ == t,
                None => r is Err,
            },
    {
        let v = match json_from_str(text) {
            Some(v) => v,
            None => {
                return Err(MalformedResponseError);
            },
        };
        let access_token: String = match value_get(&v, "access_token") {
            Some(av) => match value_as_str(av) {
                Some(s) => s.to_owned(),
                None => {
                    return Err(MalformedResponseError);
                },
            },
            None => {
                return Err(MalformedResponseError);
            },
        };
        let expires_in: u64 = match value_get(&v, "expires_in") {
            Some(ev) => match crate::json::value_as_u64(ev) {
                Some(n) => n,
                None => {
                    return Err(MalformedResponseError);
                },
            },
            None => {
                return Err(MalformedResponseError);
            },
        };
        let token_type: String = match value_get(&v, "token_type") {
            Some(tv) => match value_as_str(tv) {
                Some(s) => s.to_owned(),
                None => {
                    return Err(MalformedResponseError);
                },
            },
            None => {
                return Err(MalformedResponseError);
            },
        };
        Ok(Token { access_token, expires_in, token_type })
    }
}

/// The scopes joined with single spaces, as the shortcode request sends
/// them.
pub open spec fn spec_scope_join(scopes: Seq<Seq<char>>) -> Seq<char>
    decreases scopes.len(),
{
    if scopes.len() == 0 {
        Seq::empty()
    } else if scopes.len() == 1 {
        scopes[0]
    } else {
        spec_scope_join(scopes.drop_last()) + seq![' '] + scopes.last()
    }
}

/// The body that starts a shortcode flow: the client credentials and the
/// joined scopes, in that order.
pub open spec fn spec_shortcode_request_body(
    client_id: Seq<char>,
    client_secret: Seq<char>,
    scopes: Seq<Seq<char>>,
) -> Seq<char> {
    "{\"client_id\":"@ + spec_quoted(spec_escape(client_id)) + ",\"client_secret\":"@
        + spec_quoted(spec_escape(client_secret)) + ",\"scope\":"@ + spec_quoted(
        spec_escape(spec_scope_join(scopes)),
    ) + "}"@
}

/// Build the JSON body that starts a shortcode flow, exactly as
/// [`spec_shortcode_request_body`] says.
pub fn shortcode_request_body(client_id: &str, client_secret: &str, scopes: &[&str]) -> (r: String)
    ensures
        r@ == spec_shortcode_request_body(
            client_id@,
            client_secret@,
            Seq::new(scopes@.len(), |i: int| scopes@[i]@),
        ),
{
    let ghost scope_views = Seq::new(scopes@.len(), |i: int| scopes@[i]@);
    let mut joined: Vec<char> = Vec::new();
    let n = scopes.len();
    let mut i: usize = 0;
    while i < n
        invariant
            i <= n,
            n == scopes@.len(),
            scope_views == Seq::new(scopes@.len(), |k: int| scopes@[k]@),
            joined@ == spec_scope_join(scope_views.subrange(0, i as int)),
        decreases n - i,
    {
        if i > 0 {
            joined.push(' ');
        }
        push_str_chars(&mut joined, scopes[i]);
        proof {
            assert(scope_views.subrange(0, i as int + 1).drop_last() =~= scope_views.subrange(
                0,
                i as int,
            ));
            assert(scope_views.subrange(0, i as int + 1).last() == scope_views[i as int]);
            assert(joined@ =~= spec_scope_join(scope_views.subrange(0, i as int + 1)));
        }
        i = i + 1;
    }
    proof {
        assert(scope_views.subrange(0, n as int) =~= scope_views);
    }
    let joined_str = chars_to_string(joined);
    let mut out: Vec<char> = Vec::new();
    push_str_chars(&mut out, "{\"client_id\":");
    push_json_string(&mut out, client_id);
    push_str_chars(&mut out, ",\"client_secret\":");
    push_json_string(&mut out, client_secret);
    push_str_chars(&mut out, ",\"scope\":");
    push_json_string(&mut out, joined_str.as_str());
    push_str_chars(&mut out, "}");
    proof {
        assert(out@ =~= spec_shortcode_request_body(client_id@, client_secret@, scope_views));
    }
    chars_to_string(out)
}

/// Model of a [`ShortcodeResponse`].
pub struct SpecShortcodeResponse {
    pub code: Seq<char>,
    pub expires_in: u64,
    pub handle: Seq<char>,
}

/// Struct around the response from fetching an auth shortcode.
#[derive(Debug, PartialEq)]
pub struct ShortcodeResponse {
    /// Code that the user being authenticated needs to enter
    pub code: String,
    /// Expiration time in seconds
    pub expires_in: u64,
    /// Handle string to check on the user's authentication status
    pub handle: String,
}

impl View for ShortcodeResponse {
    type V = SpecShortcodeResponse;

    open spec fn view(&self) -> SpecShortcodeResponse {
        SpecShortcodeResponse {
            code: self.code@,
            expires_in: self.expires_in,
            handle: self.handle@,
        }
    }
}

/// The shortcode record a response body carries, if any: an object whose
/// `code` and `handle` fields hold strings and whose `expires_in` field
/// holds an unsigned integer.
pub open spec fn spec_shortcode_of(s: Seq<char>) -> Option<SpecShortcodeResponse> {
    match json_model(s) {
        Some(SpecJson::Obj(m)) => {
            if spec_str_field(m, "code"@) is Some && spec_u64_field(m, "expires_in"@) is Some
                && spec_str_field(m, "handle"@) is Some {
                Some(
                    SpecShortcodeResponse {
                        code: spec_str_field(m, "code"@)->Some_0,
                        expires_in: spec_u64_field(m, "expires_in"@)->Some_0,
                        handle: spec_str_field(m, "handle"@)->Some_0,
                    },
                )
            } else {
                None
            }
        },
        _ => None,
    }
}

impl ShortcodeResponse {
    /// Read a shortcode record out of a start-endpoint response body,
    /// exactly as [`spec_shortcode_of`] says.
    pub fn from_json(text: &str) -> (r: Result<ShortcodeResponse, MalformedResponseError>)
        ensures
            match spec_shortcode_of(text@) {
                Some(sc) => r matches Ok(resp) && resp@ == sc,
                None => r is Err,
            },
    {
        let v = match json_from_str(text) {
            Some(v) => v,
            None => {
                return Err(MalformedResponseError);
            },
        };
        let code: String = match value_get(&v, "code") {
            Some(cv) => match value_as_str(cv) {
                Some(s) => s.to_owned(),
                None => {
                    return Err(MalformedResponseError);
                },
            },
            None => {
                return Err(MalformedResponseError);
            },
        };
        let expires_in: u64 = match value_get(&v, "expires_in") {
            Some(ev) => match crate::json::value_as_u64(ev) {
                Some(n) => n,
                None => {
                    return Err(MalformedResponseError);
                },
            },
            None => {
                return Err(MalformedResponseError);
            },
        };
        let handle: String = match value_get(&v, "handle") {
            Some(hv) => match value_as_str(hv) {
                Some(s) => s.to_owned(),
                None => {
                    return Err(MalformedResponseError);
                },
            },
            None => {
                return Err(MalformedResponseError);
            },
        };
        Ok(ShortcodeResponse { code, expires_in, handle })
    }
}

/// Model of a [`ShortcodeStatus`].
pub enum SpecShortcodeStatus {
    WaitingOnUser,
    UserDeniedAccess,
    HandleInvalid,
    UserGrantedAccess(Seq<char>),
}

/// Status of a shortcode auth flow.
#[derive(Debug, PartialEq)]
pub enum ShortcodeStatus {
    /// HTTP 204 - user hasn't entered the code yet
    WaitingOnUser,
    /// HTTP 403 - user chose not to authenticate
    UserDeniedAccess,
    /// HTTP 404 - handle is invalid or expired
    HandleInvalid,
    /// HTTP 200 - user completed the authentication; carries the code to
    /// exchange for a token
    UserGrantedAccess(String),
}

impl View for ShortcodeStatus {
    type V = SpecShortcodeStatus;

    open spec fn view(&self) -> SpecShortcodeStatus {
        match self {
            ShortcodeStatus::WaitingOnUser => SpecShortcodeStatus::WaitingOnUser,
            ShortcodeStatus::UserDeniedAccess => SpecShortcodeStatus::UserDeniedAccess,
            ShortcodeStatus::HandleInvalid => SpecShortcodeStatus::HandleInvalid,
            ShortcodeStatus::UserGrantedAccess(c) => SpecShortcodeStatus::UserGrantedAccess(c@),
        }
    }
}

/// What a poll of the check endpoint means: 200 grants access and carries
/// the `code` field of the body (a 200 body without a string `code` field
/// counts as an invalid handle); 204 means the user has not entered the
/// code yet; 403 means the user denied access; every other status means the
/// handle is invalid or expired.
pub open spec fn spec_shortcode_status(status: u16, body: Seq<char>) -> SpecShortcodeStatus {
    if status == 200 {
        match json_model(body) {
            Some(SpecJson::Obj(m)) => match spec_str_field(m, "code"@) {
                Some(c) => SpecShortcodeStatus::UserGrantedAccess(c),
                None => SpecShortcodeStatus::HandleInvalid,
            },
            _ => SpecShortcodeStatus::HandleInvalid,
        }
    } else if status == 204 {
        SpecShortcodeStatus::WaitingOnUser
    } else if status == 403 {
        SpecShortcodeStatus::UserDeniedAccess
    } else {
        SpecShortcodeStatus::HandleInvalid
    }
}

/// Decide what a poll of the check endpoint means from the status and body
/// it answered with, exactly as [`spec_shortcode_status`] says.
pub fn check_shortcode_response(status: u16, body: &str) -> (r: ShortcodeStatus)
    ensures
        r@ == spec_shortcode_status(status, body@),
{
    if status == 200 {
        let v = match json_from_str(body) {
            Some(v) => v,
            None => {
                return ShortcodeStatus::HandleInvalid;
            },
        };
        match value_get(&v, "code") {
            Some(cv) => match value_as_str(cv) {
                Some(s) => ShortcodeStatus::UserGrantedAccess(s.to_owned()),
                None => ShortcodeStatus::HandleInvalid,
            },
            None => ShortcodeStatus::HandleInvalid,
        }
    } else if status == 204 {
        ShortcodeStatus::WaitingOnUser
    } else if status == 403 {
        ShortcodeStatus::UserDeniedAccess
    } else {
        ShortcodeStatus::HandleInvalid
    }
}

} // verus!
