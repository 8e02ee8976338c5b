//! Wrapper around the platform's REST API.
//!
//! The `REST` struct decides everything about a call that does not touch the
//! network: the full URL, the headers (the `client-id` header on every call,
//! a bearer token only when one is supplied), the validated HTTP method, and
//! how the response status maps to a result. An unverified executor performs
//! the HTTP exchange it is handed and brings back the status and body.
//!
//! The `ChatHelper` struct can be constructed through an instance of the
//! `REST` struct, with the endpoint paths and response readers for the chat
//! connection information.
//!
//! The `WebHookHelper` struct can be constructed through an instance of the
//! `REST` struct, with the headers and body for registering webhooks, as
//! that call differs from the rest of the API.
//!
//! Some endpoints require OAuth. You can utilize this crate's oauth module
//! for getting an access token from users.

pub mod chat_helper;
pub mod errors;
pub mod webhook_helper;

use crate::text::{chars_to_string, push_str_chars};
use chat_helper::ChatHelper;
use errors::{BadHttpResponseError, InvalidMethodError};
use vstd::prelude::*;
use webhook_helper::WebHookHelper;

verus! {

/// True exactly when an HTTP status code counts as a success (2xx).
pub open spec fn spec_status_is_success(status: u16) -> bool {
    200 <= status < 300
}

/// A character allowed in an HTTP method name (an RFC 7230 token).
pub open spec fn spec_is_token_char(c: char) -> bool {
    ||| c == '!'
    ||| c == '#'
    ||| c == '$'
    ||| c == '%'
    ||| c == '&'
    ||| c == '\''
    ||| c == '*'
    ||| c == '+'
    ||| c == '-'
    ||| c == '.'
    ||| c == '^'
    ||| c == '_'
    ||| c == '`'
    ||| c == '|'
    ||| c == '~'
    ||| '0' <= c <= '9'
    ||| 'a' <= c <= 'z'
    ||| 'A' <= c <= 'Z'
}

/// An ASCII lower-case letter mapped to its upper case; every other
/// character kept.
pub open spec fn spec_upper_char(c: char) -> char {
    if 'a' <= c <= 'z' {
        ((c as u32 - 0x20) as u8) as char
    } else {
        c
    }
}

/// The text with its ASCII letters upper-cased.
pub open spec fn spec_upper(s: Seq<char>) -> Seq<char> {
    Seq::new(s.len(), |i: int| spec_upper_char(s[i]))
}

/// A valid HTTP method name: nonempty, token characters only.
pub open spec fn spec_method_valid(s: Seq<char>) -> bool {
    s.len() > 0 && forall|i: int| 0 <= i < s.len() ==> spec_is_token_char(#[trigger] s[i])
}

/// The headers every API call carries: the `client-id` header, and an
/// `authorization` bearer header only when a token is supplied.
pub open spec fn spec_headers(client_id: Seq<char>, token: Option<Seq<char>>) -> Seq<
    (Seq<char>, Seq<char>),
> {
    match token {
        Some(t) => seq![("client-id"@, client_id), ("authorization"@, "Bearer "@ + t)],
        None => seq![("client-id"@, client_id)],
    }
}

/// Everything about an HTTP exchange the library decides: what to send.
/// An unverified executor performs it and brings back the status and body.
pub struct HttpRequest {
    /// Upper-cased, validated HTTP method
    pub method: String,
    /// Full URL, without query parameters
    pub url: String,
    /// Header names and values, in order
    pub headers: Vec<(String, String)>,
    /// Query parameters to append, in order
    pub query: Vec<(String, String)>,
    /// Optional body
    pub body: Option<String>,
}

/// Upper-case the ASCII letters of a text.
fn ascii_uppercase(s: &str) -> (r: String)
    ensures
        r@ == spec_upper(s@),
{
    let n = s.unicode_len();
    let mut out: Vec<char> = Vec::new();
    let mut i: usize = 0;
    while i < n
        invariant
            i <= n,
            n == s@.len(),
            out@ == spec_upper(s@).subrange(0, i as int),
        decreases n - i,
    {
        let c = s.get_char(i);
        let code = c as u32;
        if 0x61 <= code && code <= 0x7a {
            out.push(((code - 0x20) as u8) as char);
        } else {
            out.push(c);
        }
        proof {
            assert(spec_upper(s@).subrange(0, i as int + 1) =~= spec_upper(s@).subrange(
                0,
                i as int,
            ).push(spec_upper_char(s@[i as int])));
        }
        i = i + 1;
    }
    proof {
        assert(spec_upper(s@).subrange(0, n as int) =~= spec_upper(s@));
    }
    chars_to_string(out)
}

/// Decide whether a text is a valid HTTP method name.
fn method_valid(s: &str) -> (r: bool)
    ensures
        r == spec_method_valid(s@),
{
    let n = s.unicode_len();
    if n == 0 {
        return false;
    }
    let mut i: usize = 0;
    while i < n
        invariant
            i <= n,
            n == s@.len(),
            forall|k: int| 0 <= k < i ==> spec_is_token_char(#[trigger] s@[k]),
        decreases n - i,
    {
        let c = s.get_char(i);
        let ok = c == '!' || c == '#' || c == '$' || c == '%' || c == '&' || c == '\'' || c == '*'
            || c == '+' || c == '-' || c == '.' || c == '^' || c == '_' || c == '`' || c == '|'
            || c == '~' || ('0' <= c && c <= '9') || ('a' <= c && c <= 'z') || ('A' <= c && c
            <= 'Z');
        if !ok {
            return false;
        }
        i = i + 1;
    }
    true
}

/// Map a response to the caller's result: a success status hands the body
/// back, any other status is an error carrying that exact status code.
pub fn handle_response(status: u16, text: String) -> (r: Result<String, BadHttpResponseError>)
    ensures
        spec_status_is_success(status) ==> (r matches Ok(t) && t@ == text@),
        !spec_status_is_success(status) ==> r == Err::<String, BadHttpResponseError>(
            BadHttpResponseError(status),
        ),
{
    if 200 <= status && status < 300 {
        Ok(text)
    } else {
        Err(BadHttpResponseError(status))
    }
}

/// API wrapper around the platform's REST API.
pub struct REST {
    client_id: String,
}

impl REST {
    /// The client id the wrapper was created with.
    pub closed spec fn spec_client_id(&self) -> Seq<char> {
        self.client_id@
    }

    /// Create a new API wrapper.
    pub fn new(client_id: &str) -> (r: REST)
        ensures
            r.spec_client_id() == client_id@,
    {
        REST { client_id: client_id.to_owned() }
    }

    /// Get the base REST API URL.
    fn base_url(&self) -> (r: String)
        ensures
            r@ == "https://mixer.com/api/v1"@,
    {
        "https://mixer.com/api/v1".to_owned()
    }

    /// Build the required API headers: `client-id` always, a bearer
    /// `authorization` header only when a token is supplied.
    pub fn headers(&self, access_token: Option<&str>) -> (r: Vec<(String, String)>)
        ensures
            ({
                let expected = spec_headers(
                    self.spec_client_id(),
                    match access_token {
                        Some(t) => Some(t@),
                        None => None,
                    },
                );
                &&& r@.len() == expected.len()
                &&& forall|i: int|
                    0 <= i < r@.len() ==> ((#[trigger] r@[i]).0@, r@[i].1@) == expected[i]
            }),
    {
        let mut out: Vec<(String, String)> = Vec::new();
        out.push(("client-id".to_owned(), self.client_id.clone()));
        match access_token {
            Some(t) => {
                let mut value: Vec<char> = Vec::new();
                push_str_chars(&mut value, "Bearer ");
                push_str_chars(&mut value, t);
                out.push(("authorization".to_owned(), chars_to_string(value)));
            },
            None => {},
        }
        out
    }

    /// Build the HTTP exchange for a query: the upper-cased, validated
    /// method, the endpoint appended to the base URL, the required headers,
    /// and the query parameters and body as given. An invalid method is the
    /// one error.
    pub fn query_request(
        &self,
        method: &str,
        endpoint: &str,
        params: Option<&[(&str, &str)]>,
        body: Option<&str>,
        access_token: Option<&str>,
    ) -> (r: Result<HttpRequest, InvalidMethodError>)
        ensures
            r is Ok <==> spec_method_valid(spec_upper(method@)),
            r matches Ok(req) ==> {
                &&& req.method@ == spec_upper(method@)
                &&& req.url@ == "https://mixer.com/api/v1"@ + "/"@ + endpoint@
                &&& ({
                    let expected = spec_headers(
                        self.spec_client_id(),
                        match access_token {
                            Some(t) => Some(t@),
                            None => None,
                        },
                    );
                    &&& req.headers@.len() == expected.len()
                    &&& forall|i: int|
                        0 <= i < req.headers@.len() ==> ((#[trigger] req.headers@[i]).0@,
                        req.headers@[i].1@) == expected[i]
                })
                &&& req.query@.len() == (match params {
                    Some(ps) => ps@.len(),
                    None => 0,
                })
                &&& (params matches Some(ps) ==> forall|i: int|
                    0 <= i < ps@.len() ==> (#[trigger] req.query@[i]).0@ == ps@[i].0@
                        && req.query@[i].1@ == ps@[i].1@)
                &&& (match body {
                    Some(b) => req.body matches Some(ob) && ob@ == b@,
                    None => req.body is None,
                })
            },
    {
        let method_upper = ascii_uppercase(method);
        if !method_valid(method_upper.as_str()) {
            return Err(InvalidMethodError);
        }
        let base = self.base_url();
        let mut url: Vec<char> = Vec::new();
        push_str_chars(&mut url, base.as_str());
        push_str_chars(&mut url, "/");
        push_str_chars(&mut url, endpoint);
        let mut query: Vec<(String, String)> = Vec::new();
        match params {
            Some(ps) => {
                let n = ps.len();
                let mut i: usize = 0;
                while i < n
                    invariant
                        i <= n,
                        n == ps@.len(),
                        query@.len() == i,
                        forall|k: int|
                            0 <= k < i ==> (#[trigger] query@[k]).0@ == ps@[k].0@
                                && query@[k].1@ == ps@[k].1@,
                    decreases n - i,
                {
                    let pair = (ps[i].0.to_owned(), ps[i].1.to_owned());
                    query.push(pair);
                    i = i + 1;
                }
            },
            None => {},
        }
        let owned_body: Option<String> = match body {
            Some(b) => Some(b.to_owned()),
            None => None,
        };
        Ok(
            HttpRequest {
                method: method_upper,
                url: chars_to_string(url),
                headers: self.headers(access_token),
                query,
                body: owned_body,
            },
        )
    }

    /// Get a struct with several chat-related endpoint helpers.
    pub fn chat_helper<'a>(&'a self) -> (r: ChatHelper<'a>) {
        ChatHelper { rest: self }
    }

    /// Get a struct with several WebHook-related endpoint helpers.
    pub fn webhook_helper<'a>(&'a self) -> (r: WebHookHelper<'a>) {
        WebHookHelper { rest: self }
    }
}

} // verus!
