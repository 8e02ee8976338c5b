//! REST API error handling.

use crate::text::{chars_to_string, push_dec_text, push_str_chars, spec_dec_text};
use vstd::prelude::*;

verus! {

/// Error for receiving a non-2xx response from an endpoint, carrying the
/// status code.
#[derive(Debug, PartialEq, Eq, Structural, Clone, Copy)]
pub struct BadHttpResponseError(pub u16);

impl BadHttpResponseError {
    /// The error rendered as text, naming the status code.
    pub fn message(&self) -> (r: String)
        ensures
            r@ == "An error occurred with error code "@ + spec_dec_text(self.0 as int) + "."@,
    {
        let mut out: Vec<char> = Vec::new();
        push_str_chars(&mut out, "An error occurred with error code ");
        push_dec_text(&mut out, self.0 as u64);
        push_str_chars(&mut out, ".");
        chars_to_string(out)
    }
}

/// Error for an HTTP method name that is not a valid token.
#[derive(Debug, PartialEq, Eq, Structural, Clone, Copy)]
pub struct InvalidMethodError;

/// Error for a response body that does not have the shape an endpoint
/// documents.
#[derive(Debug, PartialEq, Eq, Structural, Clone, Copy)]
pub struct MalformedResponseError;

} // verus!
