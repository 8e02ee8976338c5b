//! Descriptions of the error codes the real-time service sends in close
//! frames and method replies.

use vstd::prelude::*;

verus! {

/// The description the service documents for an error code, or `None` for a
/// code it does not document.
pub fn error_description(code: u16) -> (r: Option<&'static str>)
    ensures
        r is Some <==> (code == 1011 || code == 1012 || code == 4006 || code == 4007 || code
            == 4008 || code == 4009 || code == 4010 || code == 4011 || code == 4106 || code == 4107
            || code == 4108 || code == 4109 || code == 4110),
{
    match code {
        1011 => Some("Sent in a close or method reply if an unknown internal error occurs."),
        1012 => Some(
            "Sent in a close frame when we deploy or restart Constellation; clients should attempt to reconnect.",
        ),
        4006 => Some("Error parsing payload as JSON"),
        4007 => Some("Error decompressing a supposedly-gzipped payload"),
        4008 => Some("Unknown packet type"),
        4009 => Some("Unknown method name call"),
        4010 => Some("Error parsing method arguments (not the right type or structure)"),
        4011 => Some(
            "The user session has expired; if using a cookie, they should log in again, or get a bearer auth token if using an authorization header.",
        ),
        4106 => Some("Unknown event used in a livesubscribe call"),
        4107 => Some("You do not have access to subscribe to that livesubscribe event"),
        4108 => Some(
            "You are already subscribed to that livesubscribe event (during livesubscribe)",
        ),
        4109 => Some(
            "You are not subscribed to that livesubscribe event (in response to a liveunsubscribe method)",
        ),
        4110 => Some(
            "You cannot make more subscriptions (in response to a livesubscribe method). See liveloading limits.",
        ),
        _ => None,
    }
}

} // verus!
