//! Helper for webhook-related REST API endpoints.

use super::REST;
use crate::text::{
    chars_to_string, push_json_string, push_str_chars, spec_escape, spec_quoted,
};
use vstd::prelude::*;

verus! {

/// The text of a printed string list: each string quoted and escaped, in
/// order, separated by commas.
pub open spec fn spec_str_list_text(items: Seq<Seq<char>>) -> Seq<char>
    decreases items.len(),
{
    if items.len() == 0 {
        Seq::empty()
    } else if items.len() == 1 {
        spec_quoted(spec_escape(items[0]))
    } else {
        spec_str_list_text(items.drop_last()) + seq![','] + spec_quoted(
            spec_escape(items.last()),
        )
    }
}

/// The body of a webhook registration: the events to receive, the fixed
/// `web` kind, and the URL to call, in that order.
pub open spec fn spec_register_body(events: Seq<Seq<char>>, url: Seq<char>) -> Seq<char> {
    "{\"events\":["@ + spec_str_list_text(events) + "],\"kind\":\"web\",\"url\":"@ + spec_quoted(
        spec_escape(url),
    ) + "}"@
}

/// The headers of a webhook registration: the `client-id` header and an
/// `authorization` header carrying the `Secret` scheme with the client
/// secret, instead of a bearer token.
pub open spec fn spec_register_headers(client_id: Seq<char>, client_secret: Seq<char>) -> Seq<
    (Seq<char>, Seq<char>),
> {
    seq![("client-id"@, client_id), ("authorization"@, "Secret "@ + client_secret)]
}

/// Helper for webhook-related REST API endpoints.
pub struct WebHookHelper<'a> {
    /// Reference to constructing REST struct
    pub rest: &'a REST,
}

impl<'a> WebHookHelper<'a> {
    /// Build the headers of a webhook registration, exactly as
    /// [`spec_register_headers`] says. This request is constructed apart
    /// from the normal API requests, as it does not share their headers.
    pub fn register_headers(&self, client_secret: &str) -> (r: Vec<(String, String)>)
        ensures
            ({
                let expected = spec_register_headers(self.rest.spec_client_id(), client_secret@);
                &&& r@.len() == expected.len()
                &&& forall|i: int|
                    0 <= i < r@.len() ==> ((#[trigger] r@[i]).0@, r@[i].1@) == expected[i]
            }),
    {
        let mut out: Vec<(String, String)> = Vec::new();
        out.push(("client-id".to_owned(), self.rest.client_id.clone()));
        let mut value: Vec<char> = Vec::new();
        push_str_chars(&mut value, "Secret ");
        push_str_chars(&mut value, client_secret);
        out.push(("authorization".to_owned(), chars_to_string(value)));
        out
    }

    /// Build the body of a webhook registration, exactly as
    /// [`spec_register_body`] says.
    pub fn register_body(&self, events: &[&str], url: &str) -> (r: String)
        ensures
            r@ == spec_register_body(
                Seq::new(events@.len(), |i: int| events@[i]@),
                url@,
            ),
    {
        let ghost items = Seq::new(events@.len(), |i: int| events@[i]@);
        let mut out: Vec<char> = Vec::new();
        push_str_chars(&mut out, "{\"events\":[");
        let ghost opened = out@;
        let n = events.len();
        let mut i: usize = 0;
        while i < n
            invariant
                i <= n,
                n == events@.len(),
                items == Seq::new(events@.len(), |k: int| events@[k]@),
                out@ == opened + spec_str_list_text(items.subrange(0, i as int)),
            decreases n - i,
        {
            if i > 0 {
                out.push(',');
            }
            push_json_string(&mut out, events[i]);
            proof {
                assert(items.subrange(0, i as int + 1).drop_last() =~= items.subrange(
                    0,
                    i as int,
                ));
                assert(items.subrange(0, i as int + 1).last() == items[i as int]);
                assert(out@ =~= opened + spec_str_list_text(items.subrange(0, i as int + 1)));
            }
            i = i + 1;
        }
        push_str_chars(&mut out, "],\"kind\":\"web\",\"url\":");
        push_json_string(&mut out, url);
        push_str_chars(&mut out, "}");
        proof {
            assert(items.subrange(0, n as int) =~= items);
            assert(out@ =~= spec_register_body(items, url@));
        }
        chars_to_string(out)
    }
}

} // verus!
