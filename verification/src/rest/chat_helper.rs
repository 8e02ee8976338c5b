//! Helper for chat-related REST API endpoints.

use super::REST;
use crate::json::{
    json_from_str, json_model, spec_u64_field, value_as_array, value_as_str, value_get,
    value_model, SpecJson,
};
use crate::rest::errors::MalformedResponseError;
use crate::text::{chars_to_string, push_dec_text, push_str_chars, spec_dec_text};
use vstd::prelude::*;

verus! {

/// The channel id a `channels/{username}?fields=id` response carries: the
/// `id` field of the returned object, when it holds an unsigned integer.
pub open spec fn spec_channel_id(s: Seq<char>) -> Option<u64> {
    match json_model(s) {
        Some(SpecJson::Obj(m)) => spec_u64_field(m, "id"@),
        _ => None,
    }
}

/// Whether every element of a document list is a string.
pub open spec fn spec_all_strings(es: Seq<SpecJson>) -> bool {
    forall|i: int| 0 <= i < es.len() ==> (#[trigger] es[i]) is Str
}

/// The chat server list a `chats/{channel_id}` response carries: the
/// `endpoints` field of the returned object, when it holds an array of
/// strings.
pub open spec fn spec_servers(s: Seq<char>) -> Option<Seq<Seq<char>>> {
    match json_model(s) {
        Some(SpecJson::Obj(m)) => {
            if m.contains_key("endpoints"@) && (m["endpoints"@] matches SpecJson::Arr(es)
                && spec_all_strings(es)) {
                Some(Seq::new(m["endpoints"@]->Arr_0.len(), |i: int| m["endpoints"@]->Arr_0[i]->Str_0))
            } else {
                None
            }
        },
        _ => None,
    }
}

/// Helper for chat-related REST API endpoints.
pub struct ChatHelper<'a> {
    /// Reference to constructing REST struct
    pub rest: &'a REST,
}

impl<'a> ChatHelper<'a> {
    /// The endpoint that the channel id for a username is fetched from.
    pub fn channel_id_endpoint(&self, username: &str) -> (r: String)
        ensures
            r@ == "channels/"@ + username@ + "?fields=id"@,
    {
        let mut out: Vec<char> = Vec::new();
        push_str_chars(&mut out, "channels/");
        push_str_chars(&mut out, username);
        push_str_chars(&mut out, "?fields=id");
        proof {
            assert(out@ =~= "channels/"@ + username@ + "?fields=id"@);
        }
        chars_to_string(out)
    }

    /// Read the channel id out of the body that endpoint returned, exactly
    /// as [`spec_channel_id`] says.
    pub fn channel_id_from_response(&self, text: &str) -> (r: Result<u64, MalformedResponseError>)
        ensures
            match spec_channel_id(text@) {
                Some(n) => r == Ok::<u64, MalformedResponseError>(n),
                None => r is Err,
            },
    {
        let v = match json_from_str(text) {
            Some(v) => v,
            None => {
                return Err(MalformedResponseError);
            },
        };
        match value_get(&v, "id") {
            Some(iv) => match crate::json::value_as_u64(iv) {
                Some(n) => Ok(n),
                None => Err(MalformedResponseError),
            },
            None => Err(MalformedResponseError),
        }
    }

    /// The endpoint that the chat server list for a channel is fetched from.
    pub fn servers_endpoint(&self, channel_id: u64) -> (r: String)
        ensures
            r@ == "chats/"@ + spec_dec_text(channel_id as int),
    {
        let mut out: Vec<char> = Vec::new();
        push_str_chars(&mut out, "chats/");
        push_dec_text(&mut out, channel_id);
        proof {
            assert(out@ =~= "chats/"@ + spec_dec_text(channel_id as int));
        }
        chars_to_string(out)
    }

    /// Read the chat server list out of the body that endpoint returned,
    /// exactly as [`spec_servers`] says.
    pub fn servers_from_response(&self, text: &str) -> (r: Result<
        Vec<String>,
        MalformedResponseError,
    >)
        ensures
            match spec_servers(text@) {
                Some(list) => r matches Ok(out) && out@.len() == list.len() && (forall|i: int|
                    0 <= i < list.len() ==> (#[trigger] out@[i])@ == list[i]),
                None => r is Err,
            },
    {
        let v = match json_from_str(text) {
            Some(v) => v,
            None => {
                return Err(MalformedResponseError);
            },
        };
        let endpoints_val = match value_get(&v, "endpoints") {
            Some(av) => av,
            None => {
                return Err(MalformedResponseError);
            },
        };
        let arr = match value_as_array(endpoints_val) {
            Some(a) => a,
            None => {
                return Err(MalformedResponseError);
            },
        };
        let ghost m = value_model(v)->Obj_0;
        let ghost es = value_model(*endpoints_val)->Arr_0;
        proof {
            assert(json_model(text@) == Some(value_model(v)));
            assert(value_model(v) is Obj);
            assert(m["endpoints"@] == value_model(*endpoints_val));
        }
        let n = arr.len();
        let mut out: Vec<String> = Vec::new();
        let mut i: usize = 0;
        while i < n
            invariant
                i <= n,
                n == arr@.len(),
                n == es.len(),
                json_model(text@) == Some(value_model(v)),
                value_model(v) == SpecJson::Obj(m),
                m.contains_key("endpoints"@),
                m["endpoints"@] == value_model(*endpoints_val),
                es == value_model(*endpoints_val)->Arr_0,
                value_model(*endpoints_val) is Arr,
                forall|k: int| 0 <= k < n ==> #[trigger] es[k] == value_model(arr@[k]),
                out@.len() == i,
                forall|k: int| 0 <= k < i ==> #[trigger] es[k] == SpecJson::Str(out@[k]@),
            decreases n - i,
        {
            match value_as_str(&arr[i]) {
                Some(s) => {
                    out.push(s.to_owned());
                    proof {
                        assert(es[i as int] == value_model(arr@[i as int]));
                    }
                },
                None => {
                    proof {
                        assert(!(es[i as int] is Str));
                        assert(!spec_all_strings(es)) by {
                            if spec_all_strings(es) {
                                assert(es[i as int] is Str);
                            }
                        }
                        assert(spec_servers(text@) is None);
                    }
                    return Err(MalformedResponseError);
                },
            }
            i = i + 1;
        }
        proof {
            assert(spec_all_strings(es));
            assert(spec_servers(text@) is Some);
            let list = spec_servers(text@)->Some_0;
            assert(out@.len() == list.len());
            assert(forall|k: int|
                0 <= k < list.len() ==> (#[trigger] out@[k])@ == es[k]->Str_0);
        }
        Ok(out)
    }
}

} // verus!
