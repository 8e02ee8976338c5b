//! Static models for the JSON data of the chat protocol.

use crate::json::{
    json_text_of, spec_str_field, spec_u64_field, value_as_str, value_as_u64, value_clone,
    value_get, value_is_null, value_is_object, value_model, value_to_string, SpecJson,
};
use crate::text::chars_to_string;
use crate::text::{push_dec_text, push_json_string, push_str_chars, spec_dec_text, spec_escape,
    spec_quoted};
use vstd::prelude::*;

verus! {

/// Model of an [`Event`].
pub struct SpecEvent {
    pub event_type: Seq<char>,
    pub event: Seq<char>,
    pub data: Option<SpecJson>,
}

/// An Event coming in from the socket.
///
/// These are sent from the chat server when connecting, receiving a live
/// event, etc.
#[derive(Debug)]
pub struct Event {
    /// Always 'event'
    pub event_type: String,
    /// Which event
    pub event: String,
    /// Data associated with the event. Note that this is, per the server's
    /// documentation, completely unstructured; it depends on which kind of
    /// event was received.
    pub data: Option<serde_json::Value>,
}

impl View for Event {
    type V = SpecEvent;

    open spec fn view(&self) -> SpecEvent {
        SpecEvent {
            event_type: self.event_type@,
            event: self.event@,
            data: match self.data {
                Some(v) => Some(value_model(v)),
                None => None,
            },
        }
    }
}

/// The event an inbound JSON document decodes to, if any: the document must
/// be an object whose `type` and `event` fields hold strings; a missing or
/// `null` `data` field decodes to no data, any other `data` value is kept
/// as it is. Extra fields are ignored.
pub open spec fn spec_event_of(j: SpecJson) -> Option<SpecEvent> {
    match j {
        SpecJson::Obj(m) => {
            if spec_str_field(m, "type"@) is Some && spec_str_field(m, "event"@) is Some {
                Some(
                    SpecEvent {
                        event_type: spec_str_field(m, "type"@)->Some_0,
                        event: spec_str_field(m, "event"@)->Some_0,
                        data: if m.contains_key("data"@) && !(m["data"@] is Null) {
                            Some(m["data"@])
                        } else {
                            None
                        },
                    },
                )
            } else {
                None
            }
        },
        _ => None,
    }
}

/// The text [`Event::to_json_text`] prints: the three fields in declaration
/// order, strings escaped, absent data written as `null`.
pub open spec fn spec_event_text(e: SpecEvent) -> Seq<char> {
    "{\"type\":"@ + spec_quoted(spec_escape(e.event_type)) + ",\"event\":"@ + spec_quoted(
        spec_escape(e.event),
    ) + ",\"data\":"@ + (match e.data {
        Some(j) => json_text_of(j),
        None => "null"@,
    }) + "}"@
}

impl Event {
    /// Decode an event from a JSON document, exactly as [`spec_event_of`]
    /// says.
    pub fn try_from(v: &serde_json::Value) -> (r: Result<Event, &'static str>)
        ensures
            match spec_event_of(value_model(*v)) {
                Some(e) => r matches Ok(ev) && ev@ == e,
                None => r is Err,
            },
    {
        let event_type: String = match value_get(v, "type") {
            Some(tv) => match value_as_str(tv) {
                Some(s) => s.to_owned(),
                None => {
                    return Err("Could not load from JSON");
                },
            },
            None => {
                return Err("Could not load from JSON");
            },
        };
        let event: String = match value_get(v, "event") {
            Some(ev) => match value_as_str(ev) {
                Some(s) => s.to_owned(),
                None => {
                    return Err("Could not load from JSON");
                },
            },
            None => {
                return Err("Could not load from JSON");
            },
        };
        let data: Option<serde_json::Value> = match value_get(v, "data") {
            Some(dv) => if value_is_null(dv) {
                None
            } else {
                Some(value_clone(dv))
            },
            None => None,
        };
        Ok(Event { event_type, event, data })
    }

    /// Print the event as the JSON text the server expects, exactly as
    /// [`spec_event_text`] says.
    pub fn to_json_text(&self) -> (r: String)
        ensures
            r@ == spec_event_text(self@),
    {
        let mut out: Vec<char> = Vec::new();
        push_str_chars(&mut out, "{\"type\":");
        push_json_string(&mut out, self.event_type.as_str());
        push_str_chars(&mut out, ",\"event\":");
        push_json_string(&mut out, self.event.as_str());
        push_str_chars(&mut out, ",\"data\":");
        match &self.data {
            Some(v) => {
                let text = value_to_string(v);
                push_str_chars(&mut out, text.as_str());
            },
            None => {
                push_str_chars(&mut out, "null");
            },
        }
        push_str_chars(&mut out, "}");
        proof {
            assert(out@ =~= spec_event_text(self@));
        }
        chars_to_string(out)
    }
}

/// Model of a [`Method`].
pub struct SpecMethod {
    pub method_type: Seq<char>,
    pub method: Seq<char>,
    pub arguments: Seq<SpecJson>,
    pub id: u64,
}

/// A Method to send to the socket.
///
/// This is how clients send data _to_ the socket. The chat protocol takes
/// its arguments as an array, printed in order.
#[derive(Debug)]
pub struct Method {
    /// Always 'method'
    pub method_type: String,
    /// The method to call
    pub method: String,
    /// Method's arguments
    pub arguments: Vec<serde_json::Value>,
    /// Unique id for this method call
    pub id: u64,
}

impl View for Method {
    type V = SpecMethod;

    open spec fn view(&self) -> SpecMethod {
        SpecMethod {
            method_type: self.method_type@,
            method: self.method@,
            arguments: Seq::new(self.arguments@.len(), |i: int| value_model(self.arguments@[i])),
            id: self.id,
        }
    }
}

/// The text of a printed argument list: the values' texts in order,
/// separated by commas.
pub open spec fn spec_args_text(vs: Seq<SpecJson>) -> Seq<char>
    decreases vs.len(),
{
    if vs.len() == 0 {
        Seq::empty()
    } else if vs.len() == 1 {
        json_text_of(vs[0])
    } else {
        spec_args_text(vs.drop_last()) + seq![','] + json_text_of(vs.last())
    }
}

/// The text [`Method::to_json_text`] prints: the four fields in declaration
/// order, the arguments as an array.
pub open spec fn spec_method_text(m: SpecMethod) -> Seq<char> {
    "{\"type\":"@ + spec_quoted(spec_escape(m.method_type)) + ",\"method\":"@ + spec_quoted(
        spec_escape(m.method),
    ) + ",\"arguments\":["@ + spec_args_text(m.arguments) + "],\"id\":"@ + spec_dec_text(
        m.id as int,
    ) + "}"@
}

impl Method {
    /// Print the method as the JSON text the server expects, exactly as
    /// [`spec_method_text`] says.
    pub fn to_json_text(&self) -> (r: String)
        ensures
            r@ == spec_method_text(self@),
    {
        let mut out: Vec<char> = Vec::new();
        push_str_chars(&mut out, "{\"type\":");
        push_json_string(&mut out, self.method_type.as_str());
        push_str_chars(&mut out, ",\"method\":");
        push_json_string(&mut out, self.method.as_str());
        push_str_chars(&mut out, ",\"arguments\":[");
        let ghost opened = out@;
        let n = self.arguments.len();
        let mut i: usize = 0;
        while i < n
            invariant
                i <= n,
                n == self.arguments@.len(),
                out@ == opened + spec_args_text(self@.arguments.subrange(0, i as int)),
            decreases n - i,
        {
            if i > 0 {
                out.push(',');
            }
            let text = value_to_string(&self.arguments[i]);
            push_str_chars(&mut out, text.as_str());
            proof {
                let vs = self@.arguments;
                assert(vs.subrange(0, i as int + 1).drop_last() =~= vs.subrange(0, i as int));
                assert(vs.subrange(0, i as int + 1).last() == vs[i as int]);
                assert(out@ =~= opened + spec_args_text(vs.subrange(0, i as int + 1)));
            }
            i = i + 1;
        }
        push_str_chars(&mut out, "],\"id\":");
        push_dec_text(&mut out, self.id);
        push_str_chars(&mut out, "}");
        proof {
            assert(self@.arguments.subrange(0, n as int) =~= self@.arguments);
            assert(out@ =~= spec_method_text(self@));
        }
        chars_to_string(out)
    }
}

/// Model of a [`Reply`].
pub struct SpecReply {
    pub reply_type: Seq<char>,
    pub id: u64,
    pub data: Option<SpecJson>,
    pub error: Option<Seq<char>>,
}

/// A Reply to a method call.
///
/// These are sent from the chat server to the client as a response to the
/// client sending a method.
#[derive(Debug)]
pub struct Reply {
    /// Which method type this reply is for
    pub reply_type: String,
    /// The id of the method this reply is for
    pub id: u64,
    /// Method call result
    pub data: Option<serde_json::Value>,
    /// Method error
    pub error: Option<String>,
}

impl View for Reply {
    type V = SpecReply;

    open spec fn view(&self) -> SpecReply {
        SpecReply {
            reply_type: self.reply_type@,
            id: self.id,
            data: match self.data {
                Some(v) => Some(value_model(v)),
                None => None,
            },
            error: match self.error {
                Some(e) => Some(e@),
                None => None,
            },
        }
    }
}

/// The reply an inbound JSON document decodes to, if any: the document must
/// be an object whose `type` field holds a string and whose `id` field holds
/// an unsigned integer; `data` must be an object, `null` or absent; `error`
/// must hold a string, `null`, or be absent. Extra fields are ignored.
pub open spec fn spec_reply_of(j: SpecJson) -> Option<SpecReply> {
    match j {
        SpecJson::Obj(m) => {
            if spec_str_field(m, "type"@) is Some && spec_u64_field(m, "id"@) is Some && (
            !m.contains_key("data"@) || m["data"@] is Null || m["data"@] is Obj) && (
            !m.contains_key("error"@) || m["error"@] is Null || m["error"@] is Str) {
                Some(
                    SpecReply {
                        reply_type: spec_str_field(m, "type"@)->Some_0,
                        id: spec_u64_field(m, "id"@)->Some_0,
                        data: if m.contains_key("data"@) && m["data"@] is Obj {
                            Some(m["data"@])
                        } else {
                            None
                        },
                        error: if m.contains_key("error"@) && m["error"@] is Str {
                            Some(m["error"@]->Str_0)
                        } else {
                            None
                        },
                    },
                )
            } else {
                None
            }
        },
        _ => None,
    }
}

/// The text [`Reply::to_json_text`] prints: the four fields in declaration
/// order, an absent data or error written as `null`.
pub open spec fn spec_reply_text(r: SpecReply) -> Seq<char> {
    "{\"type\":"@ + spec_quoted(spec_escape(r.reply_type)) + ",\"id\":"@ + spec_dec_text(
        r.id as int,
    ) + ",\"data\":"@ + (match r.data {
        Some(j) => json_text_of(j),
        None => "null"@,
    }) + ",\"error\":"@ + (match r.error {
        Some(e) => spec_quoted(spec_escape(e)),
        None => "null"@,
    }) + "}"@
}

impl Reply {
    /// Decode a reply from a JSON document, exactly as [`spec_reply_of`]
    /// says.
    pub fn try_from(v: &serde_json::Value) -> (r: Result<Reply, &'static str>)
        ensures
            match spec_reply_of(value_model(*v)) {
                Some(rep) => r matches Ok(x) && x@ == rep,
                None => r is Err,
            },
    {
        let reply_type: String = match value_get(v, "type") {
            Some(tv) => match value_as_str(tv) {
                Some(s) => s.to_owned(),
                None => {
                    return Err("Could not load from JSON");
                },
            },
            None => {
                return Err("Could not load from JSON");
            },
        };
        let id: u64 = match value_get(v, "id") {
            Some(iv) => match value_as_u64(iv) {
                Some(n) => n,
                None => {
                    return Err("Could not load from JSON");
                },
            },
            None => {
                return Err("Could not load from JSON");
            },
        };
        let data: Option<serde_json::Value> = match value_get(v, "data") {
            Some(dv) => if value_is_null(dv) {
                None
            } else if value_is_object(dv) {
                Some(value_clone(dv))
            } else {
                return Err("Could not load from JSON");
            },
            None => None,
        };
        let error: Option<String> = match value_get(v, "error") {
            Some(ev) => if value_is_null(ev) {
                None
            } else {
                match value_as_str(ev) {
                    Some(s) => Some(s.to_owned()),
                    None => {
                        return Err("Could not load from JSON");
                    },
                }
            },
            None => None,
        };
        Ok(Reply { reply_type, id, data, error })
    }

    /// Print the reply as JSON text, exactly as [`spec_reply_text`] says.
    pub fn to_json_text(&self) -> (r: String)
        ensures
            r@ == spec_reply_text(self@),
    {
        let mut out: Vec<char> = Vec::new();
        push_str_chars(&mut out, "{\"type\":");
        push_json_string(&mut out, self.reply_type.as_str());
        push_str_chars(&mut out, ",\"id\":");
        push_dec_text(&mut out, self.id);
        push_str_chars(&mut out, ",\"data\":");
        match &self.data {
            Some(v) => {
                let text = value_to_string(v);
                push_str_chars(&mut out, text.as_str());
            },
            None => {
                push_str_chars(&mut out, "null");
            },
        }
        push_str_chars(&mut out, ",\"error\":");
        match &self.error {
            Some(e) => {
                push_json_string(&mut out, e.as_str());
            },
            None => {
                push_str_chars(&mut out, "null");
            },
        }
        push_str_chars(&mut out, "}");
        proof {
            assert(out@ =~= spec_reply_text(self@));
        }
        chars_to_string(out)
    }
}

} // verus!
