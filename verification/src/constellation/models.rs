//! Static models for the JSON data of the real-time event service.

use crate::json::{
    json_text_of, spec_str_field, spec_u64_field, value_as_str, value_as_u64, value_clone,
    value_get, value_is_null, value_is_object, value_model, value_to_string, SpecJson,
};
use crate::text::{push_dec_text, push_json_string, push_str_chars, spec_dec_text, spec_escape, spec_quoted};
use crate::text::chars_to_string;
use vstd::prelude::*;

verus! {

/// Model of an [`Event`].
pub struct SpecEvent {
    pub event_type: Seq<char>,
    pub event: Seq<char>,
    pub data: Option<SpecJson>,
}

/// An Event coming in from the socket.
///
/// These are sent from the real-time service when connecting, receiving a
/// live event, etc.
#[derive(Debug)]
pub struct Event {
    /// Always 'event'
    pub event_type: String,
    /// Which event
    pub event: String,
    /// Data associated with the event. Note that this is, per the service's
    /// documentation, completely unstructured; it depends on which kind of
    /// event was received.
    pub data: Option<serde_json::Value>,
}

impl View for Event {
    type V = SpecEvent;

    open spec fn view(&self) -> SpecEvent {
        SpecEvent {
            event_type: self.event_type@,
            event: self.event@,
            data: match self.data {
                Some(v) => Some(value_model(v)),
                None => None,
            },
        }
    }
}

/// The event an inbound JSON document decodes to, if any: the document must
/// be an object whose `type` and `event` fields hold strings; a missing or
/// `null` `data` field decodes to no data, any other `data` value is kept
/// as it is. Extra fields are ignored.
pub open spec fn spec_event_of(j: SpecJson) -> Option<SpecEvent> {
    match j {
        SpecJson::Obj(m) => {
            if spec_str_field(m, "type"@) is Some && spec_str_field(m, "event"@) is Some {
                Some(
                    SpecEvent {
                        event_type: spec_str_field(m, "type"@)->Some_0,
                        event: spec_str_field(m, "event"@)->Some_0,
                        data: if m.contains_key("data"@) && !(m["data"@] is Null) {
                            Some(m["data"@])
                        } else {
                            None
                        },
                    },
                )
            } else {
                None
            }
        },
        _ => None,
    }
}

/// The text [`Event::to_json_text`] prints: the three fields in declaration
/// order, strings escaped, absent data written as `null`.
pub open spec fn spec_event_text(e: SpecEvent) -> Seq<char> {
    "{\"type\":"@ + spec_quoted(spec_escape(e.event_type)) + ",\"event\":"@ + spec_quoted(
        spec_escape(e.event),
    ) + ",\"data\":"@ + (match e.data {
        Some(j) => json_text_of(j),
        None => "null"@,
    }) + "}"@
}

impl Event {
    /// Decode an event from a JSON document, exactly as [`spec_event_of`]
    /// says.
    pub fn try_from(v: &serde_json::Value) -> (r: Result<Event, &'static str>)
        ensures
            match spec_event_of(value_model(*v)) {
                Some(e) => r matches Ok(ev) && ev@ == e,
                None => r is Err,
            },
    {
        let event_type: String = match value_get(v, "type") {
            Some(tv) => match value_as_str(tv) {
                Some(s) => s.to_owned(),
                None => {
                    return Err("Could not load from JSON");
                },
            },
            None => {
                return Err("Could not load from JSON");
            },
        };
        let event: String = match value_get(v, "event") {
            Some(ev) => match value_as_str(ev) {
                Some(s) => s.to_owned(),
                None => {
                    return Err("Could not load from JSON");
                },
            },
            None => {
                return Err("Could not load from JSON");
            },
        };
        let data: Option<serde_json::Value> = match value_get(v, "data") {
            Some(dv) => if value_is_null(dv) {
                None
            } else {
                Some(value_clone(dv))
            },
            None => None,
        };
        Ok(Event { event_type, event, data })
    }

    /// Print the event as the JSON text the service expects, exactly as
    /// [`spec_event_text`] says.
    pub fn to_json_text(&self) -> (r: String)
        ensures
            r@ == spec_event_text(self@),
    {
        let mut out: Vec<char> = Vec::new();
        push_str_chars(&mut out, "{\"type\":");
        push_json_string(&mut out, self.event_type.as_str());
        push_str_chars(&mut out, ",\"event\":");
        push_json_string(&mut out, self.event.as_str());
        push_str_chars(&mut out, ",\"data\":");
        match &self.data {
            Some(v) => {
                let text = value_to_string(v);
                push_str_chars(&mut out, text.as_str());
            },
            None => {
                push_str_chars(&mut out, "null");
            },
        }
        push_str_chars(&mut out, "}");
        proof {
            assert(out@ =~= spec_event_text(self@));
        }
        chars_to_string(out)
    }
}

/// Model of a [`MixerError`].
pub struct SpecMixerError {
    pub id: u16,
    pub message: Seq<char>,
}

/// Error reported by the real-time service inside a reply.
#[derive(Debug, PartialEq)]
pub struct MixerError {
    /// Error's id
    pub id: u16,
    /// Error's message
    pub message: String,
}

impl View for MixerError {
    type V = SpecMixerError;

    open spec fn view(&self) -> SpecMixerError {
        SpecMixerError { id: self.id, message: self.message@ }
    }
}

/// The error record a JSON document decodes to, if any: an object whose
/// `id` field holds a number that fits a `u16` and whose `message` field
/// holds a string.
pub open spec fn spec_mixer_error_of(j: SpecJson) -> Option<SpecMixerError> {
    match j {
        SpecJson::Obj(m) => {
            if spec_u64_field(m, "id"@) matches Some(n) && n <= u16::MAX && spec_str_field(
                m,
                "message"@,
            ) is Some {
                Some(
                    SpecMixerError {
                        id: (spec_u64_field(m, "id"@)->Some_0) as u16,
                        message: spec_str_field(m, "message"@)->Some_0,
                    },
                )
            } else {
                None
            }
        },
        _ => None,
    }
}

/// The text a [`MixerError`] prints as: its two fields in declaration order.
pub open spec fn spec_mixer_error_text(e: SpecMixerError) -> Seq<char> {
    "{\"id\":"@ + spec_dec_text(e.id as int) + ",\"message\":"@ + spec_quoted(
        spec_escape(e.message),
    ) + "}"@
}

/// Model of a [`Reply`].
pub struct SpecReply {
    pub reply_type: Seq<char>,
    pub id: u64,
    pub result: Option<SpecJson>,
    pub error: Option<SpecMixerError>,
}

/// A Reply to a method call.
///
/// These are sent from the real-time service to the client as a response to
/// the client sending a method.
#[derive(Debug)]
pub struct Reply {
    /// Which method type this reply is for
    pub reply_type: String,
    /// The id of the method this reply is for
    pub id: u64,
    /// Method call result
    pub result: Option<serde_json::Value>,
    /// Method error
    pub error: Option<MixerError>,
}

impl View for Reply {
    type V = SpecReply;

    open spec fn view(&self) -> SpecReply {
        SpecReply {
            reply_type: self.reply_type@,
            id: self.id,
            result: match self.result {
                Some(v) => Some(value_model(v)),
                None => None,
            },
            error: match self.error {
                Some(e) => Some(e@),
                None => None,
            },
        }
    }
}

/// The reply an inbound JSON document decodes to, if any: the document must
/// be an object whose `type` field holds a string and whose `id` field holds
/// an unsigned integer; `result` must be an object, `null` or absent;
/// `error` must decode as [`spec_mixer_error_of`], or be `null` or absent.
/// Extra fields are ignored.
pub open spec fn spec_reply_of(j: SpecJson) -> Option<SpecReply> {
    match j {
        SpecJson::Obj(m) => {
            if spec_str_field(m, "type"@) is Some && spec_u64_field(m, "id"@) is Some
                && (!m.contains_key("result"@) || m["result"@] is Null || m["result"@] is Obj) && (
            !m.contains_key("error"@) || m["error"@] is Null || spec_mixer_error_of(
                m["error"@],
            ) is Some) {
                Some(
                    SpecReply {
                        reply_type: spec_str_field(m, "type"@)->Some_0,
                        id: spec_u64_field(m, "id"@)->Some_0,
                        result: if m.contains_key("result"@) && m["result"@] is Obj {
                            Some(m["result"@])
                        } else {
                            None
                        },
                        error: if m.contains_key("error"@) && !(m["error"@] is Null) {
                            spec_mixer_error_of(m["error"@])
                        } else {
                            None
                        },
                    },
                )
            } else {
                None
            }
        },
        _ => None,
    }
}

/// The text [`Reply::to_json_text`] prints: the four fields in declaration
/// order, an absent result or error written as `null`.
pub open spec fn spec_reply_text(r: SpecReply) -> Seq<char> {
    "{\"type\":"@ + spec_quoted(spec_escape(r.reply_type)) + ",\"id\":"@ + spec_dec_text(
        r.id as int,
    ) + ",\"result\":"@ + (match r.result {
        Some(j) => json_text_of(j),
        None => "null"@,
    }) + ",\"error\":"@ + (match r.error {
        Some(e) => spec_mixer_error_text(e),
        None => "null"@,
    }) + "}"@
}

/// Decode an error record, exactly as [`spec_mixer_error_of`] says.
fn mixer_error_try_from(v: &serde_json::Value) -> (r: Result<MixerError, &'static str>)
    ensures
        match spec_mixer_error_of(value_model(*v)) {
            Some(e) => r matches Ok(me) && me@ == e,
            None => r is Err,
        },
{
    let id: u64 = match value_get(v, "id") {
        Some(iv) => match value_as_u64(iv) {
            Some(n) => n,
            None => {
                return Err("Could not load from JSON");
            },
        },
        None => {
            return Err("Could not load from JSON");
        },
    };
    if id > 65535 {
        return Err("Could not load from JSON");
    }
    let message: String = match value_get(v, "message") {
        Some(mv) => match value_as_str(mv) {
            Some(s) => s.to_owned(),
            None => {
                return Err("Could not load from JSON");
            },
        },
        None => {
            return Err("Could not load from JSON");
        },
    };
    Ok(MixerError { id: id as u16, message })
}

impl Reply {
    /// Decode a reply from a JSON document, exactly as [`spec_reply_of`]
    /// says.
    pub fn try_from(v: &serde_json::Value) -> (r: Result<Reply, &'static str>)
        ensures
            match spec_reply_of(value_model(*v)) {
                Some(rep) => r matches Ok(x) && x@ == rep,
                None => r is Err,
            },
    {
        let reply_type: String = match value_get(v, "type") {
            Some(tv) => match value_as_str(tv) {
                Some(s) => s.to_owned(),
                None => {
                    return Err("Could not load from JSON");
                },
            },
            None => {
                return Err("Could not load from JSON");
            },
        };
        let id: u64 = match value_get(v, "id") {
            Some(iv) => match value_as_u64(iv) {
                Some(n) => n,
                None => {
                    return Err("Could not load from JSON");
                },
            },
            None => {
                return Err("Could not load from JSON");
            },
        };
        let result: Option<serde_json::Value> = match value_get(v, "result") {
            Some(rv) => if value_is_null(rv) {
                None
            } else if value_is_object(rv) {
                Some(value_clone(rv))
            } else {
                return Err("Could not load from JSON");
            },
            None => None,
        };
        let error: Option<MixerError> = match value_get(v, "error") {
            Some(ev) => if value_is_null(ev) {
                None
            } else {
                match mixer_error_try_from(ev) {
                    Ok(me) => Some(me),
                    Err(e) => {
                        return Err(e);
                    },
                }
            },
            None => None,
        };
        Ok(Reply { reply_type, id, result, error })
    }

    /// Print the reply as JSON text, exactly as [`spec_reply_text`] says.
    pub fn to_json_text(&self) -> (r: String)
        ensures
            r@ == spec_reply_text(self@),
    {
        let mut out: Vec<char> = Vec::new();
        push_str_chars(&mut out, "{\"type\":");
        push_json_string(&mut out, self.reply_type.as_str());
        push_str_chars(&mut out, ",\"id\":");
        push_dec_text(&mut out, self.id);
        push_str_chars(&mut out, ",\"result\":");
        match &self.result {
            Some(v) => {
                let text = value_to_string(v);
                push_str_chars(&mut out, text.as_str());
            },
            None => {
                push_str_chars(&mut out, "null");
            },
        }
        push_str_chars(&mut out, ",\"error\":");
        match &self.error {
            Some(e) => {
                push_str_chars(&mut out, "{\"id\":");
                push_dec_text(&mut out, e.id as u64);
                push_str_chars(&mut out, ",\"message\":");
                push_json_string(&mut out, e.message.as_str());
                push_str_chars(&mut out, "}");
            },
            None => {
                push_str_chars(&mut out, "null");
            },
        }
        push_str_chars(&mut out, "}");
        proof {
            assert(out@ =~= spec_reply_text(self@));
        }
        chars_to_string(out)
    }
}

/// Model of a [`Method`].
pub struct SpecMethod {
    pub method_type: Seq<char>,
    pub method: Seq<char>,
    pub params: Seq<(Seq<char>, SpecJson)>,
    pub id: u64,
}

/// A Method to send to the socket.
///
/// This is how clients send data _to_ the socket. The parameters are kept
/// as a list of field-name/value pairs and are printed in that order.
#[derive(Debug)]
pub struct Method {
    /// Always 'method'
    pub method_type: String,
    /// The method to call
    pub method: String,
    /// Method's parameters
    pub params: Vec<(String, serde_json::Value)>,
    /// Unique id for this method call
    pub id: u64,
}

impl View for Method {
    type V = SpecMethod;

    open spec fn view(&self) -> SpecMethod {
        SpecMethod {
            method_type: self.method_type@,
            method: self.method@,
            params: Seq::new(
                self.params@.len(),
                |i: int| (self.params@[i].0@, value_model(self.params@[i].1)),
            ),
            id: self.id,
        }
    }
}

/// The text of one printed parameter: the quoted, escaped name, a colon,
/// and the value's text.
pub open spec fn spec_param_text(p: (Seq<char>, SpecJson)) -> Seq<char> {
    spec_quoted(spec_escape(p.0)) + seq![':'] + json_text_of(p.1)
}

/// The text of a printed parameter list: the parameters in order, separated
/// by commas.
pub open spec fn spec_params_text(ps: Seq<(Seq<char>, SpecJson)>) -> Seq<char>
    decreases ps.len(),
{
    if ps.len() == 0 {
        Seq::empty()
    } else if ps.len() == 1 {
        spec_param_text(ps[0])
    } else {
        spec_params_text(ps.drop_last()) + seq![','] + spec_param_text(ps.last())
    }
}

/// The text [`Method::to_json_text`] prints: the four fields in declaration
/// order, the parameters as an object.
pub open spec fn spec_method_text(m: SpecMethod) -> Seq<char> {
    "{\"type\":"@ + spec_quoted(spec_escape(m.method_type)) + ",\"method\":"@ + spec_quoted(
        spec_escape(m.method),
    ) + ",\"params\":{"@ + spec_params_text(m.params) + "},\"id\":"@ + spec_dec_text(m.id as int)
        + "}"@
}

impl Method {
    /// Print the method as the JSON text the service expects, exactly as
    /// [`spec_method_text`] says.
    pub fn to_json_text(&self) -> (r: String)
        ensures
            r@ == spec_method_text(self@),
    {
        let mut out: Vec<char> = Vec::new();
        push_str_chars(&mut out, "{\"type\":");
        push_json_string(&mut out, self.method_type.as_str());
        push_str_chars(&mut out, ",\"method\":");
        push_json_string(&mut out, self.method.as_str());
        push_str_chars(&mut out, ",\"params\":{");
        let ghost opened = out@;
        let n = self.params.len();
        let mut i: usize = 0;
        while i < n
            invariant
                i <= n,
                n == self.params@.len(),
                out@ == opened + spec_params_text(self@.params.subrange(0, i as int)),
            decreases n - i,
        {
            if i > 0 {
                out.push(',');
            }
            push_json_string(&mut out, self.params[i].0.as_str());
            out.push(':');
            let text = value_to_string(&self.params[i].1);
            push_str_chars(&mut out, text.as_str());
            proof {
                let ps = self@.params;
                assert(ps.subrange(0, i as int + 1).drop_last() =~= ps.subrange(0, i as int));
                assert(ps.subrange(0, i as int + 1).last() == ps[i as int]);
                assert(out@ =~= opened + spec_params_text(ps.subrange(0, i as int + 1)));
            }
            i = i + 1;
        }
        push_str_chars(&mut out, "},\"id\":");
        push_dec_text(&mut out, self.id);
        push_str_chars(&mut out, "}");
        proof {
            assert(self@.params.subrange(0, n as int) =~= self@.params);
            assert(out@ =~= spec_method_text(self@));
        }
        chars_to_string(out)
    }
}

} // verus!
