//! Wrapper for the platform's real-time pub/sub event service ("Constellation"),
//! reached over WebSocket.
//!
//! The library decides what goes over the wire and how inbound frames are
//! read; the WebSocket transport itself runs outside the library and talks
//! to a client through the channels described in [`crate::internal`].

/// Static models for the JSON data
pub mod models;

/// Close-code descriptions
pub mod errors;

use crate::internal::{ClientSocketWrapper, NotConnectedError, ParseError, SpecParseError};
use crate::json::{json_from_str, json_model, spec_type_field, value_as_str, value_from_array,
    value_from_str, value_get, value_model, SpecJson};
use crate::text::{spec_dec_text, str_eq};
use models::{Event, Method, Reply, SpecEvent, SpecMethod, SpecReply};
use vstd::prelude::*;

verus! {

/// Model of a [`StreamMessage`].
pub enum SpecStreamMessage {
    Event(SpecEvent),
    Reply(SpecReply),
}

/// Possible messages from the socket.
#[derive(Debug)]
pub enum StreamMessage {
    /// Event types
    Event(Event),
    /// Reply types
    Reply(Reply),
}

impl View for StreamMessage {
    type V = SpecStreamMessage;

    open spec fn view(&self) -> SpecStreamMessage {
        match self {
            StreamMessage::Event(e) => SpecStreamMessage::Event(e@),
            StreamMessage::Reply(r) => SpecStreamMessage::Reply(r@),
        }
    }
}

/// What parsing an inbound frame yields: a decoding error for text that is
/// not JSON, a missing-type error for a document without a string `type`
/// field, the decoded [`Event`] or [`Reply`] when the `type` field says
/// `event` or `reply` and the document has that shape, a shape error when
/// it does not, and an unknown-type error for every other `type`.
pub open spec fn spec_parse_message(s: Seq<char>) -> Result<SpecStreamMessage, SpecParseError> {
    match json_model(s) {
        None => Err(SpecParseError::InvalidJson),
        Some(j) => match spec_type_field(j) {
            None => Err(SpecParseError::MissingType),
            Some(t) => if t == "event"@ {
                match models::spec_event_of(j) {
                    Some(e) => Ok(SpecStreamMessage::Event(e)),
                    None => Err(SpecParseError::InvalidShape),
                }
            } else if t == "reply"@ {
                match models::spec_reply_of(j) {
                    Some(r) => Ok(SpecStreamMessage::Reply(r)),
                    None => Err(SpecParseError::InvalidShape),
                }
            } else {
                Err(SpecParseError::UnknownType(t))
            },
        },
    }
}

/// The model of a parameter list: each pair's name and the document its
/// value holds.
pub open spec fn spec_params_view(ps: Seq<(String, serde_json::Value)>) -> Seq<
    (Seq<char>, SpecJson),
> {
    Seq::new(ps.len(), |i: int| (ps[i].0@, value_model(ps[i].1)))
}

/// Wrapper for connecting and interacting with the real-time event service.
pub struct ConstellationClient {
    client: ClientSocketWrapper,
}

impl ConstellationClient {
    /// Whether the client believes the connection is up.
    pub closed spec fn connected(&self) -> bool {
        self.client.connected()
    }

    /// The next method id this client will issue.
    pub closed spec fn next_method_id(&self) -> u64 {
        self.client.next_method_id()
    }

    /// The method ids issued so far, oldest first.
    pub closed spec fn issued_ids(&self) -> Seq<u64> {
        self.client.issued_ids()
    }

    /// Well-formed client state: see [`ClientSocketWrapper::wf`].
    pub closed spec fn wf(&self) -> bool {
        self.client.wf()
    }

    /// Build a client over the channel the transport reports connection
    /// status on.
    pub fn new(connection_receiver: std::sync::mpsc::Receiver<bool>) -> (r: ConstellationClient)
        ensures
            !r.connected(),
            r.next_method_id() == 0,
            r.issued_ids() == Seq::<u64>::empty(),
            r.wf(),
    {
        ConstellationClient { client: ClientSocketWrapper::new(connection_receiver) }
    }


    /// The number of method ids issued so far; the next id to be issued.
    pub fn method_count(&self) -> (n: u64)
        ensures
            n == self.next_method_id(),
    {
        self.client.method_count()
    }

    /// Check whether new connection status has come from the underlying
    /// transport.
    pub fn check_connection(&mut self) -> (connected: bool)
        ensures
            connected == final(self).connected(),
            final(self).next_method_id() == old(self).next_method_id(),
            final(self).issued_ids() == old(self).issued_ids(),
    {
        self.client.check_connection()
    }

    /// Decide whether a raw message may go to the socket: hand it back for
    /// the transport exactly when the connection is up.
    pub fn send_raw_message<'a>(&mut self, message: &'a str) -> (r: Result<
        &'a str,
        NotConnectedError,
    >)
        ensures
            r matches Ok(m) ==> final(self).connected() && m@ == message@,
            r is Err <==> !final(self).connected(),
            final(self).next_method_id() == old(self).next_method_id(),
            final(self).issued_ids() == old(self).issued_ids(),
    {
        self.client.send_raw_message(message)
    }

    /// Create a new method to send to the socket, taking the next unique id.
    pub fn create_method(&mut self, method: &str, params: Vec<(String, serde_json::Value)>) -> (m:
        Method)
        requires
            old(self).next_method_id() < u64::MAX,
        ensures
            m@ == (SpecMethod {
                method_type: "method"@,
                method: method@,
                params: spec_params_view(params@),
                id: old(self).next_method_id(),
            }),
            final(self).next_method_id() == old(self).next_method_id() + 1,
            final(self).issued_ids() == old(self).issued_ids().push(m@.id),
            final(self).connected() == old(self).connected(),
            old(self).wf() ==> final(self).wf(),
    {
        let id = self.client.issue_method_id();
        let m = Method {
            method_type: "method".to_owned(),
            method: method.to_owned(),
            params,
            id,
        };
        proof {
            assert(m@.params =~= spec_params_view(params@));
        }
        m
    }

    /// Call a method: when the connection is up, take the next method id and
    /// produce the JSON frame to send over the socket; report the
    /// not-connected error otherwise, consuming no id.
    pub fn call_method(&mut self, method: &str, params: Vec<(String, serde_json::Value)>) -> (r:
        Result<String, NotConnectedError>)
        requires
            old(self).next_method_id() < u64::MAX,
        ensures
            r is Err <==> !final(self).connected(),
            r matches Ok(text) ==> {
                &&& text@ == models::spec_method_text(
                    SpecMethod {
                        method_type: "method"@,
                        method: method@,
                        params: spec_params_view(params@),
                        id: old(self).next_method_id(),
                    },
                )
                &&& final(self).next_method_id() == old(self).next_method_id() + 1
                &&& final(self).issued_ids() == old(self).issued_ids().push(
                    old(self).next_method_id(),
                )
            },
            r is Err ==> final(self).next_method_id() == old(self).next_method_id()
                && final(self).issued_ids() == old(self).issued_ids(),
            old(self).wf() ==> final(self).wf(),
    {
        if !self.client.check_connection() {
            return Err(NotConnectedError);
        }
        let m = self.create_method(method, params);
        Ok(m.to_json_text())
    }

    /// Subscribe to events: produce the `livesubscribe` frame naming them.
    pub fn subscribe(&mut self, events: &[&str]) -> (r: Result<String, NotConnectedError>)
        requires
            old(self).next_method_id() < u64::MAX,
        ensures
            r is Err <==> !final(self).connected(),
            r matches Ok(text) ==> text@ == models::spec_method_text(
                SpecMethod {
                    method_type: "method"@,
                    method: "livesubscribe"@,
                    params: seq![
                        (
                            "events"@,
                            SpecJson::Arr(
                                Seq::new(events@.len(), |i: int| SpecJson::Str(events@[i]@)),
                            ),
                        ),
                    ],
                    id: old(self).next_method_id(),
                },
            ),
            r is Ok ==> final(self).next_method_id() == old(self).next_method_id() + 1
                && final(self).issued_ids() == old(self).issued_ids().push(
                old(self).next_method_id(),
            ),
            r is Err ==> final(self).next_method_id() == old(self).next_method_id()
                && final(self).issued_ids() == old(self).issued_ids(),
            old(self).wf() ==> final(self).wf(),
    {
        let params = Self::events_params(events);
        self.call_method("livesubscribe", params)
    }

    /// Unsubscribe from events: produce the `liveunsubscribe` frame naming
    /// them.
    pub fn unsubscribe(&mut self, events: &[&str]) -> (r: Result<String, NotConnectedError>)
        requires
            old(self).next_method_id() < u64::MAX,
        ensures
            r is Err <==> !final(self).connected(),
            r matches Ok(text) ==> text@ == models::spec_method_text(
                SpecMethod {
                    method_type: "method"@,
                    method: "liveunsubscribe"@,
                    params: seq![
                        (
                            "events"@,
                            SpecJson::Arr(
                                Seq::new(events@.len(), |i: int| SpecJson::Str(events@[i]@)),
                            ),
                        ),
                    ],
                    id: old(self).next_method_id(),
                },
            ),
            r is Ok ==> final(self).next_method_id() == old(self).next_method_id() + 1
                && final(self).issued_ids() == old(self).issued_ids().push(
                old(self).next_method_id(),
            ),
            r is Err ==> final(self).next_method_id() == old(self).next_method_id()
                && final(self).issued_ids() == old(self).issued_ids(),
            old(self).wf() ==> final(self).wf(),
    {
        let params = Self::events_params(events);
        self.call_method("liveunsubscribe", params)
    }

    /// Build the one-field parameter list `{"events": [...]}` both
    /// subscription methods take.
    fn events_params(events: &[&str]) -> (ps: Vec<(String, serde_json::Value)>)
        ensures
            spec_params_view(ps@) =~= seq![
                (
                    "events"@,
                    SpecJson::Arr(Seq::new(events@.len(), |i: int| SpecJson::Str(events@[i]@))),
                ),
            ],
    {
        let n = events.len();
        let mut arr: Vec<serde_json::Value> = Vec::new();
        let mut i: usize = 0;
        while i < n
            invariant
                i <= n,
                n == events@.len(),
                arr@.len() == i,
                forall|k: int|
                    0 <= k < i ==> value_model(#[trigger] arr@[k]) == SpecJson::Str(events@[k]@),
            decreases n - i,
        {
            let v = value_from_str(events[i]);
            arr.push(v);
            i = i + 1;
        }
        let list = value_from_array(arr);
        proof {
            assert(value_model(list)->Arr_0 =~= Seq::new(
                events@.len(),
                |k: int| SpecJson::Str(events@[k]@),
            ));
        }
        let mut ps: Vec<(String, serde_json::Value)> = Vec::new();
        ps.push(("events".to_owned(), list));
        ps
    }

    /// Helper method to parse the JSON messages from the receiver into
    /// structs, exactly as [`spec_parse_message`] says.
    pub fn parse(message: &str) -> (r: Result<StreamMessage, ParseError>)
        ensures
            match r {
                Ok(m) => spec_parse_message(message@) == Ok::<
                    SpecStreamMessage,
                    SpecParseError,
                >(m@),
                Err(e) => spec_parse_message(message@) == Err::<
                    SpecStreamMessage,
                    SpecParseError,
                >(e@),
            },
    {
        let v = match json_from_str(message) {
            Some(v) => v,
            None => {
                return Err(ParseError::InvalidJson);
            },
        };
        let type_str: String = match value_get(&v, "type") {
            Some(tv) => match value_as_str(tv) {
                Some(s) => s.to_owned(),
                None => {
                    return Err(ParseError::MissingType);
                },
            },
            None => {
                return Err(ParseError::MissingType);
            },
        };
        if str_eq(type_str.as_str(), "event") {
            match Event::try_from(&v) {
                Ok(e) => Ok(StreamMessage::Event(e)),
                Err(_) => Err(ParseError::InvalidShape),
            }
        } else if str_eq(type_str.as_str(), "reply") {
            match Reply::try_from(&v) {
                Ok(rp) => Ok(StreamMessage::Reply(rp)),
                Err(_) => Err(ParseError::InvalidShape),
            }
        } else {
            Err(ParseError::UnknownType(type_str))
        }
    }
}

/// Law: a frame whose document is an object with a string `type` field
/// holding `event` and a string `event` field parses to an event whose
/// `event` matches the field and whose data is the `data` field, absent
/// when that field is missing or `null`.
pub proof fn lemma_parse_valid_event(s: Seq<char>, m: Map<Seq<char>, SpecJson>)
    requires
        json_model(s) == Some(SpecJson::Obj(m)),
        crate::json::spec_str_field(m, "type"@) == Some("event"@),
        crate::json::spec_str_field(m, "event"@) is Some,
    ensures
        spec_parse_message(s) matches Ok(SpecStreamMessage::Event(e)) && {
            &&& e.event_type == "event"@
            &&& e.event == crate::json::spec_str_field(m, "event"@)->Some_0
            &&& e.data == (if m.contains_key("data"@) && !(m["data"@] is Null) {
                Some(m["data"@])
            } else {
                None
            })
        },
{
}

/// Law: a frame whose document is an object with a string `type` field
/// holding `reply`, an `id` field holding the decimal text of `n`, and
/// valid `result` and `error` fields parses to a reply whose id is exactly
/// `n`; its error record is absent when the `error` field is missing or
/// `null`, and is the decoded record when it is present.
pub proof fn lemma_parse_reply_id_round_trip(s: Seq<char>, m: Map<Seq<char>, SpecJson>, n: u64)
    requires
        json_model(s) == Some(SpecJson::Obj(m)),
        crate::json::spec_str_field(m, "type"@) == Some("reply"@),
        m.contains_key("id"@) && m["id"@] == SpecJson::Num(spec_dec_text(n as int)),
        !m.contains_key("result"@) || m["result"@] is Null || m["result"@] is Obj,
        !m.contains_key("error"@) || m["error"@] is Null || models::spec_mixer_error_of(
            m["error"@],
        ) is Some,
    ensures
        spec_parse_message(s) matches Ok(SpecStreamMessage::Reply(r)) && {
            &&& r.id == n
            &&& ((!m.contains_key("error"@) || m["error"@] is Null) ==> r.error is None)
            &&& ((m.contains_key("error"@) && !(m["error"@] is Null)) ==> r.error
                == models::spec_mixer_error_of(m["error"@]))
        },
{
    reveal_strlit("event");
    reveal_strlit("reply");
    assert(crate::json::spec_u64_field(m, "id"@) is Some) by {
        assert(m["id"@]->Num_0 == spec_dec_text(n as int));
    }
    let n0 = crate::json::spec_u64_field(m, "id"@)->Some_0;
    assert(m["id"@]->Num_0 == spec_dec_text(n0 as int));
    crate::text::lemma_dec_text_injective(n0 as int, n as int);
    assert("reply"@[0] == 'r' && "event"@[0] == 'e');
    assert("reply"@ != "event"@);
}

/// Law: a frame whose document has no string `type` field fails with the
/// missing-type error, and one whose string `type` field names neither
/// known message shape fails with the unknown-type error carrying that
/// string.
pub proof fn lemma_parse_bad_type(s: Seq<char>)
    requires
        json_model(s) is Some,
    ensures
        spec_type_field(json_model(s)->Some_0) is None ==> spec_parse_message(s) == Err::<
            SpecStreamMessage,
            SpecParseError,
        >(SpecParseError::MissingType),
        (spec_type_field(json_model(s)->Some_0) matches Some(t) && t != "event"@ && t != "reply"@)
            ==> spec_parse_message(s) == Err::<SpecStreamMessage, SpecParseError>(
            SpecParseError::UnknownType(spec_type_field(json_model(s)->Some_0)->Some_0),
        ),
{
}

/// Law: the method ids a fresh, well-formed client has issued are strictly
/// increasing, starting at zero.
pub proof fn lemma_method_ids_strictly_increase(c: &ConstellationClient)
    requires
        c.wf(),
    ensures
        c.issued_ids().len() > 0 ==> c.issued_ids()[0] == 0,
        forall|i: int, j: int|
            0 <= i < j < c.issued_ids().len() ==> #[trigger] c.issued_ids()[i]
                < #[trigger] c.issued_ids()[j],
{
    crate::internal::lemma_issued_ids_strictly_increase(&c.client);
}

} // verus!
