//! The state a socket client keeps on this side of the connection: the
//! connection flag fed by the background transport thread through a channel,
//! and the counter that hands out method ids.
//!
//! The transport itself (the WebSocket handshake, its event loop and its
//! background thread) lives outside the library; it reports status changes
//! by sending booleans through the channel a client is built over, and it is
//! handed the frames the client decides to send.

use vstd::prelude::*;

verus! {

/// Declares `std::sync::mpsc::Receiver`, the channel end the transport
/// reports connection status on.
#[verifier::external_type_specification]
#[verifier::external_body]
#[verifier::reject_recursive_types(T)]
pub struct ExReceiver<T>(std::sync::mpsc::Receiver<T>);

/// Relies on `std::sync::mpsc::Receiver::try_recv`: it returns a waiting
/// value without blocking, or nothing when the channel is empty or closed.
/// Which value arrives depends on the sending thread, so nothing more is
/// promised.
#[verifier::external_body]
fn try_recv_status(r: &std::sync::mpsc::Receiver<bool>) -> (v: Option<bool>) {
    r.try_recv().ok()
}

/// Model of a [`ParseError`].
pub enum SpecParseError {
    /// The text was not valid JSON.
    InvalidJson,
    /// The document has no `type` field holding a string.
    MissingType,
    /// The `type` field holds a string that names no known message shape.
    UnknownType(Seq<char>),
    /// The `type` field was recognized but the rest of the document does
    /// not have that shape.
    InvalidShape,
}

/// Why an inbound frame could not be parsed.
#[derive(Debug)]
pub enum ParseError {
    /// The text was not valid JSON.
    InvalidJson,
    /// The document has no `type` field holding a string.
    MissingType,
    /// The `type` field holds a string that names no known message shape;
    /// the string is carried along.
    UnknownType(String),
    /// The `type` field was recognized but the rest of the document does
    /// not have that shape.
    InvalidShape,
}

impl View for ParseError {
    type V = SpecParseError;

    open spec fn view(&self) -> SpecParseError {
        match self {
            ParseError::InvalidJson => SpecParseError::InvalidJson,
            ParseError::MissingType => SpecParseError::MissingType,
            ParseError::UnknownType(t) => SpecParseError::UnknownType(t@),
            ParseError::InvalidShape => SpecParseError::InvalidShape,
        }
    }
}

/// Error for trying to send over a socket whose connection is not up.
#[derive(Debug, PartialEq, Eq, Structural, Clone, Copy)]
pub struct NotConnectedError;

/// Client-side state of one socket connection.
pub struct ClientSocketWrapper {
    connection_receiver: std::sync::mpsc::Receiver<bool>,
    is_connected: bool,
    method_counter: u64,
    issued: Ghost<Seq<u64>>,
}

impl ClientSocketWrapper {
    /// Whether the client believes the connection is up, as of the last
    /// status it saw.
    pub closed spec fn connected(&self) -> bool {
        self.is_connected
    }

    /// How many method ids the client has issued so far; the next id.
    pub closed spec fn next_method_id(&self) -> u64 {
        self.method_counter
    }

    /// The method ids issued so far, oldest first.
    pub closed spec fn issued_ids(&self) -> Seq<u64> {
        self.issued@
    }

    /// Well-formed client state: the ids issued so far are exactly
    /// `0, 1, ..., next_method_id - 1`, in that order.
    pub open spec fn wf(&self) -> bool {
        &&& self.issued_ids().len() == self.next_method_id()
        &&& forall|i: int|
            0 <= i < self.issued_ids().len() ==> #[trigger] self.issued_ids()[i] == i
    }

    /// Create the client-side state over the channel the transport reports
    /// connection status on. The connection starts out down and no method
    /// id has been issued.
    pub fn new(connection_receiver: std::sync::mpsc::Receiver<bool>) -> (r: ClientSocketWrapper)
        ensures
            !r.connected(),
            r.next_method_id() == 0,
            r.issued_ids() == Seq::<u64>::empty(),
            r.wf(),
    {
        ClientSocketWrapper {
            connection_receiver,
            is_connected: false,
            method_counter: 0,
            issued: Ghost(Seq::empty()),
        }
    }


    /// The number of method ids issued so far; the next id to be issued.
    pub fn method_count(&self) -> (n: u64)
        ensures
            n == self.next_method_id(),
    {
        self.method_counter
    }

    /// Check whether new connection status has come from the underlying
    /// transport: takes the latest waiting status if there is one, and
    /// reports the connection state the client now believes.
    pub fn check_connection(&mut self) -> (connected: bool)
        ensures
            connected == final(self).connected(),
            final(self).next_method_id() == old(self).next_method_id(),
            final(self).issued_ids() == old(self).issued_ids(),
    {
        match try_recv_status(&self.connection_receiver) {
            Some(v) => {
                self.is_connected = v;
                self.is_connected
            },
            None => self.is_connected,
        }
    }

    /// Issue the next method id: ids are handed out consecutively starting
    /// at zero, so each is strictly greater than every id issued before it.
    pub fn issue_method_id(&mut self) -> (id: u64)
        requires
            old(self).next_method_id() < u64::MAX,
        ensures
            id == old(self).next_method_id(),
            final(self).next_method_id() == old(self).next_method_id() + 1,
            final(self).issued_ids() == old(self).issued_ids().push(id),
            final(self).connected() == old(self).connected(),
            old(self).wf() ==> final(self).wf(),
    {
        let id = self.method_counter;
        self.method_counter = self.method_counter + 1;
        proof {
            self.issued@ = self.issued@.push(id);
        }
        id
    }

    /// Decide whether a raw message may go out: poll the connection status
    /// first, and hand the message back for the transport exactly when the
    /// connection is up; report the not-connected error otherwise, without
    /// touching the transport.
    pub fn send_raw_message<'a>(&mut self, message: &'a str) -> (r: Result<
        &'a str,
        NotConnectedError,
    >)
        ensures
            r matches Ok(m) ==> final(self).connected() && m@ == message@,
            r is Err <==> !final(self).connected(),
            final(self).next_method_id() == old(self).next_method_id(),
            final(self).issued_ids() == old(self).issued_ids(),
    {
        if !self.check_connection() {
            return Err(NotConnectedError);
        }
        Ok(message)
    }
}

/// The method ids a well-formed client has issued are strictly increasing,
/// starting at zero.
pub proof fn lemma_issued_ids_strictly_increase(c: &ClientSocketWrapper)
    requires
        c.wf(),
    ensures
        c.issued_ids().len() > 0 ==> c.issued_ids()[0] == 0,
        forall|i: int, j: int|
            0 <= i < j < c.issued_ids().len() ==> #[trigger] c.issued_ids()[i]
                < #[trigger] c.issued_ids()[j],
{
}

} // verus!
