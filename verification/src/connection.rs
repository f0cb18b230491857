//! One client connection of the command socket.
//!
//! The bytes of a connection are cut into lines, one message a line. Every
//! message is answered before the next is read, so answers leave in the order
//! in which the messages came. A message that cannot be read, or that is no
//! command, is answered with a failure like any other: only the end of the
//! stream closes a connection.

use crate::dispatch::{dispatch, spec_dispatch, spec_refuse, Command, Dispatch, DispatchView};
use crate::error::{McpError, McpErrorView, PayloadProblem, PayloadProblemView};
use crate::json::{Json, JsonView};
use crate::payload::{required_text, spec_required_text};
use crate::response::{ResponseView, SocketResponse};
use vstd::prelude::*;

verus! {

/// The byte that ends a message.
pub const LINE_END: u8 = 10;

/// The bytes of a connection that have been read and not yet cut into lines.
pub struct LineBuffer {
    bytes: Vec<u8>,
}

impl View for LineBuffer {
    type V = Seq<u8>;

    closed spec fn view(&self) -> Seq<u8> {
        self.bytes@
    }
}

/// The place of the first line end in `bytes`, if there is one.
pub open spec fn first_line_end(bytes: Seq<u8>, i: int) -> bool {
    &&& 0 <= i < bytes.len()
    &&& bytes[i] == LINE_END
    &&& forall|j: int| 0 <= j < i ==> bytes[j] != LINE_END
}

/// There is no line end in `bytes`.
pub open spec fn no_line_end(bytes: Seq<u8>) -> bool {
    forall|j: int| 0 <= j < bytes.len() ==> bytes[j] != LINE_END
}

impl LineBuffer {
    /// A buffer that holds nothing.
    pub fn new() -> (r: LineBuffer)
        ensures
            r@ == Seq::<u8>::empty(),
    {
        LineBuffer { bytes: Vec::new() }
    }

    /// Adds bytes that were read from the connection.
    pub fn push(&mut self, chunk: &[u8])
        ensures
            final(self)@ == old(self)@ + chunk@,
    {
        self.bytes.extend_from_slice(chunk);
    }

    /// The number of bytes that wait to be cut into lines.
    pub fn len(&self) -> (r: usize)
        ensures
            r == self@.len(),
    {
        self.bytes.len()
    }

    /// Takes the first complete line out of the buffer, without its line end.
    /// Where no line is complete yet the buffer stays as it is.
    pub fn next_line(&mut self) -> (r: Option<Vec<u8>>)
        ensures
            match r {
                Some(line) => {
                    &&& first_line_end(old(self)@, line@.len() as int)
                    &&& line@ == old(self)@.subrange(0, line@.len() as int)
                    &&& final(self)@ == old(self)@.subrange(
                        line@.len() as int + 1,
                        old(self)@.len() as int,
                    )
                },
                None => no_line_end(old(self)@) && final(self)@ == old(self)@,
            },
    {
        let mut i: usize = 0;
        while i < self.bytes.len()
            invariant
                i <= self.bytes.len(),
                self.bytes@ == old(self).bytes@,
                forall|j: int| 0 <= j < i ==> self.bytes@[j] != LINE_END,
            decreases self.bytes.len() - i,
        {
            if self.bytes[i] == LINE_END {
                let mut line = self.bytes.split_off(i + 1);
                std::mem::swap(&mut self.bytes, &mut line);
                line.pop();
                assert(line@ =~= old(self)@.subrange(0, i as int));
                return Some(line);
            }
            i += 1;
        }
        None
    }
}

/// Cutting a line off gives back the stream: the line, its end and what stays
/// in the buffer are the bytes that were there, in their order.
pub proof fn lemma_line_and_rest_are_the_stream(stream: Seq<u8>, i: int)
    requires
        first_line_end(stream, i),
    ensures
        stream == stream.subrange(0, i) + seq![LINE_END] + stream.subrange(
            i + 1,
            stream.len() as int,
        ),
{
    assert(stream =~= stream.subrange(0, i) + seq![LINE_END] + stream.subrange(
        i + 1,
        stream.len() as int,
    ));
}

/// One line of a connection, as far as it could be read.
#[derive(Debug, PartialEq, Eq)]
pub enum Incoming {
    /// The line is no JSON; the text says why.
    Unreadable(String),
    /// The line holds the JSON value `request`. `payload_text` is the payload
    /// of the request as JSON, as the parser writes it: `null` where the
    /// request has none.
    Message { request: Json, payload_text: String },
}

/// Mathematical form of an [`Incoming`].
pub enum IncomingView {
    Unreadable(Seq<char>),
    Message { request: JsonView, payload_text: Seq<char> },
}

impl View for Incoming {
    type V = IncomingView;

    open spec fn view(&self) -> IncomingView {
        match self {
            Incoming::Unreadable(m) => IncomingView::Unreadable(m@),
            Incoming::Message { request, payload_text } => IncomingView::Message {
                request: request@,
                payload_text: payload_text@,
            },
        }
    }
}

/// The name under which a failure to read a request is reported.
pub const REQUEST: &'static str = "request";

/// The failure of a request with the given problem.
pub open spec fn spec_bad_request(problem: PayloadProblemView) -> DispatchView {
    spec_refuse(McpErrorView::InvalidPayload { command: REQUEST@, problem })
}

/// What is to be done for one line of a connection.
///
/// A request is a JSON object with the name of the command under `name` and
/// its payload under `payload`; a request without payload has the payload
/// `null`.
pub open spec fn spec_receive(incoming: IncomingView) -> DispatchView {
    match incoming {
        IncomingView::Unreadable(m) => spec_bad_request(PayloadProblemView::NotJson(m)),
        IncomingView::Message { request, payload_text } => if !(request is Object) {
            spec_bad_request(PayloadProblemView::WrongShape)
        } else {
            match spec_required_text(request, "name"@) {
                Err(problem) => spec_bad_request(problem),
                Ok(name) => spec_dispatch(
                    name,
                    match request.field("payload"@) {
                        Some(p) => p,
                        None => JsonView::Null,
                    },
                    payload_text,
                ),
            }
        },
    }
}

/// The failure of a request with the given problem.
fn bad_request(problem: PayloadProblem) -> (r: Dispatch)
    ensures
        r@ == spec_bad_request(problem@),
        r matches Dispatch::Respond(response) && response@.well_formed(),
{
    Dispatch::Respond(SocketResponse::from_error(&McpError::invalid_payload(REQUEST, problem)))
}

/// Decides what is to be done for one line of a connection.
pub fn receive(incoming: &Incoming) -> (r: Dispatch)
    ensures
        r@ == spec_receive(incoming@),
        r matches Dispatch::Respond(response) ==> response@.well_formed(),
{
    match incoming {
        Incoming::Unreadable(m) => bad_request(PayloadProblem::NotJson(m.clone())),
        Incoming::Message { request, payload_text } => {
            if !request.is_object() {
                return bad_request(PayloadProblem::WrongShape);
            }
            match required_text(request, "name") {
                Err(problem) => bad_request(problem),
                Ok(name) => match request.get("payload") {
                    Some(p) => dispatch(name.as_str(), p, payload_text.as_str()),
                    None => dispatch(name.as_str(), &Json::Null, payload_text.as_str()),
                },
            }
        },
    }
}

/// Whether a connection still takes messages.
#[derive(Debug, Clone, Copy, PartialEq, Eq, Structural)]
pub enum ConnectionState {
    Open,
    Closed,
}

/// What happens on a connection.
#[derive(Debug, PartialEq, Eq)]
pub enum ConnectionEvent {
    /// A line was read.
    Line(Incoming),
    /// The stream has ended.
    EndOfStream,
}

/// Mathematical form of a [`ConnectionEvent`].
pub enum ConnectionEventView {
    Line(IncomingView),
    EndOfStream,
}

impl View for ConnectionEvent {
    type V = ConnectionEventView;

    open spec fn view(&self) -> ConnectionEventView {
        match self {
            ConnectionEvent::Line(m) => ConnectionEventView::Line(m@),
            ConnectionEvent::EndOfStream => ConnectionEventView::EndOfStream,
        }
    }
}

/// The next state of a connection and what is to be done for the event, if
/// anything. An open connection answers every line and stays open; the end of
/// the stream closes it; a closed connection does nothing.
pub open spec fn spec_connection_step(state: ConnectionState, event: ConnectionEventView) -> (
    ConnectionState,
    Option<DispatchView>,
) {
    match state {
        ConnectionState::Closed => (ConnectionState::Closed, None),
        ConnectionState::Open => match event {
            ConnectionEventView::Line(m) => (ConnectionState::Open, Some(spec_receive(m))),
            ConnectionEventView::EndOfStream => (ConnectionState::Closed, None),
        },
    }
}

/// Takes one step of a connection.
pub fn connection_step(state: ConnectionState, event: &ConnectionEvent) -> (r: (
    ConnectionState,
    Option<Dispatch>,
))
    ensures
        r.0 == spec_connection_step(state, event@).0,
        match r.1 {
            Some(step) => spec_connection_step(state, event@).1 == Some(step@),
            None => spec_connection_step(state, event@).1 is None,
        },
{
    match state {
        ConnectionState::Closed => (ConnectionState::Closed, None),
        ConnectionState::Open => match event {
            ConnectionEvent::Line(m) => (ConnectionState::Open, Some(receive(m))),
            ConnectionEvent::EndOfStream => (ConnectionState::Closed, None),
        },
    }
}

/// No message closes a connection, and what a message is answered with does
/// not depend on the messages before it: after any line, the next line is
/// answered as it would be on a fresh connection.
pub proof fn lemma_connection_survives_every_message(first: IncomingView, next: IncomingView)
    ensures
        spec_connection_step(ConnectionState::Open, ConnectionEventView::Line(first)).0
            == ConnectionState::Open,
        spec_connection_step(
            spec_connection_step(ConnectionState::Open, ConnectionEventView::Line(first)).0,
            ConnectionEventView::Line(next),
        ) == spec_connection_step(ConnectionState::Open, ConnectionEventView::Line(next)),
{
}

/// A line that is no JSON is answered with a failure, and the connection stays
/// open.
pub proof fn lemma_unreadable_line_is_answered(why: Seq<char>)
    ensures
        spec_connection_step(
            ConnectionState::Open,
            ConnectionEventView::Line(IncomingView::Unreadable(why)),
        ) == (
            ConnectionState::Open,
            Some(
                DispatchView::Respond(
                    ResponseView::fail(
                        McpErrorView::InvalidPayload {
                            command: REQUEST@,
                            problem: PayloadProblemView::NotJson(why),
                        }.message(),
                    ),
                ),
            ),
        ),
{
}

/// A request for a command that the server does not know is answered with the
/// failure `unknown command`, and the connection stays open.
pub proof fn lemma_unknown_command_is_answered(
    request: JsonView,
    payload_text: Seq<char>,
    name: Seq<char>,
)
    requires
        request is Object,
        spec_required_text(request, "name"@) == Ok::<Seq<char>, PayloadProblemView>(name),
        Command::spec_named(name) is None,
    ensures
        spec_connection_step(
            ConnectionState::Open,
            ConnectionEventView::Line(IncomingView::Message { request, payload_text }),
        ) == (
            ConnectionState::Open,
            Some(DispatchView::Respond(ResponseView::fail("unknown command"@))),
        ),
{
}

} // verus!
