//! Asking a window and waiting for its reply, step by step.
//!
//! A request is entered in the table of waiting requests, then the listener
//! for its reply is registered, and only then is the request sent: a reply
//! that comes at once finds its listener. The wait ends with the reply or at
//! the deadline, whichever comes first. However the request ends, it has left
//! the table by then, and its listener is to be taken away.

use crate::bridge::{
    begin, spec_begin, spec_wait_step, wait_step, PendingTable, TableView, WaitEnd, WaitEndView,
    WaitEvent, WaitEventView,
};
use crate::error::{McpError, McpErrorView};
use crate::json::{Json, JsonView};
use crate::response::{ResponseView, SocketResponse};
use crate::webview::{
    conclude, get_dom_text, spec_conclude, spec_get_dom_text, BridgeCommand, BridgeRequest,
    BridgeRequestView, GetDomError, GetDomErrorView, Reply, ReplyView,
};
use vstd::prelude::*;

verus! {

/// How far a request has come. From its entry in the table on, the request is
/// known by its ticket.
#[derive(Debug, Clone, Copy, PartialEq, Eq, Structural)]
pub enum AskState {
    /// Nothing has happened yet.
    Start,
    /// The listener for the reply is being registered.
    Listening(u64),
    /// The request is being sent.
    Sending(u64),
    /// The reply is waited for.
    Waiting(u64),
    /// The request has ended.
    Done,
}

/// What happened to a request.
#[derive(Debug, PartialEq, Eq)]
pub enum AskEvent {
    /// The request is to be made; `window_exists` says whether a window carries
    /// the label that the request names.
    Begin { window_exists: bool },
    /// The listener for the reply is registered.
    ListenerReady,
    /// The request was sent, or could not be, for the reason that the host
    /// gives.
    Sent(Result<(), String>),
    /// Something happened during the wait.
    Waited(WaitEvent),
}

/// Mathematical form of an [`AskEvent`].
pub enum AskEventView {
    Begin { window_exists: bool },
    ListenerReady,
    Sent(Result<(), Seq<char>>),
    Waited(WaitEventView),
}

impl View for AskEvent {
    type V = AskEventView;

    open spec fn view(&self) -> AskEventView {
        match self {
            AskEvent::Begin { window_exists } => AskEventView::Begin {
                window_exists: *window_exists,
            },
            AskEvent::ListenerReady => AskEventView::ListenerReady,
            AskEvent::Sent(r) => AskEventView::Sent(
                match r {
                    Ok(_) => Ok(()),
                    Err(why) => Err(why@),
                },
            ),
            AskEvent::Waited(e) => AskEventView::Waited(e@),
        }
    }
}

/// What is to be done next for a request.
#[derive(Debug, PartialEq, Eq)]
pub enum AskAction {
    /// Register a listener that fires once for the event of this name.
    Listen(String),
    /// Send the event `event` with `body` to the window `window_label`.
    Emit { window_label: String, event: String, body: Json },
    /// Wait for the reply event, and look at the clock meanwhile.
    Wait,
    /// The request has ended in `outcome`. Where `unlisten` is set, a listener
    /// was asked for and is to be taken away now.
    Finish { outcome: Result<Reply, McpError>, unlisten: bool },
}

/// Mathematical form of an [`AskAction`].
pub enum AskActionView {
    Listen(Seq<char>),
    Emit { window_label: Seq<char>, event: Seq<char>, body: JsonView },
    Wait,
    Finish { outcome: Result<ReplyView, McpErrorView>, unlisten: bool },
}

impl View for AskAction {
    type V = AskActionView;

    open spec fn view(&self) -> AskActionView {
        match self {
            AskAction::Listen(event) => AskActionView::Listen(event@),
            AskAction::Emit { window_label, event, body } => AskActionView::Emit {
                window_label: window_label@,
                event: event@,
                body: body@,
            },
            AskAction::Wait => AskActionView::Wait,
            AskAction::Finish { outcome, unlisten } => AskActionView::Finish {
                outcome: match outcome {
                    Ok(reply) => Ok(reply@),
                    Err(e) => Err(e@),
                },
                unlisten: *unlisten,
            },
        }
    }
}

/// What an event that comes for a request after its end is reported as.
pub open spec fn spec_already_ended() -> McpErrorView {
    McpErrorView::HostOperationFailed("the request had already ended"@)
}

/// What an event that a request does not wait for is reported as.
pub open spec fn spec_out_of_turn() -> McpErrorView {
    McpErrorView::HostOperationFailed("the request was told what it did not wait for"@)
}

/// The ticket that a request in `state` holds, if it has one yet.
pub open spec fn ticket_of(state: AskState) -> Option<int> {
    match state {
        AskState::Listening(ticket) => Some(ticket as int),
        AskState::Sending(ticket) => Some(ticket as int),
        AskState::Waiting(ticket) => Some(ticket as int),
        _ => None,
    }
}

/// The end of a request that is told what it does not wait for: it leaves the
/// table if it was entered, and fails. A request that has ended stays ended.
pub open spec fn spec_end_out_of_turn(
    t: TableView,
    request: BridgeRequestView,
    state: AskState,
) -> (TableView, AskState, AskActionView) {
    let key = request.command.spec_response_event();
    match ticket_of(state) {
        Some(ticket) => (
            t.resolve(key, ticket).0,
            AskState::Done,
            AskActionView::Finish { outcome: Err(spec_out_of_turn()), unlisten: true },
        ),
        None => (
            t,
            AskState::Done,
            AskActionView::Finish {
                outcome: Err(
                    if state is Done {
                        spec_already_ended()
                    } else {
                        spec_out_of_turn()
                    },
                ),
                unlisten: false,
            },
        ),
    }
}

/// The table, the state and what is to be done, for the request `request` in
/// `state` that is told `event` at time `now`.
///
/// The request is entered in the table first; a request that cannot be
/// entered ends at once, with nothing registered. Then the listener is asked
/// for, and the request is sent when the listener is there. A request that
/// cannot be sent leaves the table and ends with the host's word for it. After
/// that every event of the wait is applied to the table until one ends the
/// wait. An event that the request does not wait for ends it with a failure,
/// so that every step says what is to be done and no request is left hanging.
pub open spec fn spec_ask_step(
    t: TableView,
    request: BridgeRequestView,
    state: AskState,
    now: int,
    event: AskEventView,
) -> (TableView, AskState, AskActionView) {
    let command = request.command;
    let key = command.spec_response_event();
    match (state, event) {
        (AskState::Start, AskEventView::Begin { window_exists }) => {
            let (after, r) = spec_begin(t, request, window_exists, now);
            match r {
                Ok(ticket) => (
                    after,
                    AskState::Listening(ticket as u64),
                    AskActionView::Listen(key),
                ),
                Err(e) => (
                    after,
                    AskState::Done,
                    AskActionView::Finish { outcome: Err(e), unlisten: false },
                ),
            }
        },
        (AskState::Listening(ticket), AskEventView::ListenerReady) => (
            t,
            AskState::Sending(ticket),
            AskActionView::Emit {
                window_label: request.window_label,
                event: command.spec_request_event(),
                body: request.body,
            },
        ),
        (AskState::Sending(ticket), AskEventView::Sent(Ok(_))) => (
            t,
            AskState::Waiting(ticket),
            AskActionView::Wait,
        ),
        (AskState::Sending(ticket), AskEventView::Sent(Err(why))) => (
            t.resolve(key, ticket as int).0,
            AskState::Done,
            AskActionView::Finish { outcome: Ok(ReplyView::NotSent(why)), unlisten: true },
        ),
        (AskState::Waiting(ticket), AskEventView::Waited(e)) => {
            let (after, end) = spec_wait_step(t, command, ticket as int, now, e);
            match end {
                WaitEndView::KeepWaiting => (after, AskState::Waiting(ticket), AskActionView::Wait),
                WaitEndView::Ended(reply) => (
                    after,
                    AskState::Done,
                    AskActionView::Finish { outcome: Ok(reply), unlisten: true },
                ),
                WaitEndView::Stale => (
                    after,
                    AskState::Done,
                    AskActionView::Finish { outcome: Err(spec_already_ended()), unlisten: true },
                ),
            }
        },
        _ => spec_end_out_of_turn(t, request, state),
    }
}

/// Ends a request that is told what it does not wait for.
fn end_out_of_turn(table: &mut PendingTable, request: &BridgeRequest, state: AskState) -> (r: (
    AskState,
    AskAction,
))
    ensures
        (final(table)@, r.0, r.1@) == spec_end_out_of_turn(old(table)@, request@, state),
{
    let key = request.command.response_event();
    let held = match state {
        AskState::Listening(ticket) => Some(ticket),
        AskState::Sending(ticket) => Some(ticket),
        AskState::Waiting(ticket) => Some(ticket),
        _ => None,
    };
    match held {
        Some(ticket) => {
            table.resolve(key, ticket);
            (
                AskState::Done,
                AskAction::Finish {
                    outcome: Err(
                        McpError::HostOperationFailed(
                            "the request was told what it did not wait for".to_owned(),
                        ),
                    ),
                    unlisten: true,
                },
            )
        },
        None => {
            let words = match state {
                AskState::Done => "the request had already ended",
                _ => "the request was told what it did not wait for",
            };
            (
                AskState::Done,
                AskAction::Finish {
                    outcome: Err(McpError::HostOperationFailed(words.to_owned())),
                    unlisten: false,
                },
            )
        },
    }
}

/// Takes one step of a request to a window.
pub fn ask_step(
    table: &mut PendingTable,
    request: &BridgeRequest,
    state: AskState,
    now: u64,
    event: AskEvent,
) -> (r: (AskState, AskAction))
    ensures
        (final(table)@, r.0, r.1@) == spec_ask_step(
            old(table)@,
            request@,
            state,
            now as int,
            event@,
        ),
{
    let command = request.command;
    let key = command.response_event();
    match state {
        AskState::Start => match event {
            AskEvent::Begin { window_exists } => match begin(table, request, window_exists, now) {
                Ok(ticket) => (AskState::Listening(ticket), AskAction::Listen(key.to_owned())),
                Err(e) => (AskState::Done, AskAction::Finish { outcome: Err(e), unlisten: false }),
            },
            _ => end_out_of_turn(table, request, state),
        },
        AskState::Listening(ticket) => match event {
            AskEvent::ListenerReady => (
                AskState::Sending(ticket),
                AskAction::Emit {
                    window_label: request.window_label.clone(),
                    event: command.request_event().to_owned(),
                    body: request.body.duplicate(),
                },
            ),
            _ => end_out_of_turn(table, request, state),
        },
        AskState::Sending(ticket) => match event {
            AskEvent::Sent(Ok(_)) => (AskState::Waiting(ticket), AskAction::Wait),
            AskEvent::Sent(Err(why)) => {
                table.resolve(key, ticket);
                (
                    AskState::Done,
                    AskAction::Finish { outcome: Ok(Reply::NotSent(why)), unlisten: true },
                )
            },
            _ => end_out_of_turn(table, request, state),
        },
        AskState::Waiting(ticket) => match event {
            AskEvent::Waited(e) => match wait_step(table, command, ticket, now, e) {
                WaitEnd::KeepWaiting => (AskState::Waiting(ticket), AskAction::Wait),
                WaitEnd::Ended(reply) => (
                    AskState::Done,
                    AskAction::Finish { outcome: Ok(reply), unlisten: true },
                ),
                WaitEnd::Stale => (
                    AskState::Done,
                    AskAction::Finish {
                        outcome: Err(
                            McpError::HostOperationFailed(
                                "the request had already ended".to_owned(),
                            ),
                        ),
                        unlisten: true,
                    },
                ),
            },
            _ => end_out_of_turn(table, request, state),
        },
        AskState::Done => end_out_of_turn(table, request, state),
    }
}

/// The envelope that answers a command whose request ended in `outcome`.
pub open spec fn spec_answer(
    command: BridgeCommand,
    outcome: Result<ReplyView, McpErrorView>,
) -> ResponseView {
    match outcome {
        Ok(reply) => spec_conclude(command, reply),
        Err(e) => ResponseView::fail(e.message()),
    }
}

/// Answers a command whose request ended in `outcome`.
pub fn answer(command: BridgeCommand, outcome: Result<Reply, McpError>) -> (r: SocketResponse)
    ensures
        r@ == spec_answer(
            command,
            match outcome {
                Ok(reply) => Ok(reply@),
                Err(e) => Err(e@),
            },
        ),
        r@.well_formed(),
{
    match outcome {
        Ok(reply) => conclude(command, reply),
        Err(e) => SocketResponse::from_error(&e),
    }
}

/// The document text that a request for it ended in. A request that did not
/// get as far as a reply fails as an operation on the window, with the words
/// of its failure.
pub open spec fn spec_dom_text(outcome: Result<ReplyView, McpErrorView>) -> Result<
    Seq<char>,
    GetDomErrorView,
> {
    match outcome {
        Ok(reply) => spec_get_dom_text(reply),
        Err(e) => Err(GetDomErrorView::WebviewOperation(e.message())),
    }
}

/// The document text that a request for it ended in.
pub fn dom_text(outcome: Result<Reply, McpError>) -> (r: Result<String, GetDomError>)
    ensures
        match r {
            Ok(text) => spec_dom_text(
                match outcome {
                    Ok(reply) => Ok(reply@),
                    Err(e) => Err(e@),
                },
            ) == Ok::<Seq<char>, GetDomErrorView>(text@),
            Err(e) => spec_dom_text(
                match outcome {
                    Ok(reply) => Ok(reply@),
                    Err(e) => Err(e@),
                },
            ) == Err::<Seq<char>, GetDomErrorView>(e@),
        },
{
    match outcome {
        Ok(reply) => get_dom_text(reply),
        Err(e) => Err(GetDomError::WebviewOperation(e.message())),
    }
}

/// The listener is registered before the request is sent: a request is sent
/// only on the word that its listener is there, and a request comes to wait
/// for that word only by asking for the listener. What is sent is what the
/// request holds, to the window it names.
pub proof fn lemma_listens_before_it_sends(
    t: TableView,
    request: BridgeRequestView,
    state: AskState,
    now: int,
    event: AskEventView,
)
    ensures
        ({
            let (after, next, action) = spec_ask_step(t, request, state, now, event);
            &&& action is Emit ==> state is Listening && event is ListenerReady && action == (
            AskActionView::Emit {
                window_label: request.window_label,
                event: request.command.spec_request_event(),
                body: request.body,
            })
            &&& next is Listening ==> state is Start && action == AskActionView::Listen(
                request.command.spec_response_event(),
            )
            &&& action is Listen ==> state is Start && next is Listening
            &&& next is Sending ==> state is Listening && action is Emit
            &&& next is Waiting ==> (state is Sending || state is Waiting) && action is Wait
        }),
{
}

/// A request that ends leaves nothing behind: it is gone from the table, and
/// where a listener was asked for it is to be taken away. A request that could
/// not be entered has changed nothing, and one that could not be sent ends
/// with the host's word for it. A step either goes on or ends the request.
pub proof fn lemma_ended_request_leaves_nothing(
    t: TableView,
    request: BridgeRequestView,
    state: AskState,
    now: int,
    event: AskEventView,
)
    ensures
        ({
            let (after, next, action) = spec_ask_step(t, request, state, now, event);
            let key = request.command.spec_response_event();
            &&& action is Finish <==> next is Done
            &&& action matches AskActionView::Finish { outcome, unlisten } ==> {
                &&& unlisten == ticket_of(state) is Some
                &&& ticket_of(state) matches Some(ticket) ==> !after.waits(key, ticket)
                &&& ticket_of(state) is None ==> outcome is Err
                &&& ticket_of(state) is None && !(event is Begin) ==> after == t
                &&& state is Start && event is Begin ==> after.pending == t.pending
                &&& state is Sending ==> (event matches AskEventView::Sent(Err(why)) ==> outcome
                    == Ok::<ReplyView, McpErrorView>(ReplyView::NotSent(why)))
            }
        }),
{
}

} // verus!
