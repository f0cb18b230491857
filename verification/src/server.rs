//! Opening the command socket.
//!
//! A socket file that an earlier run left behind is removed before the socket
//! is bound to its path. If the file cannot be removed or the socket cannot be
//! bound, the server does not start: that is the one failure that ends it.

use crate::error::{McpError, McpErrorView};
use vstd::prelude::*;

verus! {

/// How far the opening of the socket has come.
#[derive(Debug, Clone, Copy, PartialEq, Eq, Structural)]
pub enum BindState {
    /// Nothing has happened yet.
    Start,
    /// The path is looked at for a file that is in the way.
    Checking,
    /// The file that is in the way is being removed.
    Removing,
    /// The socket is being bound to the path.
    Binding,
    /// The socket is open.
    Listening,
    /// The socket could not be opened.
    Failed,
}

/// What happened while the socket was opened.
#[derive(Debug, PartialEq, Eq)]
pub enum BindEvent {
    /// The server is to start.
    Begin,
    /// The path was looked at; `exists` says whether a file is there.
    PathChecked { exists: bool },
    /// The file was removed, or could not be, for the reason given.
    Removed(Result<(), String>),
    /// The socket was bound, or could not be, for the reason given.
    Bound(Result<(), String>),
}

/// Mathematical form of a [`BindEvent`].
pub enum BindEventView {
    Begin,
    PathChecked { exists: bool },
    Removed(Result<(), Seq<char>>),
    Bound(Result<(), Seq<char>>),
}

impl View for BindEvent {
    type V = BindEventView;

    open spec fn view(&self) -> BindEventView {
        match self {
            BindEvent::Begin => BindEventView::Begin,
            BindEvent::PathChecked { exists } => BindEventView::PathChecked { exists: *exists },
            BindEvent::Removed(r) => BindEventView::Removed(
                match r {
                    Ok(_) => Ok(()),
                    Err(why) => Err(why@),
                },
            ),
            BindEvent::Bound(r) => BindEventView::Bound(
                match r {
                    Ok(_) => Ok(()),
                    Err(why) => Err(why@),
                },
            ),
        }
    }
}

/// What is to be done next to open the socket.
#[derive(Debug, Clone, PartialEq, Eq)]
pub enum BindAction {
    /// Look whether a file is at the path.
    CheckPath,
    /// Remove the file at the path.
    RemoveStale,
    /// Bind the socket to the path.
    Bind,
    /// Accept connections.
    Serve,
    /// Give up with this failure.
    Fail(McpError),
    /// Nothing.
    Idle,
}

/// Mathematical form of a [`BindAction`].
pub enum BindActionView {
    CheckPath,
    RemoveStale,
    Bind,
    Serve,
    Fail(McpErrorView),
    Idle,
}

impl View for BindAction {
    type V = BindActionView;

    open spec fn view(&self) -> BindActionView {
        match self {
            BindAction::CheckPath => BindActionView::CheckPath,
            BindAction::RemoveStale => BindActionView::RemoveStale,
            BindAction::Bind => BindActionView::Bind,
            BindAction::Serve => BindActionView::Serve,
            BindAction::Fail(e) => BindActionView::Fail(e@),
            BindAction::Idle => BindActionView::Idle,
        }
    }
}

/// The step that gives up for the reason `why`.
pub open spec fn spec_give_up(why: Seq<char>) -> (BindState, BindActionView) {
    (BindState::Failed, BindActionView::Fail(McpErrorView::BindFailed(why)))
}

/// The next state and what is to be done, for the opening of a socket in
/// `state` that is told `event`. An event that the state does not expect
/// changes nothing.
pub open spec fn spec_bind_step(state: BindState, event: BindEventView) -> (
    BindState,
    BindActionView,
) {
    match (state, event) {
        (BindState::Start, BindEventView::Begin) => (
            BindState::Checking,
            BindActionView::CheckPath,
        ),
        (BindState::Checking, BindEventView::PathChecked { exists }) => if exists {
            (BindState::Removing, BindActionView::RemoveStale)
        } else {
            (BindState::Binding, BindActionView::Bind)
        },
        (BindState::Removing, BindEventView::Removed(Ok(_))) => (
            BindState::Binding,
            BindActionView::Bind,
        ),
        (BindState::Removing, BindEventView::Removed(Err(why))) => spec_give_up(why),
        (BindState::Binding, BindEventView::Bound(Ok(_))) => (
            BindState::Listening,
            BindActionView::Serve,
        ),
        (BindState::Binding, BindEventView::Bound(Err(why))) => spec_give_up(why),
        _ => (state, BindActionView::Idle),
    }
}

/// Takes one step of the opening of the socket.
pub fn bind_step(state: BindState, event: BindEvent) -> (r: (BindState, BindAction))
    ensures
        r.0 == spec_bind_step(state, event@).0,
        r.1@ == spec_bind_step(state, event@).1,
{
    match state {
        BindState::Start => match event {
            BindEvent::Begin => (BindState::Checking, BindAction::CheckPath),
            _ => (state, BindAction::Idle),
        },
        BindState::Checking => match event {
            BindEvent::PathChecked { exists } => {
                if exists {
                    (BindState::Removing, BindAction::RemoveStale)
                } else {
                    (BindState::Binding, BindAction::Bind)
                }
            },
            _ => (state, BindAction::Idle),
        },
        BindState::Removing => match event {
            BindEvent::Removed(Ok(_)) => (BindState::Binding, BindAction::Bind),
            BindEvent::Removed(Err(why)) => (
                BindState::Failed,
                BindAction::Fail(McpError::BindFailed(why)),
            ),
            _ => (state, BindAction::Idle),
        },
        BindState::Binding => match event {
            BindEvent::Bound(Ok(_)) => (BindState::Listening, BindAction::Serve),
            BindEvent::Bound(Err(why)) => (
                BindState::Failed,
                BindAction::Fail(McpError::BindFailed(why)),
            ),
            _ => (state, BindAction::Idle),
        },
        BindState::Listening => (state, BindAction::Idle),
        BindState::Failed => (state, BindAction::Idle),
    }
}

/// The socket is bound only to a clear path: after the path was found free, or
/// after the file in the way was removed. And the server gives up only with a
/// bind failure.
pub proof fn lemma_bind_only_on_clear_path(state: BindState, event: BindEventView)
    ensures
        spec_bind_step(state, event).1 is Bind ==> (state == BindState::Checking
            && event == (BindEventView::PathChecked { exists: false })) || (state
            == BindState::Removing && event matches BindEventView::Removed(Ok(_))),
        spec_bind_step(state, event).1 matches BindActionView::Fail(e) ==> e is BindFailed,
        spec_bind_step(state, event).1 is Serve ==> state == BindState::Binding,
{
}

} // verus!
