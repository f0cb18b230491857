//! The envelope that answers every command.

use crate::error::McpError;
use crate::json::{Json, JsonView};
use vstd::prelude::*;

verus! {

/// The answer to one command: either `success` with optional `data`, or a
/// failure with the `error` text.
#[derive(Debug, Clone, PartialEq, Eq)]
pub struct SocketResponse {
    pub success: bool,
    pub data: Option<Json>,
    pub error: Option<String>,
}

/// Mathematical form of a [`SocketResponse`].
pub struct ResponseView {
    pub success: bool,
    pub data: Option<JsonView>,
    pub error: Option<Seq<char>>,
}

impl View for SocketResponse {
    type V = ResponseView;

    open spec fn view(&self) -> ResponseView {
        ResponseView {
            success: self.success,
            data: match self.data {
                Some(d) => Some(d@),
                None => None,
            },
            error: match self.error {
                Some(e) => Some(e@),
                None => None,
            },
        }
    }
}

impl ResponseView {
    /// The envelope of a command that succeeded with `data`.
    pub open spec fn ok(data: JsonView) -> ResponseView {
        ResponseView { success: true, data: Some(data), error: None }
    }

    /// The envelope of a command that failed with the text `message`.
    pub open spec fn fail(message: Seq<char>) -> ResponseView {
        ResponseView { success: false, data: None, error: Some(message) }
    }

    /// Data comes only with success, and a failure always says why.
    pub open spec fn well_formed(self) -> bool {
        if self.success {
            self.error is None
        } else {
            self.data is None && self.error is Some
        }
    }
}

impl SocketResponse {
    /// The envelope of a command that succeeded with `data`.
    pub fn ok(data: Json) -> (r: SocketResponse)
        ensures
            r@ == ResponseView::ok(data@),
            r@.well_formed(),
    {
        SocketResponse { success: true, data: Some(data), error: None }
    }

    /// The envelope of a command that failed with the text `message`.
    pub fn fail(message: String) -> (r: SocketResponse)
        ensures
            r@ == ResponseView::fail(message@),
            r@.well_formed(),
    {
        SocketResponse { success: false, data: None, error: Some(message) }
    }

    /// The envelope that reports `error`.
    pub fn from_error(error: &McpError) -> (r: SocketResponse)
        ensures
            r@ == ResponseView::fail(error@.message()),
            r@.well_formed(),
    {
        SocketResponse::fail(error.message())
    }
}

} // verus!
