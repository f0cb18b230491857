//! The failures that a command can end in, and the text each one is reported
//! with.

use vstd::prelude::*;

verus! {

/// What is wrong with the payload of a command.
#[derive(Debug, Clone, PartialEq, Eq)]
pub enum PayloadProblem {
    /// The payload as a whole is not of a JSON type that the command takes.
    WrongShape,
    /// A required field is absent.
    MissingField(String),
    /// A field holds a value of the wrong type, or one outside the range of
    /// its type.
    WrongType(String),
    /// The requested operation needs a field that the payload leaves out.
    MissingArgument(String),
    /// The message is no JSON at all; the text says why.
    NotJson(String),
    /// The payload is neither a string nor an object, where the command takes
    /// either; the text is the payload as JSON.
    NeitherStringNorObject(String),
    /// The payload is an object that lacks the field, or holds it with a value
    /// of another type.
    MissingOrInvalid(String),
}

/// Mathematical form of a [`PayloadProblem`].
pub enum PayloadProblemView {
    WrongShape,
    MissingField(Seq<char>),
    WrongType(Seq<char>),
    MissingArgument(Seq<char>),
    NotJson(Seq<char>),
    NeitherStringNorObject(Seq<char>),
    MissingOrInvalid(Seq<char>),
}

impl View for PayloadProblem {
    type V = PayloadProblemView;

    open spec fn view(&self) -> PayloadProblemView {
        match self {
            PayloadProblem::WrongShape => PayloadProblemView::WrongShape,
            PayloadProblem::MissingField(f) => PayloadProblemView::MissingField(f@),
            PayloadProblem::WrongType(f) => PayloadProblemView::WrongType(f@),
            PayloadProblem::MissingArgument(f) => PayloadProblemView::MissingArgument(f@),
            PayloadProblem::NotJson(m) => PayloadProblemView::NotJson(m@),
            PayloadProblem::NeitherStringNorObject(t) => PayloadProblemView::NeitherStringNorObject(
                t@,
            ),
            PayloadProblem::MissingOrInvalid(f) => PayloadProblemView::MissingOrInvalid(f@),
        }
    }
}

impl PayloadProblemView {
    /// The text that describes the problem.
    pub open spec fn message(self) -> Seq<char> {
        match self {
            PayloadProblemView::WrongShape => "unexpected payload type"@,
            PayloadProblemView::MissingField(f) => "missing field `"@ + f + "`"@,
            PayloadProblemView::WrongType(f) => "invalid type for field `"@ + f + "`"@,
            PayloadProblemView::MissingArgument(f) => "the operation requires `"@ + f + "`"@,
            PayloadProblemView::NotJson(m) => "not valid JSON: "@ + m,
            PayloadProblemView::NeitherStringNorObject(t) =>
                "Invalid payload format for getDom: expected string or object with window_label, got "@
                    + t,
            PayloadProblemView::MissingOrInvalid(f) => "Missing or invalid "@ + f
                + " in payload object"@,
        }
    }

    /// Whether the text of the problem is the whole report of the failure. The
    /// other problems are reported after the name of the command.
    pub open spec fn says_all(self) -> bool {
        self is NeitherStringNorObject || self is MissingOrInvalid
    }
}

impl PayloadProblem {
    /// The text that describes the problem.
    pub fn message(&self) -> (r: String)
        ensures
            r@ == self@.message(),
    {
        match self {
            PayloadProblem::WrongShape => "unexpected payload type".to_owned(),
            PayloadProblem::MissingField(f) => join3("missing field `", f.as_str(), "`"),
            PayloadProblem::WrongType(f) => join3("invalid type for field `", f.as_str(), "`"),
            PayloadProblem::MissingArgument(f) => join3(
                "the operation requires `",
                f.as_str(),
                "`",
            ),
            PayloadProblem::NotJson(m) => join2("not valid JSON: ", m.as_str()),
            PayloadProblem::NeitherStringNorObject(t) => join2(
                "Invalid payload format for getDom: expected string or object with window_label, got ",
                t.as_str(),
            ),
            PayloadProblem::MissingOrInvalid(f) => join3(
                "Missing or invalid ",
                f.as_str(),
                " in payload object",
            ),
        }
    }

    /// Whether the text of the problem is the whole report of the failure.
    pub fn says_all(&self) -> (r: bool)
        ensures
            r == self@.says_all(),
    {
        match self {
            PayloadProblem::NeitherStringNorObject(_) => true,
            PayloadProblem::MissingOrInvalid(_) => true,
            _ => false,
        }
    }
}

/// Every way in which a command, or the server itself, can fail.
#[derive(Debug, Clone, PartialEq, Eq)]
pub enum McpError {
    /// The command's payload does not have the shape that the command takes.
    InvalidPayload { command: String, problem: PayloadProblem },
    /// The command name is not one the server knows.
    UnknownCommand,
    /// No window carries the given label.
    TargetNotFound(String),
    /// No screenshot could be produced.
    CaptureFailed(String),
    /// The reply did not arrive before the deadline; the text says what was
    /// waited for.
    Timeout(String),
    /// The window answered, but not with what the command expects.
    MalformedResponsePayload(String),
    /// The command socket could not be created.
    BindFailed(String),
    /// The host application reported a failure of its own.
    HostOperationFailed(String),
    /// A request already waits for the reply event of the given name; a second
    /// one is refused rather than queued.
    RequestPending(String),
}

/// Mathematical form of a [`McpError`].
pub enum McpErrorView {
    InvalidPayload { command: Seq<char>, problem: PayloadProblemView },
    UnknownCommand,
    TargetNotFound(Seq<char>),
    CaptureFailed(Seq<char>),
    Timeout(Seq<char>),
    MalformedResponsePayload(Seq<char>),
    BindFailed(Seq<char>),
    HostOperationFailed(Seq<char>),
    RequestPending(Seq<char>),
}

impl View for McpError {
    type V = McpErrorView;

    open spec fn view(&self) -> McpErrorView {
        match self {
            McpError::InvalidPayload { command, problem } => McpErrorView::InvalidPayload {
                command: command@,
                problem: problem@,
            },
            McpError::UnknownCommand => McpErrorView::UnknownCommand,
            McpError::TargetNotFound(s) => McpErrorView::TargetNotFound(s@),
            McpError::CaptureFailed(s) => McpErrorView::CaptureFailed(s@),
            McpError::Timeout(s) => McpErrorView::Timeout(s@),
            McpError::MalformedResponsePayload(s) => McpErrorView::MalformedResponsePayload(s@),
            McpError::BindFailed(s) => McpErrorView::BindFailed(s@),
            McpError::HostOperationFailed(s) => McpErrorView::HostOperationFailed(s@),
            McpError::RequestPending(s) => McpErrorView::RequestPending(s@),
        }
    }
}

impl McpErrorView {
    /// The text that the failure is reported with.
    pub open spec fn message(self) -> Seq<char> {
        match self {
            McpErrorView::InvalidPayload { command, problem } => if problem.says_all() {
                problem.message()
            } else {
                "Invalid payload for "@ + command + ": "@ + problem.message()
            },
            McpErrorView::UnknownCommand => "unknown command"@,
            McpErrorView::TargetNotFound(s) => "Window not found: "@ + s,
            McpErrorView::CaptureFailed(s) => "Failed to capture screenshot: "@ + s,
            McpErrorView::Timeout(s) => "Timeout waiting for "@ + s,
            McpErrorView::MalformedResponsePayload(s) => "Failed to parse result: "@ + s,
            McpErrorView::BindFailed(s) => "Failed to bind socket: "@ + s,
            McpErrorView::HostOperationFailed(s) => s,
            McpErrorView::RequestPending(s) => "A request is already waiting for "@ + s,
        }
    }
}

impl McpError {
    /// The text that the failure is reported with.
    pub fn message(&self) -> (r: String)
        ensures
            r@ == self@.message(),
    {
        match self {
            McpError::InvalidPayload { command, problem } => {
                let detail = problem.message();
                if problem.says_all() {
                    detail
                } else {
                    let head = join3("Invalid payload for ", command.as_str(), ": ");
                    let r = join2(head.as_str(), detail.as_str());
                    assert(r@ =~= self@.message());
                    r
                }
            },
            McpError::UnknownCommand => "unknown command".to_owned(),
            McpError::TargetNotFound(s) => join2("Window not found: ", s.as_str()),
            McpError::CaptureFailed(s) => join2("Failed to capture screenshot: ", s.as_str()),
            McpError::Timeout(s) => join2("Timeout waiting for ", s.as_str()),
            McpError::MalformedResponsePayload(s) => join2("Failed to parse result: ", s.as_str()),
            McpError::BindFailed(s) => join2("Failed to bind socket: ", s.as_str()),
            McpError::HostOperationFailed(s) => s.clone(),
            McpError::RequestPending(s) => join2("A request is already waiting for ", s.as_str()),
        }
    }

    /// The failure of `command` over a payload with the given `problem`.
    pub fn invalid_payload(command: &str, problem: PayloadProblem) -> (r: McpError)
        ensures
            r@ == (McpErrorView::InvalidPayload { command: command@, problem: problem@ }),
    {
        McpError::InvalidPayload { command: command.to_owned(), problem }
    }
}

/// The two texts, one after the other.
pub fn join2(a: &str, b: &str) -> (r: String)
    ensures
        r@ == a@ + b@,
{
    let mut s = a.to_owned();
    s.append(b);
    s
}

/// The three texts, one after the other.
pub fn join3(a: &str, b: &str, c: &str) -> (r: String)
    ensures
        r@ == a@ + b@ + c@,
{
    let mut s = a.to_owned();
    s.append(b);
    s.append(c);
    s
}

} // verus!
