//! Commands that only the window itself can answer: reading its document,
//! locating an element, typing into an element.
//!
//! Each of them is sent to the window as an event and answered by one reply
//! event. This module decides what is sent and what the reply means; waiting
//! for the reply is the caller's part.

use crate::error::{join2, join3, McpError, McpErrorView, PayloadProblem, PayloadProblemView};
use crate::json::{Json, JsonView};
use crate::payload::{
    bool_or, int_or, required_text, spec_bool_or, spec_int_or, spec_required_text,
};
use crate::response::{ResponseView, SocketResponse};
use crate::shared::commands::{GET_DOM, GET_ELEMENT_POSITION, SEND_TEXT_TO_ELEMENT};
use vstd::prelude::*;

verus! {

/// Why a wait for a reply ended without one.
#[derive(Debug, Clone, Copy, PartialEq, Eq, Structural)]
pub enum WaitFailure {
    /// The deadline passed.
    TimedOut,
    /// The side that would have delivered the reply is gone.
    Disconnected,
}

impl WaitFailure {
    /// The text that describes the failure.
    pub open spec fn spec_message(self) -> Seq<char> {
        match self {
            WaitFailure::TimedOut => "timed out waiting on channel"@,
            WaitFailure::Disconnected => "channel is empty and sending half is closed"@,
        }
    }

    /// The text that describes the failure.
    pub fn message(&self) -> (r: String)
        ensures
            r@ == self.spec_message(),
    {
        match self {
            WaitFailure::TimedOut => "timed out waiting on channel".to_owned(),
            WaitFailure::Disconnected => "channel is empty and sending half is closed".to_owned(),
        }
    }
}

/// Why the document of a window could not be read.
#[derive(Debug, Clone, PartialEq, Eq)]
pub enum GetDomError {
    WebviewOperation(String),
    JavaScriptError(String),
    DomIsEmpty,
}

/// Mathematical form of a [`GetDomError`].
pub enum GetDomErrorView {
    WebviewOperation(Seq<char>),
    JavaScriptError(Seq<char>),
    DomIsEmpty,
}

impl View for GetDomError {
    type V = GetDomErrorView;

    open spec fn view(&self) -> GetDomErrorView {
        match self {
            GetDomError::WebviewOperation(s) => GetDomErrorView::WebviewOperation(s@),
            GetDomError::JavaScriptError(s) => GetDomErrorView::JavaScriptError(s@),
            GetDomError::DomIsEmpty => GetDomErrorView::DomIsEmpty,
        }
    }
}

impl GetDomErrorView {
    /// The text that the failure is reported with.
    pub open spec fn message(self) -> Seq<char> {
        match self {
            GetDomErrorView::WebviewOperation(s) => "Webview operation error: "@ + s,
            GetDomErrorView::JavaScriptError(s) => "JavaScript execution error: "@ + s,
            GetDomErrorView::DomIsEmpty => "Retrieved DOM string is empty"@,
        }
    }

    /// The failure that a wait without reply stands for.
    pub open spec fn from_wait_failure(failure: WaitFailure) -> GetDomErrorView {
        GetDomErrorView::WebviewOperation("Timeout waiting for DOM: "@ + failure.spec_message())
    }
}

impl GetDomError {
    /// The text that the failure is reported with.
    pub fn message(&self) -> (r: String)
        ensures
            r@ == self@.message(),
    {
        match self {
            GetDomError::WebviewOperation(s) => join2("Webview operation error: ", s.as_str()),
            GetDomError::JavaScriptError(s) => join2("JavaScript execution error: ", s.as_str()),
            GetDomError::DomIsEmpty => "Retrieved DOM string is empty".to_owned(),
        }
    }

    /// The failure that a wait without reply stands for.
    pub fn from_wait_failure(failure: WaitFailure) -> (r: GetDomError)
        ensures
            r@ == GetDomErrorView::from_wait_failure(failure),
    {
        let cause = failure.message();
        GetDomError::WebviewOperation(join2("Timeout waiting for DOM: ", cause.as_str()))
    }

    /// The failure that an error of the host's script evaluation stands for.
    pub fn from_host_error(message: String) -> (r: GetDomError)
        ensures
            r@ == GetDomErrorView::JavaScriptError(message@),
    {
        GetDomError::JavaScriptError(message)
    }
}

/// The commands that are answered by a reply event of the window.
#[derive(Debug, Clone, Copy, PartialEq, Eq, Structural)]
pub enum BridgeCommand {
    GetDom,
    GetElementPosition,
    SendTextToElement,
}

impl BridgeCommand {
    /// The name of the command on the wire.
    pub open spec fn spec_name(self) -> Seq<char> {
        match self {
            BridgeCommand::GetDom => GET_DOM@,
            BridgeCommand::GetElementPosition => GET_ELEMENT_POSITION@,
            BridgeCommand::SendTextToElement => SEND_TEXT_TO_ELEMENT@,
        }
    }

    /// The event that carries the request to the window.
    pub open spec fn spec_request_event(self) -> Seq<char> {
        match self {
            BridgeCommand::GetDom => "got-dom-content"@,
            BridgeCommand::GetElementPosition => "get-element-position"@,
            BridgeCommand::SendTextToElement => "send-text-to-element"@,
        }
    }

    /// The event that the window answers with. It is the key under which the
    /// request waits for its reply.
    pub open spec fn spec_response_event(self) -> Seq<char> {
        match self {
            BridgeCommand::GetDom => "got-dom-content-response"@,
            BridgeCommand::GetElementPosition => "get-element-position-response"@,
            BridgeCommand::SendTextToElement => "send-text-to-element-response"@,
        }
    }

    /// How long the reply is waited for, in milliseconds: five seconds for
    /// reading, thirty for typing.
    pub open spec fn spec_timeout_ms(self) -> int {
        match self {
            BridgeCommand::GetDom => 5000,
            BridgeCommand::GetElementPosition => 5000,
            BridgeCommand::SendTextToElement => 30000,
        }
    }

    /// What the command waits for, as a timeout reports it.
    pub open spec fn spec_awaited(self) -> Seq<char> {
        match self {
            BridgeCommand::GetDom => "DOM"@,
            BridgeCommand::GetElementPosition => "element position result"@,
            BridgeCommand::SendTextToElement => "text input completion"@,
        }
    }

    /// The name of the command on the wire.
    pub fn name(&self) -> (r: &'static str)
        ensures
            r@ == self.spec_name(),
    {
        match self {
            BridgeCommand::GetDom => GET_DOM,
            BridgeCommand::GetElementPosition => GET_ELEMENT_POSITION,
            BridgeCommand::SendTextToElement => SEND_TEXT_TO_ELEMENT,
        }
    }

    /// The event that carries the request to the window.
    pub fn request_event(&self) -> (r: &'static str)
        ensures
            r@ == self.spec_request_event(),
    {
        match self {
            BridgeCommand::GetDom => "got-dom-content",
            BridgeCommand::GetElementPosition => "get-element-position",
            BridgeCommand::SendTextToElement => "send-text-to-element",
        }
    }

    /// The event that the window answers with.
    pub fn response_event(&self) -> (r: &'static str)
        ensures
            r@ == self.spec_response_event(),
    {
        match self {
            BridgeCommand::GetDom => "got-dom-content-response",
            BridgeCommand::GetElementPosition => "get-element-position-response",
            BridgeCommand::SendTextToElement => "send-text-to-element-response",
        }
    }

    /// How long the reply is waited for, in milliseconds.
    pub fn timeout_ms(&self) -> (r: u64)
        ensures
            r == self.spec_timeout_ms(),
    {
        match self {
            BridgeCommand::GetDom => 5000,
            BridgeCommand::GetElementPosition => 5000,
            BridgeCommand::SendTextToElement => 30000,
        }
    }

    /// What the command waits for, as a timeout reports it.
    pub fn awaited(&self) -> (r: &'static str)
        ensures
            r@ == self.spec_awaited(),
    {
        match self {
            BridgeCommand::GetDom => "DOM",
            BridgeCommand::GetElementPosition => "element position result",
            BridgeCommand::SendTextToElement => "text input completion",
        }
    }
}

/// The window that a `get_dom` payload names: the payload itself when it is a
/// string, its member `window_label` when it is an object. A payload that is
/// neither is reported with its JSON text. That text is written here for
/// `null`, booleans and numbers; for an array it is `text`, the payload as
/// JSON as it is handed in.
pub open spec fn spec_dom_target(p: JsonView, text: Seq<char>) -> Result<
    Seq<char>,
    PayloadProblemView,
> {
    match p {
        JsonView::Text(label) => Ok(label),
        JsonView::Object(_) => match p.field("window_label"@) {
            Some(JsonView::Text(label)) => Ok(label),
            _ => Err(PayloadProblemView::MissingOrInvalid("window_label"@)),
        },
        _ => Err(PayloadProblemView::NeitherStringNorObject(p.quoted_text(text))),
    }
}

/// Reads the label of the window whose document is asked for. `payload_text`
/// is the payload as JSON, as the parser that read the request writes it; it
/// is looked at only where the payload is an array.
pub fn dom_target(payload: &Json, payload_text: &str) -> (r: Result<String, PayloadProblem>)
    ensures
        match r {
            Ok(label) => spec_dom_target(payload@, payload_text@) == Ok::<
                Seq<char>,
                PayloadProblemView,
            >(label@),
            Err(e) => spec_dom_target(payload@, payload_text@) == Err::<
                Seq<char>,
                PayloadProblemView,
            >(e@),
        },
{
    match payload.as_text() {
        Some(label) => Ok(label.clone()),
        None => {
            if payload.is_object() {
                match required_text(payload, "window_label") {
                    Ok(label) => Ok(label),
                    Err(_) => Err(PayloadProblem::MissingOrInvalid("window_label".to_owned())),
                }
            } else {
                Err(PayloadProblem::NeitherStringNorObject(payload.quoted_text(payload_text)))
            }
        },
    }
}

/// What `get_element_position` takes.
#[derive(Debug, Clone, PartialEq, Eq)]
pub struct GetElementPositionPayload {
    pub window_label: String,
    pub selector_type: String,
    pub selector_value: String,
    pub should_click: bool,
    pub raw_coordinates: bool,
}

/// Mathematical form of a [`GetElementPositionPayload`].
pub struct GetElementPositionPayloadView {
    pub window_label: Seq<char>,
    pub selector_type: Seq<char>,
    pub selector_value: Seq<char>,
    pub should_click: bool,
    pub raw_coordinates: bool,
}

impl View for GetElementPositionPayload {
    type V = GetElementPositionPayloadView;

    open spec fn view(&self) -> GetElementPositionPayloadView {
        GetElementPositionPayloadView {
            window_label: self.window_label@,
            selector_type: self.selector_type@,
            selector_value: self.selector_value@,
            should_click: self.should_click,
            raw_coordinates: self.raw_coordinates,
        }
    }
}

impl GetElementPositionPayloadView {
    /// What a payload stands for, or what is wrong with it.
    pub open spec fn from_payload(p: JsonView) -> Result<
        GetElementPositionPayloadView,
        PayloadProblemView,
    > {
        if !(p is Object) {
            Err(PayloadProblemView::WrongShape)
        } else {
            match spec_required_text(p, "window_label"@) {
                Err(e) => Err(e),
                Ok(window_label) => match spec_required_text(p, "selector_type"@) {
                    Err(e) => Err(e),
                    Ok(selector_type) => match spec_required_text(p, "selector_value"@) {
                        Err(e) => Err(e),
                        Ok(selector_value) => match spec_bool_or(p, "should_click"@, false) {
                            Err(e) => Err(e),
                            Ok(should_click) => match spec_bool_or(p, "raw_coordinates"@, false) {
                                Err(e) => Err(e),
                                Ok(raw_coordinates) => Ok(
                                    GetElementPositionPayloadView {
                                        window_label,
                                        selector_type,
                                        selector_value,
                                        should_click,
                                        raw_coordinates,
                                    },
                                ),
                            },
                        },
                    },
                },
            }
        }
    }

    /// What is sent to the window.
    pub open spec fn request_body(self) -> JsonView {
        JsonView::Object(
            seq![
                ("windowLabel"@, JsonView::Text(self.window_label)),
                ("selectorType"@, JsonView::Text(self.selector_type)),
                ("selectorValue"@, JsonView::Text(self.selector_value)),
                ("shouldClick"@, JsonView::Bool(self.should_click)),
                ("rawCoordinates"@, JsonView::Bool(self.raw_coordinates)),
            ],
        )
    }
}

impl GetElementPositionPayload {
    /// Reads the payload of `get_element_position`.
    pub fn from_payload(payload: &Json) -> (r: Result<GetElementPositionPayload, PayloadProblem>)
        ensures
            match r {
                Ok(p) => GetElementPositionPayloadView::from_payload(payload@) == Ok::<
                    GetElementPositionPayloadView,
                    PayloadProblemView,
                >(p@),
                Err(e) => GetElementPositionPayloadView::from_payload(payload@) == Err::<
                    GetElementPositionPayloadView,
                    PayloadProblemView,
                >(e@),
            },
    {
        if !payload.is_object() {
            return Err(PayloadProblem::WrongShape);
        }
        let window_label = required_text(payload, "window_label")?;
        let selector_type = required_text(payload, "selector_type")?;
        let selector_value = required_text(payload, "selector_value")?;
        let should_click = bool_or(payload, "should_click", false)?;
        let raw_coordinates = bool_or(payload, "raw_coordinates", false)?;
        Ok(
            GetElementPositionPayload {
                window_label,
                selector_type,
                selector_value,
                should_click,
                raw_coordinates,
            },
        )
    }

    /// What is sent to the window.
    pub fn request_body(&self) -> (r: Json)
        ensures
            r@ == self@.request_body(),
    {
        let mut entries: Vec<(String, Json)> = Vec::new();
        entries.push(("windowLabel".to_owned(), Json::text(self.window_label.as_str())));
        entries.push(("selectorType".to_owned(), Json::text(self.selector_type.as_str())));
        entries.push(("selectorValue".to_owned(), Json::text(self.selector_value.as_str())));
        entries.push(("shouldClick".to_owned(), Json::Bool(self.should_click)));
        entries.push(("rawCoordinates".to_owned(), Json::Bool(self.raw_coordinates)));
        let r = Json::object(entries);
        assert(r@->Object_0 =~= self@.request_body()->Object_0);
        r
    }
}

/// The pause between two characters, in milliseconds, where the payload names
/// none.
pub fn default_delay_ms() -> (r: u32)
    ensures
        r == 20,
{
    20
}

/// What `send_text_to_element` takes.
#[derive(Debug, Clone, PartialEq, Eq)]
pub struct SendTextToElementPayload {
    pub window_label: String,
    pub selector_type: String,
    pub selector_value: String,
    pub text: String,
    pub delay_ms: u32,
}

/// Mathematical form of a [`SendTextToElementPayload`].
pub struct SendTextToElementPayloadView {
    pub window_label: Seq<char>,
    pub selector_type: Seq<char>,
    pub selector_value: Seq<char>,
    pub text: Seq<char>,
    pub delay_ms: int,
}

impl View for SendTextToElementPayload {
    type V = SendTextToElementPayloadView;

    open spec fn view(&self) -> SendTextToElementPayloadView {
        SendTextToElementPayloadView {
            window_label: self.window_label@,
            selector_type: self.selector_type@,
            selector_value: self.selector_value@,
            text: self.text@,
            delay_ms: self.delay_ms as int,
        }
    }
}

impl SendTextToElementPayloadView {
    /// What a payload stands for, or what is wrong with it.
    pub open spec fn from_payload(p: JsonView) -> Result<
        SendTextToElementPayloadView,
        PayloadProblemView,
    > {
        if !(p is Object) {
            Err(PayloadProblemView::WrongShape)
        } else {
            match spec_required_text(p, "window_label"@) {
                Err(e) => Err(e),
                Ok(window_label) => match spec_required_text(p, "selector_type"@) {
                    Err(e) => Err(e),
                    Ok(selector_type) => match spec_required_text(p, "selector_value"@) {
                        Err(e) => Err(e),
                        Ok(selector_value) => match spec_required_text(p, "text"@) {
                            Err(e) => Err(e),
                            Ok(text) => match spec_int_or(p, "delay_ms"@, 0, u32::MAX as int, 20) {
                                Err(e) => Err(e),
                                Ok(delay_ms) => Ok(
                                    SendTextToElementPayloadView {
                                        window_label,
                                        selector_type,
                                        selector_value,
                                        text,
                                        delay_ms,
                                    },
                                ),
                            },
                        },
                    },
                },
            }
        }
    }

    /// What is sent to the window.
    pub open spec fn request_body(self) -> JsonView {
        JsonView::Object(
            seq![
                ("selectorType"@, JsonView::Text(self.selector_type)),
                ("selectorValue"@, JsonView::Text(self.selector_value)),
                ("text"@, JsonView::Text(self.text)),
                ("delayMs"@, JsonView::Int(self.delay_ms)),
            ],
        )
    }
}

impl SendTextToElementPayload {
    /// Reads the payload of `send_text_to_element`.
    pub fn from_payload(payload: &Json) -> (r: Result<SendTextToElementPayload, PayloadProblem>)
        ensures
            match r {
                Ok(p) => SendTextToElementPayloadView::from_payload(payload@) == Ok::<
                    SendTextToElementPayloadView,
                    PayloadProblemView,
                >(p@),
                Err(e) => SendTextToElementPayloadView::from_payload(payload@) == Err::<
                    SendTextToElementPayloadView,
                    PayloadProblemView,
                >(e@),
            },
    {
        if !payload.is_object() {
            return Err(PayloadProblem::WrongShape);
        }
        let window_label = required_text(payload, "window_label")?;
        let selector_type = required_text(payload, "selector_type")?;
        let selector_value = required_text(payload, "selector_value")?;
        let text = required_text(payload, "text")?;
        let default = default_delay_ms() as i128;
        let delay_ms = int_or(payload, "delay_ms", 0, u32::MAX as i128, default)? as u32;
        Ok(SendTextToElementPayload { window_label, selector_type, selector_value, text, delay_ms })
    }

    /// What is sent to the window.
    pub fn request_body(&self) -> (r: Json)
        ensures
            r@ == self@.request_body(),
    {
        let mut entries: Vec<(String, Json)> = Vec::new();
        entries.push(("selectorType".to_owned(), Json::text(self.selector_type.as_str())));
        entries.push(("selectorValue".to_owned(), Json::text(self.selector_value.as_str())));
        entries.push(("text".to_owned(), Json::text(self.text.as_str())));
        entries.push(("delayMs".to_owned(), Json::Int(self.delay_ms as i128)));
        let r = Json::object(entries);
        assert(r@->Object_0 =~= self@.request_body()->Object_0);
        r
    }
}

/// A request to a window: what is sent, to whom, and under which command.
#[derive(Debug, Clone, PartialEq, Eq)]
pub struct BridgeRequest {
    pub command: BridgeCommand,
    pub window_label: String,
    pub body: Json,
}

/// Mathematical form of a [`BridgeRequest`].
pub struct BridgeRequestView {
    pub command: BridgeCommand,
    pub window_label: Seq<char>,
    pub body: JsonView,
}

impl View for BridgeRequest {
    type V = BridgeRequestView;

    open spec fn view(&self) -> BridgeRequestView {
        BridgeRequestView {
            command: self.command,
            window_label: self.window_label@,
            body: self.body@,
        }
    }
}

/// The failure of `command` over a payload with the given problem.
pub open spec fn spec_invalid(command: BridgeCommand, problem: PayloadProblemView) -> McpErrorView {
    McpErrorView::InvalidPayload { command: command.spec_name(), problem }
}

/// The request that `command` with `payload` makes of a window, or the reason
/// why the payload cannot be used. `text` is the payload as JSON.
pub open spec fn spec_plan(command: BridgeCommand, payload: JsonView, text: Seq<char>) -> Result<
    BridgeRequestView,
    McpErrorView,
> {
    match command {
        BridgeCommand::GetDom => match spec_dom_target(payload, text) {
            Ok(label) => Ok(
                BridgeRequestView { command, window_label: label, body: JsonView::Text("test"@) },
            ),
            Err(problem) => Err(spec_invalid(command, problem)),
        },
        BridgeCommand::GetElementPosition => match GetElementPositionPayloadView::from_payload(
            payload,
        ) {
            Ok(p) => Ok(
                BridgeRequestView {
                    command,
                    window_label: p.window_label,
                    body: p.request_body(),
                },
            ),
            Err(problem) => Err(spec_invalid(command, problem)),
        },
        BridgeCommand::SendTextToElement => match SendTextToElementPayloadView::from_payload(
            payload,
        ) {
            Ok(p) => Ok(
                BridgeRequestView {
                    command,
                    window_label: p.window_label,
                    body: p.request_body(),
                },
            ),
            Err(problem) => Err(spec_invalid(command, problem)),
        },
    }
}

/// Works out the request that `command` with `payload` makes of a window.
/// `payload_text` is the payload as JSON, as the parser that read the request
/// writes it; it is quoted where `get_dom` is given an array.
pub fn plan(command: BridgeCommand, payload: &Json, payload_text: &str) -> (r: Result<
    BridgeRequest,
    McpError,
>)
    ensures
        match r {
            Ok(request) => spec_plan(command, payload@, payload_text@) == Ok::<
                BridgeRequestView,
                McpErrorView,
            >(request@),
            Err(e) => spec_plan(command, payload@, payload_text@) == Err::<
                BridgeRequestView,
                McpErrorView,
            >(e@),
        },
{
    match command {
        BridgeCommand::GetDom => match dom_target(payload, payload_text) {
            Ok(window_label) => Ok(
                BridgeRequest { command, window_label, body: Json::text("test") },
            ),
            Err(problem) => Err(McpError::invalid_payload(command.name(), problem)),
        },
        BridgeCommand::GetElementPosition => match GetElementPositionPayload::from_payload(
            payload,
        ) {
            Ok(p) => {
                let body = p.request_body();
                Ok(BridgeRequest { command, window_label: p.window_label, body })
            },
            Err(problem) => Err(McpError::invalid_payload(command.name(), problem)),
        },
        BridgeCommand::SendTextToElement => match SendTextToElementPayload::from_payload(payload) {
            Ok(p) => {
                let body = p.request_body();
                Ok(BridgeRequest { command, window_label: p.window_label, body })
            },
            Err(problem) => Err(McpError::invalid_payload(command.name(), problem)),
        },
    }
}

/// How the wait for a reply ended.
#[derive(Debug, PartialEq, Eq)]
pub enum Reply {
    /// The reply event arrived with the payload `text`; `parsed` is that text
    /// read as JSON, or the reason why it is no JSON.
    Received { text: String, parsed: Result<Json, String> },
    /// No reply arrived.
    Failed(WaitFailure),
    /// The request could not be sent; the text is the host's word for it.
    NotSent(String),
}

/// Mathematical form of a [`Reply`].
pub enum ReplyView {
    Received { text: Seq<char>, parsed: Result<JsonView, Seq<char>> },
    Failed(WaitFailure),
    NotSent(Seq<char>),
}

impl View for Reply {
    type V = ReplyView;

    open spec fn view(&self) -> ReplyView {
        match self {
            Reply::Received { text, parsed } => ReplyView::Received {
                text: text@,
                parsed: match parsed {
                    Ok(v) => Ok(v@),
                    Err(m) => Err(m@),
                },
            },
            Reply::Failed(f) => ReplyView::Failed(*f),
            Reply::NotSent(why) => ReplyView::NotSent(why@),
        }
    }
}

/// The document text that a reply to `get_dom` carries.
pub open spec fn spec_get_dom_text(reply: ReplyView) -> Result<Seq<char>, GetDomErrorView> {
    match reply {
        ReplyView::Received { text, parsed } => if text.len() == 0 {
            Err(GetDomErrorView::DomIsEmpty)
        } else {
            Ok(text)
        },
        ReplyView::Failed(f) => Err(GetDomErrorView::from_wait_failure(f)),
        ReplyView::NotSent(why) => Err(GetDomErrorView::JavaScriptError(why)),
    }
}

/// The document text that a reply to `get_dom` carries: the payload of the
/// reply event, unless it is empty or never came. A request that the host
/// could not send fails with the host's word for it.
pub fn get_dom_text(reply: Reply) -> (r: Result<String, GetDomError>)
    ensures
        match r {
            Ok(text) => spec_get_dom_text(reply@) == Ok::<Seq<char>, GetDomErrorView>(text@),
            Err(e) => spec_get_dom_text(reply@) == Err::<Seq<char>, GetDomErrorView>(e@),
        },
{
    match reply {
        Reply::Received { text, parsed } => {
            if text.as_str().is_empty() {
                Err(GetDomError::DomIsEmpty)
            } else {
                Ok(text)
            }
        },
        Reply::Failed(f) => Err(GetDomError::from_wait_failure(f)),
        Reply::NotSent(why) => Err(GetDomError::from_host_error(why)),
    }
}

/// The envelope for what the window reported: success with its `data`, or
/// failure with its `error`. A reply that does not say `"success": true` is a
/// failure.
pub open spec fn spec_reported(v: JsonView) -> ResponseView {
    let success = match v.field("success"@) {
        Some(JsonView::Bool(b)) => b,
        _ => false,
    };
    if success {
        ResponseView::ok(
            match v.field("data"@) {
                Some(d) => d,
                None => JsonView::Null,
            },
        )
    } else {
        ResponseView::fail(
            match v.field("error"@) {
                Some(JsonView::Text(s)) => s,
                _ => "Unknown error occurred"@,
            },
        )
    }
}

/// The envelope for what the window reported.
pub fn reported(value: &Json) -> (r: SocketResponse)
    ensures
        r@ == spec_reported(value@),
        r@.well_formed(),
{
    let success = match value.get("success") {
        Some(v) => match v.as_bool() {
            Some(b) => b,
            None => false,
        },
        None => false,
    };
    if success {
        let data = match value.get("data") {
            Some(d) => d.duplicate(),
            None => Json::Null,
        };
        SocketResponse::ok(data)
    } else {
        let message = match value.get("error") {
            Some(v) => match v.as_text() {
                Some(s) => s.clone(),
                None => "Unknown error occurred".to_owned(),
            },
            None => "Unknown error occurred".to_owned(),
        };
        SocketResponse::fail(message)
    }
}

/// What a wait that ended without reply is reported as.
pub open spec fn spec_timeout(command: BridgeCommand, failure: WaitFailure) -> McpErrorView {
    McpErrorView::Timeout(command.spec_awaited() + ": "@ + failure.spec_message())
}

/// What a request that could not be sent is reported as: a failure of the
/// host, with the host's word for it.
pub open spec fn spec_not_sent(command: BridgeCommand, why: Seq<char>) -> McpErrorView {
    McpErrorView::HostOperationFailed(
        "Failed to emit "@ + command.spec_request_event() + " event: "@ + why,
    )
}

/// The envelope that answers `command` once the wait for its reply has ended.
pub open spec fn spec_conclude(command: BridgeCommand, reply: ReplyView) -> ResponseView {
    match command {
        BridgeCommand::GetDom => match spec_get_dom_text(reply) {
            Ok(text) => ResponseView::ok(JsonView::Text(text)),
            Err(e) => ResponseView::fail(e.message()),
        },
        _ => match reply {
            ReplyView::Received { text, parsed } => match parsed {
                Ok(v) => spec_reported(v),
                Err(m) => ResponseView::fail(McpErrorView::MalformedResponsePayload(m).message()),
            },
            ReplyView::Failed(f) => ResponseView::fail(spec_timeout(command, f).message()),
            ReplyView::NotSent(why) => ResponseView::fail(spec_not_sent(command, why).message()),
        },
    }
}

/// Answers `command` once the wait for its reply has ended.
///
/// Whatever the reply, the answer is a well-formed envelope: a reply that
/// never came is reported as a timeout, one that cannot be read as malformed,
/// and a request that could not be sent as a failure of the host.
pub fn conclude(command: BridgeCommand, reply: Reply) -> (r: SocketResponse)
    ensures
        r@ == spec_conclude(command, reply@),
        r@.well_formed(),
{
    match command {
        BridgeCommand::GetDom => match get_dom_text(reply) {
            Ok(text) => SocketResponse::ok(Json::Text(text)),
            Err(e) => SocketResponse::fail(e.message()),
        },
        _ => match reply {
            Reply::Received { text, parsed } => match parsed {
                Ok(v) => reported(&v),
                Err(m) => SocketResponse::from_error(&McpError::MalformedResponsePayload(m)),
            },
            Reply::Failed(f) => {
                let cause = f.message();
                let what = join3(command.awaited(), ": ", cause.as_str());
                SocketResponse::from_error(&McpError::Timeout(what))
            },
            Reply::NotSent(why) => {
                let head = join3("Failed to emit ", command.request_event(), " event: ");
                let what = join2(head.as_str(), why.as_str());
                assert(what@ =~= spec_not_sent(command, why@)->HostOperationFailed_0);
                SocketResponse::from_error(&McpError::HostOperationFailed(what))
            },
        },
    }
}

} // verus!
