//! The command dispatcher: from the name of a command and its payload to what
//! is to be done, and from what the host did to the envelope that answers.
//!
//! The dispatcher answers some commands itself: `ping`, every name it does not
//! know, and every command whose payload does not have the shape that the
//! command takes. For the others it says what the host is to do. It keeps no
//! state: what it decides depends on the one command alone.

use crate::error::{McpError, McpErrorView, PayloadProblemView};
use crate::json::{Json, JsonView};
use crate::payload::{is_absent, spec_optional_int, spec_optional_text, spec_required_text};
use crate::response::{ResponseView, SocketResponse};
use crate::screenshot::{ScreenshotParams, ScreenshotParamsView};
use crate::shared::commands::{
    EXECUTE_JS, GET_DOM, GET_ELEMENT_POSITION, MANAGE_LOCAL_STORAGE, MANAGE_WINDOW, PING,
    SEND_TEXT_TO_ELEMENT, SIMULATE_MOUSE_MOVEMENT, SIMULATE_TEXT_INPUT, TAKE_SCREENSHOT,
};
use crate::shared::{
    McpInterface, MouseMovementParams, MouseMovementParamsView, MouseMovementResult,
    MouseMovementResultView, TextInputParams, TextInputParamsView, TextInputResult,
    TextInputResultView, WindowManagerParams, WindowManagerParamsView, WindowManagerResult,
    WindowManagerResultView,
};
use crate::text::str_same;
use crate::webview::{plan, spec_plan, BridgeCommand, BridgeRequest, BridgeRequestView};
use vstd::prelude::*;

verus! {

/// The commands that the server knows.
#[derive(Debug, Clone, Copy, PartialEq, Eq, Structural)]
pub enum Command {
    Ping,
    GetDom,
    ManageLocalStorage,
    ExecuteJs,
    ManageWindow,
    SimulateTextInput,
    SimulateMouseMovement,
    GetElementPosition,
    SendTextToElement,
    TakeScreenshot,
}

impl Command {
    /// The name of the command on the wire.
    pub open spec fn spec_name(self) -> Seq<char> {
        match self {
            Command::Ping => PING@,
            Command::GetDom => GET_DOM@,
            Command::ManageLocalStorage => MANAGE_LOCAL_STORAGE@,
            Command::ExecuteJs => EXECUTE_JS@,
            Command::ManageWindow => MANAGE_WINDOW@,
            Command::SimulateTextInput => SIMULATE_TEXT_INPUT@,
            Command::SimulateMouseMovement => SIMULATE_MOUSE_MOVEMENT@,
            Command::GetElementPosition => GET_ELEMENT_POSITION@,
            Command::SendTextToElement => SEND_TEXT_TO_ELEMENT@,
            Command::TakeScreenshot => TAKE_SCREENSHOT@,
        }
    }

    /// The command with the given name. Names are matched letter for letter.
    pub open spec fn spec_named(name: Seq<char>) -> Option<Command> {
        if name == PING@ {
            Some(Command::Ping)
        } else if name == GET_DOM@ {
            Some(Command::GetDom)
        } else if name == MANAGE_LOCAL_STORAGE@ {
            Some(Command::ManageLocalStorage)
        } else if name == EXECUTE_JS@ {
            Some(Command::ExecuteJs)
        } else if name == MANAGE_WINDOW@ {
            Some(Command::ManageWindow)
        } else if name == SIMULATE_TEXT_INPUT@ {
            Some(Command::SimulateTextInput)
        } else if name == SIMULATE_MOUSE_MOVEMENT@ {
            Some(Command::SimulateMouseMovement)
        } else if name == GET_ELEMENT_POSITION@ {
            Some(Command::GetElementPosition)
        } else if name == SEND_TEXT_TO_ELEMENT@ {
            Some(Command::SendTextToElement)
        } else if name == TAKE_SCREENSHOT@ {
            Some(Command::TakeScreenshot)
        } else {
            None
        }
    }

    /// The name of the command on the wire.
    pub fn name(&self) -> (r: &'static str)
        ensures
            r@ == self.spec_name(),
    {
        match self {
            Command::Ping => PING,
            Command::GetDom => GET_DOM,
            Command::ManageLocalStorage => MANAGE_LOCAL_STORAGE,
            Command::ExecuteJs => EXECUTE_JS,
            Command::ManageWindow => MANAGE_WINDOW,
            Command::SimulateTextInput => SIMULATE_TEXT_INPUT,
            Command::SimulateMouseMovement => SIMULATE_MOUSE_MOVEMENT,
            Command::GetElementPosition => GET_ELEMENT_POSITION,
            Command::SendTextToElement => SEND_TEXT_TO_ELEMENT,
            Command::TakeScreenshot => TAKE_SCREENSHOT,
        }
    }

    /// The command with the given name.
    pub fn named(name: &str) -> (r: Option<Command>)
        ensures
            r == Command::spec_named(name@),
    {
        if str_same(name, PING) {
            Some(Command::Ping)
        } else if str_same(name, GET_DOM) {
            Some(Command::GetDom)
        } else if str_same(name, MANAGE_LOCAL_STORAGE) {
            Some(Command::ManageLocalStorage)
        } else if str_same(name, EXECUTE_JS) {
            Some(Command::ExecuteJs)
        } else if str_same(name, MANAGE_WINDOW) {
            Some(Command::ManageWindow)
        } else if str_same(name, SIMULATE_TEXT_INPUT) {
            Some(Command::SimulateTextInput)
        } else if str_same(name, SIMULATE_MOUSE_MOVEMENT) {
            Some(Command::SimulateMouseMovement)
        } else if str_same(name, GET_ELEMENT_POSITION) {
            Some(Command::GetElementPosition)
        } else if str_same(name, SEND_TEXT_TO_ELEMENT) {
            Some(Command::SendTextToElement)
        } else if str_same(name, TAKE_SCREENSHOT) {
            Some(Command::TakeScreenshot)
        } else {
            None
        }
    }
}

/// What is to be done for a command.
#[derive(Debug, PartialEq, Eq)]
pub enum Dispatch {
    /// Nothing: this is the answer.
    Respond(SocketResponse),
    /// The host is to carry out a window operation.
    ManageWindow(WindowManagerParams),
    /// The host is to type text.
    TextInput(TextInputParams),
    /// The host is to move the mouse.
    MouseMovement(MouseMovementParams),
    /// A window is to be asked, and its reply event waited for.
    Ask(BridgeRequest),
    /// A screenshot is to be taken.
    Screenshot(ScreenshotParams),
    /// The host is to handle the command with its payload as it stands.
    Forward { command: Command, payload: Json },
}

/// Mathematical form of a [`Dispatch`].
pub enum DispatchView {
    Respond(ResponseView),
    ManageWindow(WindowManagerParamsView),
    TextInput(TextInputParamsView),
    MouseMovement(MouseMovementParamsView),
    Ask(BridgeRequestView),
    Screenshot(ScreenshotParamsView),
    Forward { command: Command, payload: JsonView },
}

impl View for Dispatch {
    type V = DispatchView;

    open spec fn view(&self) -> DispatchView {
        match self {
            Dispatch::Respond(r) => DispatchView::Respond(r@),
            Dispatch::ManageWindow(p) => DispatchView::ManageWindow(p@),
            Dispatch::TextInput(p) => DispatchView::TextInput(p@),
            Dispatch::MouseMovement(p) => DispatchView::MouseMovement(p@),
            Dispatch::Ask(p) => DispatchView::Ask(p@),
            Dispatch::Screenshot(p) => DispatchView::Screenshot(p@),
            Dispatch::Forward { command, payload } => DispatchView::Forward {
                command: *command,
                payload: payload@,
            },
        }
    }
}

/// The data of the answer to `ping`.
pub const PONG: &'static str = "pong";

/// The answer to a command that fails with `error`.
pub open spec fn spec_refuse(error: McpErrorView) -> DispatchView {
    DispatchView::Respond(ResponseView::fail(error.message()))
}

/// A `get_dom` whose payload is neither a string nor an object, or an object
/// without a string under `window_label`, is refused with a text that says so:
/// no window is looked for, nothing is sent and nothing is listened for. The
/// text quotes the payload; only for an array does the quotation come from
/// outside.
pub proof fn lemma_get_dom_payload_is_checked_first(payload: JsonView, text: Seq<char>)
    ensures
        !(payload is Text) && !(payload is Object) ==> spec_dispatch(GET_DOM@, payload, text)
            == DispatchView::Respond(
            ResponseView::fail(
                "Invalid payload format for getDom: expected string or object with window_label, got "@
                    + payload.quoted_text(text),
            ),
        ),
        payload is Array ==> payload.quoted_text(text) == text,
        !(payload is Array) && !(payload is Text) && !(payload is Object)
            ==> payload.quoted_text(text) == payload.plain_text()->0,
        payload is Object && !(payload.field("window_label"@) matches Some(JsonView::Text(_)))
            ==> spec_dispatch(GET_DOM@, payload, text) == DispatchView::Respond(
            ResponseView::fail("Missing or invalid window_label in payload object"@),
        ),
{
    lemma_names_differ();
    assert(Command::spec_named(Command::GetDom.spec_name()) == Some(Command::GetDom));
    assert("Missing or invalid "@ + "window_label"@ + " in payload object"@
        =~= "Missing or invalid window_label in payload object"@) by {
        reveal_strlit("Missing or invalid ");
        reveal_strlit("window_label");
        reveal_strlit(" in payload object");
        reveal_strlit("Missing or invalid window_label in payload object");
    }
}

/// The answer to `command` over a payload with the given problem.
pub open spec fn spec_invalid(command: Command, problem: PayloadProblemView) -> DispatchView {
    spec_refuse(McpErrorView::InvalidPayload { command: command.spec_name(), problem })
}

/// What is to be done for the command `name` with `payload`. `text` is the
/// payload as JSON.
pub open spec fn spec_dispatch(
    name: Seq<char>,
    payload: JsonView,
    text: Seq<char>,
) -> DispatchView {
    match Command::spec_named(name) {
        None => spec_refuse(McpErrorView::UnknownCommand),
        Some(command) => match command {
            Command::Ping => DispatchView::Respond(ResponseView::ok(JsonView::Text(PONG@))),
            Command::GetDom => match spec_plan(BridgeCommand::GetDom, payload, text) {
                Ok(request) => DispatchView::Ask(request),
                Err(e) => spec_refuse(e),
            },
            Command::GetElementPosition => match spec_plan(
                BridgeCommand::GetElementPosition,
                payload,
                text,
            ) {
                Ok(request) => DispatchView::Ask(request),
                Err(e) => spec_refuse(e),
            },
            Command::SendTextToElement => match spec_plan(
                BridgeCommand::SendTextToElement,
                payload,
                text,
            ) {
                Ok(request) => DispatchView::Ask(request),
                Err(e) => spec_refuse(e),
            },
            Command::ManageWindow => match WindowManagerParamsView::from_payload(payload) {
                Ok(params) => DispatchView::ManageWindow(params),
                Err(problem) => spec_invalid(command, problem),
            },
            Command::SimulateTextInput => match TextInputParamsView::from_payload(payload) {
                Ok(params) => DispatchView::TextInput(params),
                Err(problem) => spec_invalid(command, problem),
            },
            Command::SimulateMouseMovement => match MouseMovementParamsView::from_payload(
                payload,
            ) {
                Ok(params) => DispatchView::MouseMovement(params),
                Err(problem) => spec_invalid(command, problem),
            },
            Command::TakeScreenshot => match ScreenshotParamsView::from_payload(payload) {
                Ok(params) => DispatchView::Screenshot(params),
                Err(problem) => spec_invalid(command, problem),
            },
            Command::ManageLocalStorage => DispatchView::Forward { command, payload },
            Command::ExecuteJs => DispatchView::Forward { command, payload },
        },
    }
}

/// The answer to a command that fails with `error`.
fn refuse(error: McpError) -> (r: Dispatch)
    ensures
        r@ == spec_refuse(error@),
        r matches Dispatch::Respond(response) && response@.well_formed(),
{
    Dispatch::Respond(SocketResponse::from_error(&error))
}

/// Decides what is to be done for the command `name` with `payload`.
///
/// `payload_text` is the payload as JSON, as the parser that read the request
/// writes it; it is quoted where `get_dom` is given an array. Every name and
/// every payload has an outcome; an answer given here is a well-formed
/// envelope.
pub fn dispatch(name: &str, payload: &Json, payload_text: &str) -> (r: Dispatch)
    ensures
        r@ == spec_dispatch(name@, payload@, payload_text@),
        r matches Dispatch::Respond(response) ==> response@.well_formed(),
{
    let command = match Command::named(name) {
        Some(command) => command,
        None => {
            return refuse(McpError::UnknownCommand);
        },
    };
    match command {
        Command::Ping => Dispatch::Respond(SocketResponse::ok(Json::text(PONG))),
        Command::GetDom => match plan(BridgeCommand::GetDom, payload, payload_text) {
            Ok(request) => Dispatch::Ask(request),
            Err(e) => refuse(e),
        },
        Command::GetElementPosition => match plan(
            BridgeCommand::GetElementPosition,
            payload,
            payload_text,
        ) {
            Ok(request) => Dispatch::Ask(request),
            Err(e) => refuse(e),
        },
        Command::SendTextToElement => match plan(
            BridgeCommand::SendTextToElement,
            payload,
            payload_text,
        ) {
            Ok(request) => Dispatch::Ask(request),
            Err(e) => refuse(e),
        },
        Command::ManageWindow => match WindowManagerParams::from_payload(payload) {
            Ok(params) => Dispatch::ManageWindow(params),
            Err(problem) => refuse(McpError::invalid_payload(command.name(), problem)),
        },
        Command::SimulateTextInput => match TextInputParams::from_payload(payload) {
            Ok(params) => Dispatch::TextInput(params),
            Err(problem) => refuse(McpError::invalid_payload(command.name(), problem)),
        },
        Command::SimulateMouseMovement => match MouseMovementParams::from_payload(payload) {
            Ok(params) => Dispatch::MouseMovement(params),
            Err(problem) => refuse(McpError::invalid_payload(command.name(), problem)),
        },
        Command::TakeScreenshot => match ScreenshotParams::from_payload(payload) {
            Ok(params) => Dispatch::Screenshot(params),
            Err(problem) => refuse(McpError::invalid_payload(command.name(), problem)),
        },
        Command::ManageLocalStorage => Dispatch::Forward { command, payload: payload.duplicate() },
        Command::ExecuteJs => Dispatch::Forward { command, payload: payload.duplicate() },
    }
}

/// The envelope for what the host made of a command: its data on success, its
/// words on failure.
pub open spec fn spec_host_response(result: Result<JsonView, Seq<char>>) -> ResponseView {
    match result {
        Ok(data) => ResponseView::ok(data),
        Err(message) => ResponseView::fail(McpErrorView::HostOperationFailed(message).message()),
    }
}

/// Wraps what the host made of a command in the envelope that answers it.
pub fn host_response(result: Result<Json, String>) -> (r: SocketResponse)
    ensures
        r@ == spec_host_response(
            match result {
                Ok(data) => Ok(data@),
                Err(message) => Err(message@),
            },
        ),
        r@.well_formed(),
{
    match result {
        Ok(data) => SocketResponse::ok(data),
        Err(message) => SocketResponse::from_error(&McpError::HostOperationFailed(message)),
    }
}

/// The envelope for the outcome of a window operation.
pub open spec fn spec_manage_window_response(
    result: Result<WindowManagerResultView, Seq<char>>,
) -> ResponseView {
    spec_host_response(
        match result {
            Ok(done) => Ok(done.to_json()),
            Err(message) => Err(message),
        },
    )
}

/// Wraps the outcome of a window operation in the envelope that answers the
/// command.
pub fn manage_window_response(result: Result<WindowManagerResult, String>) -> (r: SocketResponse)
    ensures
        r@ == spec_manage_window_response(
            match result {
                Ok(done) => Ok(done@),
                Err(message) => Err(message@),
            },
        ),
        r@.well_formed(),
{
    match result {
        Ok(done) => host_response(Ok(done.to_json())),
        Err(message) => host_response(Err(message)),
    }
}

/// The envelope for the outcome of a text input.
pub open spec fn spec_text_input_response(
    result: Result<TextInputResultView, Seq<char>>,
) -> ResponseView {
    spec_host_response(
        match result {
            Ok(done) => Ok(done.to_json()),
            Err(message) => Err(message),
        },
    )
}

/// Wraps the outcome of a text input in the envelope that answers the command.
pub fn text_input_response(result: Result<TextInputResult, String>) -> (r: SocketResponse)
    ensures
        r@ == spec_text_input_response(
            match result {
                Ok(done) => Ok(done@),
                Err(message) => Err(message@),
            },
        ),
        r@.well_formed(),
{
    match result {
        Ok(done) => host_response(Ok(done.to_json())),
        Err(message) => host_response(Err(message)),
    }
}

/// The envelope for the outcome of a mouse movement.
pub open spec fn spec_mouse_movement_response(
    result: Result<MouseMovementResultView, Seq<char>>,
) -> ResponseView {
    spec_host_response(
        match result {
            Ok(done) => Ok(done.to_json()),
            Err(message) => Err(message),
        },
    )
}

/// Wraps the outcome of a mouse movement in the envelope that answers the
/// command.
pub fn mouse_movement_response(result: Result<MouseMovementResult, String>) -> (r: SocketResponse)
    ensures
        r@ == spec_mouse_movement_response(
            match result {
                Ok(done) => Ok(done@),
                Err(message) => Err(message@),
            },
        ),
        r@.well_formed(),
{
    match result {
        Ok(done) => host_response(Ok(done.to_json())),
        Err(message) => host_response(Err(message)),
    }
}

/// Whether the step is one that a host carries out through [`McpInterface`].
pub open spec fn is_shared(step: DispatchView) -> bool {
    step is ManageWindow || step is TextInput || step is MouseMovement
}

/// Has `host` carry out `step` where that is one of the three operations of
/// [`McpInterface`], and answers with what the host made of it. Any other step
/// is handed back as it came.
///
/// What the host returns is its own affair; the answer wraps it, whatever it
/// is, in a well-formed envelope.
pub fn run_shared<H: McpInterface>(host: &H, step: Dispatch) -> (r: Result<
    SocketResponse,
    Dispatch,
>)
    ensures
        r is Ok <==> is_shared(step@),
        r matches Err(back) ==> back == step,
        r matches Ok(response) ==> response@.well_formed(),
        r matches Ok(response) ==> match step@ {
            DispatchView::ManageWindow(_) => exists|
                result: Result<WindowManagerResultView, Seq<char>>,
            | response@ == spec_manage_window_response(result),
            DispatchView::TextInput(_) => exists|
                result: Result<TextInputResultView, Seq<char>>,
            | response@ == spec_text_input_response(result),
            DispatchView::MouseMovement(_) => exists|
                result: Result<MouseMovementResultView, Seq<char>>,
            | response@ == spec_mouse_movement_response(result),
            _ => false,
        },
{
    match step {
        Dispatch::ManageWindow(params) => {
            let result = host.manage_window_shared(params);
            let response = manage_window_response(result);
            Ok(response)
        },
        Dispatch::TextInput(params) => {
            let result = host.simulate_text_input_shared(params);
            let response = text_input_response(result);
            Ok(response)
        },
        Dispatch::MouseMovement(params) => {
            let result = host.simulate_mouse_movement_shared(params);
            let response = mouse_movement_response(result);
            Ok(response)
        },
        other => Err(other),
    }
}

/// `ping` succeeds whatever its payload.
pub proof fn lemma_ping_succeeds(payload: JsonView, text: Seq<char>)
    ensures
        spec_dispatch(PING@, payload, text) == DispatchView::Respond(
            ResponseView::ok(JsonView::Text(PONG@)),
        ),
{
}

/// A name that is none of the command names is answered with the failure
/// `unknown command`, whatever the payload.
pub proof fn lemma_unknown_command_is_refused(name: Seq<char>, payload: JsonView, text: Seq<char>)
    requires
        Command::spec_named(name) is None,
    ensures
        spec_dispatch(name, payload, text) == DispatchView::Respond(
            ResponseView::fail("unknown command"@),
        ),
{
}

/// A window operation that needs a size and is given neither width nor height
/// is refused as an invalid payload: the host is not asked.
pub proof fn lemma_resize_without_size_is_invalid(payload: JsonView, text: Seq<char>)
    requires
        payload is Object,
        spec_optional_text(payload, "window_label"@) is Ok,
        spec_required_text(payload, "operation"@) == Ok::<Seq<char>, PayloadProblemView>(
            "setSize"@,
        ),
        spec_optional_int(payload, "x"@, i32::MIN as int, i32::MAX as int) is Ok,
        spec_optional_int(payload, "y"@, i32::MIN as int, i32::MAX as int) is Ok,
        is_absent(payload, "width"@),
        is_absent(payload, "height"@),
    ensures
        spec_dispatch(MANAGE_WINDOW@, payload, text) == spec_invalid(
            Command::ManageWindow,
            PayloadProblemView::MissingArgument("width"@),
        ),
{
    reveal_strlit("setSize");
    reveal_strlit("setPosition");
    assert("setSize"@.len() != "setPosition"@.len());
    lemma_names_differ();
    assert(Command::spec_named(Command::ManageWindow.spec_name()) == Some(Command::ManageWindow));
}

/// A window operation that reaches the host has the arguments it needs:
/// whatever the payload, a move comes with both coordinates and a resize with
/// both sides.
pub proof fn lemma_host_gets_the_arguments(payload: JsonView, text: Seq<char>)
    ensures
        spec_dispatch(MANAGE_WINDOW@, payload, text) matches DispatchView::ManageWindow(
            params,
        ) ==> {
            &&& params.missing_argument() is None
            &&& params.operation == "setSize"@ ==> params.width is Some && params.height is Some
            &&& params.operation == "setPosition"@ ==> params.x is Some && params.y is Some
        },
{
    reveal_strlit("setSize");
    reveal_strlit("setPosition");
    assert("setSize"@.len() != "setPosition"@.len());
    lemma_names_differ();
    assert(Command::spec_named(Command::ManageWindow.spec_name()) == Some(Command::ManageWindow));
}

/// The command names differ from one another: every command is found again
/// under its name.
pub proof fn lemma_names_differ()
    ensures
        forall|c: Command| Command::spec_named(#[trigger] c.spec_name()) == Some(c),
{
    reveal_strlit("ping");
    reveal_strlit("get_dom");
    reveal_strlit("manage_local_storage");
    reveal_strlit("execute_js");
    reveal_strlit("manage_window");
    reveal_strlit("simulate_text_input");
    reveal_strlit("simulate_mouse_movement");
    reveal_strlit("get_element_position");
    reveal_strlit("send_text_to_element");
    reveal_strlit("take_screenshot");
    assert forall|c: Command| Command::spec_named(#[trigger] c.spec_name()) == Some(c) by {
        let n = c.spec_name();
        assert(n.len() == PING@.len() ==> c == Command::Ping);
        assert(n.len() == GET_DOM@.len() ==> c == Command::GetDom);
        assert(n.len() == EXECUTE_JS@.len() ==> c == Command::ExecuteJs);
        assert(n.len() == MANAGE_WINDOW@.len() ==> c == Command::ManageWindow);
        assert(n.len() == SIMULATE_TEXT_INPUT@.len() ==> c == Command::SimulateTextInput);
        assert(n.len() == SIMULATE_MOUSE_MOVEMENT@.len() ==> c == Command::SimulateMouseMovement);
        assert(n.len() == TAKE_SCREENSHOT@.len() ==> c == Command::TakeScreenshot);
        assert(MANAGE_LOCAL_STORAGE@[0] == 'm');
        assert(GET_ELEMENT_POSITION@[0] == 'g');
        assert(SEND_TEXT_TO_ELEMENT@[0] == 's');
    }
}

} // verus!
