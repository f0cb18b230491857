use tauri_mcp::dispatch::{
    dispatch as dispatch_with_text, host_response, manage_window_response, mouse_movement_response, run_shared,
    text_input_response, Command, Dispatch, PONG,
};
use tauri_mcp::json::Json;
use tauri_mcp::response::SocketResponse;
use tauri_mcp::screenshot::ScreenshotParams;
use tauri_mcp::shared::{
    McpInterface, MouseMovementParams, MouseMovementResult, TextInputParams, TextInputResult,
    WindowManagerParams, WindowManagerResult,
};
use tauri_mcp::webview::{BridgeCommand, BridgeRequest};

fn obj(entries: Vec<(&str, Json)>) -> Json {
    Json::Object(entries.into_iter().map(|(k, v)| (k.to_string(), v)).collect())
}

fn text(s: &str) -> Json {
    Json::Text(s.to_string())
}

fn to_value(json: &Json) -> serde_json::Value {
    match json {
        Json::Null => serde_json::Value::Null,
        Json::Bool(b) => serde_json::Value::Bool(*b),
        Json::Int(n) => serde_json::Value::Number(serde_json::Number::from(*n as i64)),
        Json::Decimal(text) => serde_json::from_str(text).unwrap(),
        Json::Text(s) => serde_json::Value::String(s.clone()),
        Json::Array(items) => serde_json::Value::Array(items.iter().map(to_value).collect()),
        Json::Object(entries) => serde_json::Value::Object(
            entries.iter().map(|(k, v)| (k.clone(), to_value(v))).collect(),
        ),
    }
}

fn text_of(json: &Json) -> String {
    to_value(json).to_string()
}

fn dispatch(name: &str, payload: &Json) -> Dispatch {
    dispatch_with_text(name, payload, &text_of(payload))
}

struct Host {
    fail: bool,
}

impl McpInterface for Host {
    fn manage_window_shared(
        &self,
        params: WindowManagerParams,
    ) -> Result<WindowManagerResult, String> {
        if self.fail {
            Err(format!("cannot {}", params.operation))
        } else {
            Ok(WindowManagerResult { success: true, error: None })
        }
    }

    fn simulate_text_input_shared(&self, params: TextInputParams) -> Result<TextInputResult, String> {
        if self.fail {
            Err("no keyboard".to_string())
        } else {
            Ok(TextInputResult {
                success: true,
                chars_typed: params.text.chars().count() as u32,
                duration_ms: 1,
                error: None,
            })
        }
    }

    fn simulate_mouse_movement_shared(
        &self,
        params: MouseMovementParams,
    ) -> Result<MouseMovementResult, String> {
        if self.fail {
            Err("no mouse".to_string())
        } else {
            Ok(MouseMovementResult {
                success: true,
                duration_ms: 2,
                position: Some((params.x, params.y)),
                error: None,
            })
        }
    }
}

#[test]
fn command_names_round_trip() {
    let all = [
        Command::Ping,
        Command::GetDom,
        Command::ManageLocalStorage,
        Command::ExecuteJs,
        Command::ManageWindow,
        Command::SimulateTextInput,
        Command::SimulateMouseMovement,
        Command::GetElementPosition,
        Command::SendTextToElement,
        Command::TakeScreenshot,
    ];
    for c in all {
        assert_eq!(Command::named(c.name()), Some(c));
    }
    assert_eq!(Command::named("ping"), Some(Command::Ping));
    assert_eq!(Command::named("take_screenshot"), Some(Command::TakeScreenshot));
}

#[test]
fn command_names_are_case_sensitive() {
    assert_eq!(Command::named("Ping"), None);
    assert_eq!(Command::named("PING"), None);
    assert_eq!(Command::named("ping "), None);
    assert_eq!(Command::named(""), None);
    assert_eq!(Command::named("getDom"), None);
}

#[test]
fn ping_succeeds_whatever_the_payload() {
    assert_eq!(PONG, "pong");
    let expected = Dispatch::Respond(SocketResponse::ok(text("pong")));
    assert_eq!(dispatch("ping", &Json::Null), expected);
    assert_eq!(dispatch("ping", &obj(vec![("x", Json::Int(1))])), expected);
    assert_eq!(dispatch("ping", &text("anything")), expected);
}

#[test]
fn unknown_command_is_refused() {
    let expected = Dispatch::Respond(SocketResponse::fail("unknown command".to_string()));
    assert_eq!(dispatch("pong", &Json::Null), expected);
    assert_eq!(dispatch("", &Json::Null), expected);
    assert_eq!(dispatch("PING", &obj(vec![])), expected);
    assert_eq!(dispatch("shutdown", &text("now")), expected);
}

#[test]
fn manage_window_without_size_is_an_invalid_payload() {
    let p = obj(vec![("operation", text("setSize"))]);
    assert_eq!(
        dispatch("manage_window", &p),
        Dispatch::Respond(SocketResponse::fail(
            "Invalid payload for manage_window: the operation requires `width`".to_string()
        ))
    );
    let q = obj(vec![("operation", text("setPosition"))]);
    assert_eq!(
        dispatch("manage_window", &q),
        Dispatch::Respond(SocketResponse::fail(
            "Invalid payload for manage_window: the operation requires `x`".to_string()
        ))
    );
}

#[test]
fn manage_window_with_valid_payload_goes_to_the_host() {
    let p = obj(vec![
        ("operation", text("setSize")),
        ("width", Json::Int(640)),
        ("height", Json::Int(480)),
    ]);
    assert_eq!(
        dispatch("manage_window", &p),
        Dispatch::ManageWindow(WindowManagerParams {
            window_label: None,
            operation: "setSize".to_string(),
            x: None,
            y: None,
            width: Some(640),
            height: Some(480),
        })
    );
}

#[test]
fn host_commands_are_parsed() {
    assert_eq!(
        dispatch("simulate_text_input", &obj(vec![("text", text("hi"))])),
        Dispatch::TextInput(TextInputParams {
            text: "hi".to_string(),
            delay_ms: None,
            initial_delay_ms: None
        })
    );
    assert_eq!(
        dispatch("simulate_mouse_movement", &obj(vec![("x", Json::Int(1)), ("y", Json::Int(2))])),
        Dispatch::MouseMovement(MouseMovementParams {
            x: 1,
            y: 2,
            relative: None,
            click: None,
            button: None
        })
    );
    assert_eq!(
        dispatch("take_screenshot", &obj(vec![("quality", Json::Int(50))])),
        Dispatch::Screenshot(ScreenshotParams {
            window_label: None,
            application_name: None,
            quality: Some(50),
            max_width: None,
        })
    );
}

#[test]
fn invalid_payloads_name_command_and_field() {
    assert_eq!(
        dispatch("simulate_text_input", &obj(vec![])),
        Dispatch::Respond(SocketResponse::fail(
            "Invalid payload for simulate_text_input: missing field `text`".to_string()
        ))
    );
    assert_eq!(
        dispatch("simulate_mouse_movement", &obj(vec![("x", text("1")), ("y", Json::Int(2))])),
        Dispatch::Respond(SocketResponse::fail(
            "Invalid payload for simulate_mouse_movement: invalid type for field `x`".to_string()
        ))
    );
    assert_eq!(
        dispatch("take_screenshot", &Json::Null),
        Dispatch::Respond(SocketResponse::fail(
            "Invalid payload for take_screenshot: unexpected payload type".to_string()
        ))
    );
    assert_eq!(
        dispatch("get_dom", &Json::Int(5)),
        Dispatch::Respond(SocketResponse::fail(
            "Invalid payload format for getDom: expected string or object with window_label, got 5"
                .to_string()
        ))
    );
    assert_eq!(
        dispatch("get_element_position", &obj(vec![("window_label", text("main"))])),
        Dispatch::Respond(SocketResponse::fail(
            "Invalid payload for get_element_position: missing field `selector_type`".to_string()
        ))
    );
    assert_eq!(
        dispatch("send_text_to_element", &obj(vec![])),
        Dispatch::Respond(SocketResponse::fail(
            "Invalid payload for send_text_to_element: missing field `window_label`".to_string()
        ))
    );
}

#[test]
fn bridge_commands_become_requests() {
    assert_eq!(
        dispatch("get_dom", &text("main")),
        Dispatch::Ask(BridgeRequest {
            command: BridgeCommand::GetDom,
            window_label: "main".to_string(),
            body: text("test"),
        })
    );
    let p = obj(vec![
        ("window_label", text("main")),
        ("selector_type", text("id")),
        ("selector_value", text("x")),
        ("text", text("abc")),
        ("delay_ms", Json::Int(5)),
    ]);
    assert_eq!(
        dispatch("send_text_to_element", &p),
        Dispatch::Ask(BridgeRequest {
            command: BridgeCommand::SendTextToElement,
            window_label: "main".to_string(),
            body: obj(vec![
                ("selectorType", text("id")),
                ("selectorValue", text("x")),
                ("text", text("abc")),
                ("delayMs", Json::Int(5)),
            ]),
        })
    );
}

#[test]
fn free_form_commands_are_forwarded() {
    let payload = obj(vec![("script", text("1 + 1"))]);
    assert_eq!(
        dispatch("execute_js", &payload),
        Dispatch::Forward { command: Command::ExecuteJs, payload: payload.clone() }
    );
    assert_eq!(
        dispatch("manage_local_storage", &Json::Null),
        Dispatch::Forward { command: Command::ManageLocalStorage, payload: Json::Null }
    );
}

#[test]
fn host_results_are_wrapped() {
    assert_eq!(host_response(Ok(Json::Int(1))), SocketResponse::ok(Json::Int(1)));
    assert_eq!(host_response(Err("bad".to_string())), SocketResponse::fail("bad".to_string()));
    let done = WindowManagerResult { success: true, error: None };
    assert_eq!(manage_window_response(Ok(done.clone())), SocketResponse::ok(done.to_json()));
    assert_eq!(
        manage_window_response(Err("w".to_string())),
        SocketResponse::fail("w".to_string())
    );
    let typed = TextInputResult { success: true, chars_typed: 2, duration_ms: 40, error: None };
    assert_eq!(text_input_response(Ok(typed.clone())), SocketResponse::ok(typed.to_json()));
    assert_eq!(text_input_response(Err("t".to_string())), SocketResponse::fail("t".to_string()));
    let moved =
        MouseMovementResult { success: true, duration_ms: 1, position: Some((1, 2)), error: None };
    assert_eq!(mouse_movement_response(Ok(moved.clone())), SocketResponse::ok(moved.to_json()));
    assert_eq!(
        mouse_movement_response(Err("m".to_string())),
        SocketResponse::fail("m".to_string())
    );
}

#[test]
fn run_shared_asks_the_host() {
    let host = Host { fail: false };
    let step = dispatch("simulate_text_input", &obj(vec![("text", text("héllo"))]));
    let expected = TextInputResult { success: true, chars_typed: 5, duration_ms: 1, error: None };
    assert_eq!(run_shared(&host, step), Ok(SocketResponse::ok(expected.to_json())));
    let step = dispatch("simulate_mouse_movement", &obj(vec![("x", Json::Int(3)), ("y", Json::Int(4))]));
    let expected =
        MouseMovementResult { success: true, duration_ms: 2, position: Some((3, 4)), error: None };
    assert_eq!(run_shared(&host, step), Ok(SocketResponse::ok(expected.to_json())));
    let step = dispatch("manage_window", &obj(vec![("operation", text("focus"))]));
    let expected = WindowManagerResult { success: true, error: None };
    assert_eq!(run_shared(&host, step), Ok(SocketResponse::ok(expected.to_json())));
}

#[test]
fn run_shared_turns_host_failures_into_envelopes() {
    let host = Host { fail: true };
    let step = dispatch("manage_window", &obj(vec![("operation", text("close"))]));
    assert_eq!(run_shared(&host, step), Ok(SocketResponse::fail("cannot close".to_string())));
    let step = dispatch("simulate_text_input", &obj(vec![("text", text("a"))]));
    assert_eq!(run_shared(&host, step), Ok(SocketResponse::fail("no keyboard".to_string())));
}

#[test]
fn run_shared_hands_other_steps_back() {
    let host = Host { fail: false };
    let step = dispatch("ping", &Json::Null);
    assert_eq!(run_shared(&host, step), Err(dispatch("ping", &Json::Null)));
    let step = dispatch("get_dom", &text("main"));
    assert_eq!(run_shared(&host, step), Err(dispatch("get_dom", &text("main"))));
}

#[test]
fn get_dom_refuses_what_is_neither_string_nor_object() {
    let expect = |got: &str| {
        Dispatch::Respond(SocketResponse::fail(format!(
            "Invalid payload format for getDom: expected string or object with window_label, got {}",
            got
        )))
    };
    assert_eq!(dispatch("get_dom", &Json::Int(42)), expect("42"));
    assert_eq!(dispatch("get_dom", &Json::Null), expect("null"));
    assert_eq!(dispatch("get_dom", &Json::Bool(true)), expect("true"));
    assert_eq!(dispatch("get_dom", &Json::Decimal("1.5".to_string())), expect("1.5"));
    assert_eq!(
        dispatch("get_dom", &Json::Array(vec![text("main"), Json::Int(1)])),
        expect("[\"main\",1]")
    );
    assert_eq!(dispatch("get_dom", &Json::Int(-7)), expect("-7"));
    assert_eq!(dispatch_with_text("get_dom", &Json::Int(42), "forty-two"), expect("42"));
    assert_eq!(dispatch_with_text("get_dom", &Json::Null, ""), expect("null"));
    assert_eq!(
        dispatch_with_text("get_dom", &Json::Array(vec![Json::Int(1)]), "[ 1 ]"),
        expect("[ 1 ]")
    );
}

#[test]
fn get_dom_refuses_an_object_without_a_label() {
    let expected = Dispatch::Respond(SocketResponse::fail(
        "Missing or invalid window_label in payload object".to_string(),
    ));
    assert_eq!(dispatch("get_dom", &obj(vec![])), expected);
    assert_eq!(dispatch("get_dom", &obj(vec![("window_label", Json::Int(5))])), expected);
    assert_eq!(dispatch("get_dom", &obj(vec![("window_label", Json::Null)])), expected);
    assert_eq!(dispatch("get_dom", &obj(vec![("label", text("main"))])), expected);
}
