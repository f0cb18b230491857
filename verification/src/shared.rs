//! The parameters and results of the operations that the host application
//! carries out, and the interface through which it is asked to.

use crate::error::{PayloadProblem, PayloadProblemView};
use crate::json::{Json, JsonView};
use crate::payload::{
    optional_bool, optional_int, optional_text, required_int, required_text, spec_optional_bool,
    spec_optional_int, spec_optional_text, spec_required_int, spec_required_text, text_view,
};
use crate::text::str_same;
use vstd::prelude::*;

pub mod commands;

verus! {

/// A window operation and what it is to be applied to.
#[derive(Debug, Clone, PartialEq, Eq)]
pub struct WindowManagerParams {
    pub window_label: Option<String>,
    pub operation: String,
    pub x: Option<i32>,
    pub y: Option<i32>,
    pub width: Option<u32>,
    pub height: Option<u32>,
}

/// Mathematical form of [`WindowManagerParams`].
pub struct WindowManagerParamsView {
    pub window_label: Option<Seq<char>>,
    pub operation: Seq<char>,
    pub x: Option<int>,
    pub y: Option<int>,
    pub width: Option<int>,
    pub height: Option<int>,
}

/// The view of an optional 32-bit signed number.
pub open spec fn i32_view(n: Option<i32>) -> Option<int> {
    match n {
        Some(v) => Some(v as int),
        None => None,
    }
}

/// The view of an optional 32-bit unsigned number.
pub open spec fn u32_view(n: Option<u32>) -> Option<int> {
    match n {
        Some(v) => Some(v as int),
        None => None,
    }
}

/// The view of an optional 64-bit unsigned number.
pub open spec fn u64_view(n: Option<u64>) -> Option<int> {
    match n {
        Some(v) => Some(v as int),
        None => None,
    }
}

impl View for WindowManagerParams {
    type V = WindowManagerParamsView;

    open spec fn view(&self) -> WindowManagerParamsView {
        WindowManagerParamsView {
            window_label: text_view(self.window_label),
            operation: self.operation@,
            x: i32_view(self.x),
            y: i32_view(self.y),
            width: u32_view(self.width),
            height: u32_view(self.height),
        }
    }
}

impl WindowManagerParamsView {
    /// The first argument that the operation needs and the parameters lack:
    /// moving a window needs `x` and `y`, sizing it needs `width` and `height`.
    pub open spec fn missing_argument(self) -> Option<Seq<char>> {
        if self.operation == "setPosition"@ {
            if self.x is None {
                Some("x"@)
            } else if self.y is None {
                Some("y"@)
            } else {
                None
            }
        } else if self.operation == "setSize"@ {
            if self.width is None {
                Some("width"@)
            } else if self.height is None {
                Some("height"@)
            } else {
                None
            }
        } else {
            None
        }
    }

    /// The parameters that a payload stands for, or what is wrong with it.
    pub open spec fn from_payload(p: JsonView) -> Result<
        WindowManagerParamsView,
        PayloadProblemView,
    > {
        if !(p is Object) {
            Err(PayloadProblemView::WrongShape)
        } else {
            match spec_optional_text(p, "window_label"@) {
                Err(e) => Err(e),
                Ok(window_label) => match spec_required_text(p, "operation"@) {
                    Err(e) => Err(e),
                    Ok(operation) => match spec_optional_int(
                        p,
                        "x"@,
                        i32::MIN as int,
                        i32::MAX as int,
                    ) {
                        Err(e) => Err(e),
                        Ok(x) => match spec_optional_int(
                            p,
                            "y"@,
                            i32::MIN as int,
                            i32::MAX as int,
                        ) {
                            Err(e) => Err(e),
                            Ok(y) => match spec_optional_int(p, "width"@, 0, u32::MAX as int) {
                                Err(e) => Err(e),
                                Ok(width) => match spec_optional_int(
                                    p,
                                    "height"@,
                                    0,
                                    u32::MAX as int,
                                ) {
                                    Err(e) => Err(e),
                                    Ok(height) => {
                                        let params = WindowManagerParamsView {
                                            window_label,
                                            operation,
                                            x,
                                            y,
                                            width,
                                            height,
                                        };
                                        match params.missing_argument() {
                                            Some(field) => Err(
                                                PayloadProblemView::MissingArgument(field),
                                            ),
                                            None => Ok(params),
                                        }
                                    },
                                },
                            },
                        },
                    },
                },
            }
        }
    }
}

impl WindowManagerParams {
    /// The first argument that the operation needs and the parameters lack.
    pub fn missing_argument(&self) -> (r: Option<String>)
        ensures
            text_view(r) == self@.missing_argument(),
    {
        if str_same(self.operation.as_str(), "setPosition") {
            if self.x.is_none() {
                Some("x".to_owned())
            } else if self.y.is_none() {
                Some("y".to_owned())
            } else {
                None
            }
        } else if str_same(self.operation.as_str(), "setSize") {
            if self.width.is_none() {
                Some("width".to_owned())
            } else if self.height.is_none() {
                Some("height".to_owned())
            } else {
                None
            }
        } else {
            None
        }
    }

    /// Reads the parameters of a window operation from the payload of a
    /// command.
    pub fn from_payload(payload: &Json) -> (r: Result<WindowManagerParams, PayloadProblem>)
        ensures
            match r {
                Ok(p) => WindowManagerParamsView::from_payload(payload@) == Ok::<
                    WindowManagerParamsView,
                    PayloadProblemView,
                >(p@),
                Err(e) => WindowManagerParamsView::from_payload(payload@) == Err::<
                    WindowManagerParamsView,
                    PayloadProblemView,
                >(e@),
            },
    {
        if !payload.is_object() {
            return Err(PayloadProblem::WrongShape);
        }
        let window_label = optional_text(payload, "window_label")?;
        let operation = required_text(payload, "operation")?;
        let x = match optional_int(payload, "x", i32::MIN as i128, i32::MAX as i128)? {
            Some(n) => Some(n as i32),
            None => None,
        };
        let y = match optional_int(payload, "y", i32::MIN as i128, i32::MAX as i128)? {
            Some(n) => Some(n as i32),
            None => None,
        };
        let width = match optional_int(payload, "width", 0, u32::MAX as i128)? {
            Some(n) => Some(n as u32),
            None => None,
        };
        let height = match optional_int(payload, "height", 0, u32::MAX as i128)? {
            Some(n) => Some(n as u32),
            None => None,
        };
        let params = WindowManagerParams { window_label, operation, x, y, width, height };
        match params.missing_argument() {
            Some(field) => Err(PayloadProblem::MissingArgument(field)),
            None => Ok(params),
        }
    }
}

/// The outcome of a window operation.
#[derive(Debug, Clone, PartialEq, Eq)]
pub struct WindowManagerResult {
    pub success: bool,
    pub error: Option<String>,
}

/// Mathematical form of a [`WindowManagerResult`].
pub struct WindowManagerResultView {
    pub success: bool,
    pub error: Option<Seq<char>>,
}

impl View for WindowManagerResult {
    type V = WindowManagerResultView;

    open spec fn view(&self) -> WindowManagerResultView {
        WindowManagerResultView { success: self.success, error: text_view(self.error) }
    }
}

/// The JSON value of an optional text: the text, or `null`.
pub open spec fn text_or_null(t: Option<Seq<char>>) -> JsonView {
    match t {
        Some(s) => JsonView::Text(s),
        None => JsonView::Null,
    }
}

impl WindowManagerResultView {
    /// The JSON object that reports the outcome.
    pub open spec fn to_json(self) -> JsonView {
        JsonView::Object(
            seq![("success"@, JsonView::Bool(self.success)), ("error"@, text_or_null(self.error))],
        )
    }
}

impl WindowManagerResult {
    /// The JSON object that reports the outcome.
    pub fn to_json(&self) -> (r: Json)
        ensures
            r@ == self@.to_json(),
    {
        let mut entries: Vec<(String, Json)> = Vec::new();
        entries.push(("success".to_owned(), Json::Bool(self.success)));
        entries.push(("error".to_owned(), Json::text_or_null(&self.error)));
        let r = Json::object(entries);
        assert(r@->Object_0 =~= self@.to_json()->Object_0);
        r
    }
}

/// Text to type, and how fast.
#[derive(Debug, Clone, PartialEq, Eq)]
pub struct TextInputParams {
    pub text: String,
    pub delay_ms: Option<u64>,
    pub initial_delay_ms: Option<u64>,
}

/// Mathematical form of [`TextInputParams`].
pub struct TextInputParamsView {
    pub text: Seq<char>,
    pub delay_ms: Option<int>,
    pub initial_delay_ms: Option<int>,
}

impl View for TextInputParams {
    type V = TextInputParamsView;

    open spec fn view(&self) -> TextInputParamsView {
        TextInputParamsView {
            text: self.text@,
            delay_ms: u64_view(self.delay_ms),
            initial_delay_ms: u64_view(self.initial_delay_ms),
        }
    }
}

impl TextInputParamsView {
    /// The parameters that a payload stands for, or what is wrong with it.
    pub open spec fn from_payload(p: JsonView) -> Result<TextInputParamsView, PayloadProblemView> {
        if !(p is Object) {
            Err(PayloadProblemView::WrongShape)
        } else {
            match spec_required_text(p, "text"@) {
                Err(e) => Err(e),
                Ok(text) => match spec_optional_int(p, "delay_ms"@, 0, u64::MAX as int) {
                    Err(e) => Err(e),
                    Ok(delay_ms) => match spec_optional_int(
                        p,
                        "initial_delay_ms"@,
                        0,
                        u64::MAX as int,
                    ) {
                        Err(e) => Err(e),
                        Ok(initial_delay_ms) => Ok(
                            TextInputParamsView { text, delay_ms, initial_delay_ms },
                        ),
                    },
                },
            }
        }
    }
}

impl TextInputParams {
    /// Reads the parameters of a text input from the payload of a command.
    pub fn from_payload(payload: &Json) -> (r: Result<TextInputParams, PayloadProblem>)
        ensures
            match r {
                Ok(p) => TextInputParamsView::from_payload(payload@) == Ok::<
                    TextInputParamsView,
                    PayloadProblemView,
                >(p@),
                Err(e) => TextInputParamsView::from_payload(payload@) == Err::<
                    TextInputParamsView,
                    PayloadProblemView,
                >(e@),
            },
    {
        if !payload.is_object() {
            return Err(PayloadProblem::WrongShape);
        }
        let text = required_text(payload, "text")?;
        let delay_ms = match optional_int(payload, "delay_ms", 0, u64::MAX as i128)? {
            Some(n) => Some(n as u64),
            None => None,
        };
        let initial = optional_int(payload, "initial_delay_ms", 0, u64::MAX as i128)?;
        let initial_delay_ms = match initial {
            Some(n) => Some(n as u64),
            None => None,
        };
        Ok(TextInputParams { text, delay_ms, initial_delay_ms })
    }
}

/// The outcome of a text input.
#[derive(Debug, Clone, PartialEq, Eq)]
pub struct TextInputResult {
    pub success: bool,
    pub chars_typed: u32,
    pub duration_ms: u64,
    pub error: Option<String>,
}

/// Mathematical form of a [`TextInputResult`].
pub struct TextInputResultView {
    pub success: bool,
    pub chars_typed: int,
    pub duration_ms: int,
    pub error: Option<Seq<char>>,
}

impl View for TextInputResult {
    type V = TextInputResultView;

    open spec fn view(&self) -> TextInputResultView {
        TextInputResultView {
            success: self.success,
            chars_typed: self.chars_typed as int,
            duration_ms: self.duration_ms as int,
            error: text_view(self.error),
        }
    }
}

impl TextInputResultView {
    /// The JSON object that reports the outcome.
    pub open spec fn to_json(self) -> JsonView {
        JsonView::Object(
            seq![
                ("success"@, JsonView::Bool(self.success)),
                ("chars_typed"@, JsonView::Int(self.chars_typed)),
                ("duration_ms"@, JsonView::Int(self.duration_ms)),
                ("error"@, text_or_null(self.error)),
            ],
        )
    }
}

impl TextInputResult {
    /// The JSON object that reports the outcome.
    pub fn to_json(&self) -> (r: Json)
        ensures
            r@ == self@.to_json(),
    {
        let mut entries: Vec<(String, Json)> = Vec::new();
        entries.push(("success".to_owned(), Json::Bool(self.success)));
        entries.push(("chars_typed".to_owned(), Json::Int(self.chars_typed as i128)));
        entries.push(("duration_ms".to_owned(), Json::Int(self.duration_ms as i128)));
        entries.push(("error".to_owned(), Json::text_or_null(&self.error)));
        let r = Json::object(entries);
        assert(r@->Object_0 =~= self@.to_json()->Object_0);
        r
    }
}

/// Where to move the mouse, and whether to click there.
#[derive(Debug, Clone, PartialEq, Eq)]
pub struct MouseMovementParams {
    pub x: i32,
    pub y: i32,
    pub relative: Option<bool>,
    pub click: Option<bool>,
    /// `"left"`, `"right"` or `"middle"`.
    pub button: Option<String>,
}

/// Mathematical form of [`MouseMovementParams`].
pub struct MouseMovementParamsView {
    pub x: int,
    pub y: int,
    pub relative: Option<bool>,
    pub click: Option<bool>,
    pub button: Option<Seq<char>>,
}

impl View for MouseMovementParams {
    type V = MouseMovementParamsView;

    open spec fn view(&self) -> MouseMovementParamsView {
        MouseMovementParamsView {
            x: self.x as int,
            y: self.y as int,
            relative: self.relative,
            click: self.click,
            button: text_view(self.button),
        }
    }
}

impl MouseMovementParamsView {
    /// The parameters that a payload stands for, or what is wrong with it.
    pub open spec fn from_payload(p: JsonView) -> Result<
        MouseMovementParamsView,
        PayloadProblemView,
    > {
        if !(p is Object) {
            Err(PayloadProblemView::WrongShape)
        } else {
            match spec_required_int(p, "x"@, i32::MIN as int, i32::MAX as int) {
                Err(e) => Err(e),
                Ok(x) => match spec_required_int(p, "y"@, i32::MIN as int, i32::MAX as int) {
                    Err(e) => Err(e),
                    Ok(y) => match spec_optional_bool(p, "relative"@) {
                        Err(e) => Err(e),
                        Ok(relative) => match spec_optional_bool(p, "click"@) {
                            Err(e) => Err(e),
                            Ok(click) => match spec_optional_text(p, "button"@) {
                                Err(e) => Err(e),
                                Ok(button) => Ok(
                                    MouseMovementParamsView { x, y, relative, click, button },
                                ),
                            },
                        },
                    },
                },
            }
        }
    }
}

impl MouseMovementParams {
    /// Reads the parameters of a mouse movement from the payload of a command.
    pub fn from_payload(payload: &Json) -> (r: Result<MouseMovementParams, PayloadProblem>)
        ensures
            match r {
                Ok(p) => MouseMovementParamsView::from_payload(payload@) == Ok::<
                    MouseMovementParamsView,
                    PayloadProblemView,
                >(p@),
                Err(e) => MouseMovementParamsView::from_payload(payload@) == Err::<
                    MouseMovementParamsView,
                    PayloadProblemView,
                >(e@),
            },
    {
        if !payload.is_object() {
            return Err(PayloadProblem::WrongShape);
        }
        let x = required_int(payload, "x", i32::MIN as i128, i32::MAX as i128)? as i32;
        let y = required_int(payload, "y", i32::MIN as i128, i32::MAX as i128)? as i32;
        let relative = optional_bool(payload, "relative")?;
        let click = optional_bool(payload, "click")?;
        let button = optional_text(payload, "button")?;
        Ok(MouseMovementParams { x, y, relative, click, button })
    }
}

/// The outcome of a mouse movement.
#[derive(Debug, Clone, PartialEq, Eq)]
pub struct MouseMovementResult {
    pub success: bool,
    pub duration_ms: u64,
    pub position: Option<(i32, i32)>,
    pub error: Option<String>,
}

/// Mathematical form of a [`MouseMovementResult`].
pub struct MouseMovementResultView {
    pub success: bool,
    pub duration_ms: int,
    pub position: Option<(int, int)>,
    pub error: Option<Seq<char>>,
}

impl View for MouseMovementResult {
    type V = MouseMovementResultView;

    open spec fn view(&self) -> MouseMovementResultView {
        MouseMovementResultView {
            success: self.success,
            duration_ms: self.duration_ms as int,
            position: match self.position {
                Some((x, y)) => Some((x as int, y as int)),
                None => None,
            },
            error: text_view(self.error),
        }
    }
}

impl MouseMovementResultView {
    /// The JSON value of the position: the two coordinates, or `null`.
    pub open spec fn position_json(self) -> JsonView {
        match self.position {
            Some((x, y)) => JsonView::Array(seq![JsonView::Int(x), JsonView::Int(y)]),
            None => JsonView::Null,
        }
    }

    /// The JSON object that reports the outcome.
    pub open spec fn to_json(self) -> JsonView {
        JsonView::Object(
            seq![
                ("success"@, JsonView::Bool(self.success)),
                ("duration_ms"@, JsonView::Int(self.duration_ms)),
                ("position"@, self.position_json()),
                ("error"@, text_or_null(self.error)),
            ],
        )
    }
}

impl MouseMovementResult {
    /// The JSON object that reports the outcome.
    pub fn to_json(&self) -> (r: Json)
        ensures
            r@ == self@.to_json(),
    {
        let position = match self.position {
            Some((x, y)) => {
                let mut items: Vec<Json> = Vec::new();
                items.push(Json::Int(x as i128));
                items.push(Json::Int(y as i128));
                let a = Json::array(items);
                assert(a@->Array_0 =~= self@.position_json()->Array_0);
                a
            },
            None => Json::Null,
        };
        let mut entries: Vec<(String, Json)> = Vec::new();
        entries.push(("success".to_owned(), Json::Bool(self.success)));
        entries.push(("duration_ms".to_owned(), Json::Int(self.duration_ms as i128)));
        entries.push(("position".to_owned(), position));
        entries.push(("error".to_owned(), Json::text_or_null(&self.error)));
        let r = Json::object(entries);
        assert(r@->Object_0 =~= self@.to_json()->Object_0);
        r
    }
}

/// What the host application offers to both sides of the socket.
pub trait McpInterface {
    /// Carries out a window operation: resize, position, show, hide and the
    /// like.
    fn manage_window_shared(&self, params: WindowManagerParams) -> Result<
        WindowManagerResult,
        String,
    >;

    /// Types text as if from the keyboard.
    fn simulate_text_input_shared(&self, params: TextInputParams) -> Result<
        TextInputResult,
        String,
    >;

    /// Moves the mouse.
    fn simulate_mouse_movement_shared(&self, params: MouseMovementParams) -> Result<
        MouseMovementResult,
        String,
    >;
}

} // verus!
