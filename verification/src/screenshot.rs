//! The screenshot pipeline.
//!
//! A screenshot is tried in up to three ways, best first: the pixels of the
//! window as the system shows it; the content of the window as it draws
//! itself; a placeholder. Whatever is obtained goes through the image
//! processor. The pipeline is a state machine: it is told what happened and
//! answers with what is to be done next, until it hands out the result.

use crate::error::{McpError, McpErrorView, PayloadProblem, PayloadProblemView};
use crate::json::{Json, JsonView};
use crate::payload::{optional_int, optional_text, spec_optional_int, spec_optional_text, text_view};
use crate::placeholder::{placeholder, spec_placeholder, Shade};
use crate::response::{ResponseView, SocketResponse};
use crate::processor::{
    lemma_target_size_bounds, process_image, spec_obstacle, spec_process, spec_processed,
    ProcessedView, RawImage, RawImageView,
};
use crate::script::{render_script, render_script_text, RETRIEVE_SCRIPT};
use crate::text::{contains_text, str_contains};
use crate::window_match::{find_window, selected_window, WindowInfo, WindowView};
use vstd::prelude::*;

verus! {

/// The quality where the request names none.
pub const DEFAULT_QUALITY: u8 = 85;

/// The largest width where the request names none.
pub const DEFAULT_MAX_WIDTH: u32 = 1920;

/// The label of the window where the request names none.
pub const DEFAULT_WINDOW_LABEL: &'static str = "main";

/// What a screenshot request asks for.
#[derive(Debug, Clone, PartialEq, Eq)]
pub struct ScreenshotParams {
    pub window_label: Option<String>,
    pub application_name: Option<String>,
    pub quality: Option<u8>,
    pub max_width: Option<u32>,
}

/// Mathematical form of [`ScreenshotParams`].
pub struct ScreenshotParamsView {
    pub window_label: Option<Seq<char>>,
    pub application_name: Option<Seq<char>>,
    pub quality: Option<int>,
    pub max_width: Option<int>,
}

impl View for ScreenshotParams {
    type V = ScreenshotParamsView;

    open spec fn view(&self) -> ScreenshotParamsView {
        ScreenshotParamsView {
            window_label: text_view(self.window_label),
            application_name: text_view(self.application_name),
            quality: match self.quality {
                Some(q) => Some(q as int),
                None => None,
            },
            max_width: match self.max_width {
                Some(w) => Some(w as int),
                None => None,
            },
        }
    }
}

impl ScreenshotParamsView {
    /// The parameters that a payload stands for, or what is wrong with it.
    pub open spec fn from_payload(p: JsonView) -> Result<ScreenshotParamsView, PayloadProblemView> {
        if !(p is Object) {
            Err(PayloadProblemView::WrongShape)
        } else {
            match spec_optional_text(p, "window_label"@) {
                Err(e) => Err(e),
                Ok(window_label) => match spec_optional_text(p, "application_name"@) {
                    Err(e) => Err(e),
                    Ok(application_name) => match spec_optional_int(
                        p,
                        "quality"@,
                        0,
                        u8::MAX as int,
                    ) {
                        Err(e) => Err(e),
                        Ok(quality) => match spec_optional_int(
                            p,
                            "max_width"@,
                            0,
                            u32::MAX as int,
                        ) {
                            Err(e) => Err(e),
                            Ok(max_width) => Ok(
                                ScreenshotParamsView {
                                    window_label,
                                    application_name,
                                    quality,
                                    max_width,
                                },
                            ),
                        },
                    },
                },
            }
        }
    }

    /// The quality to encode at: the requested one, or the default, and never
    /// more than 100.
    pub open spec fn effective_quality(self) -> int {
        let q = match self.quality {
            Some(q) => q,
            None => DEFAULT_QUALITY as int,
        };
        if q > 100 {
            100
        } else {
            q
        }
    }

    /// The largest width of the result: the requested one, or the default, and
    /// never less than one.
    pub open spec fn effective_max_width(self) -> int {
        let w = match self.max_width {
            Some(w) => w,
            None => DEFAULT_MAX_WIDTH as int,
        };
        if w < 1 {
            1
        } else {
            w
        }
    }

    /// The application to look for; empty when the request names none.
    pub open spec fn application(self) -> Seq<char> {
        match self.application_name {
            Some(a) => a,
            None => Seq::<char>::empty(),
        }
    }

    /// The label of the window to capture.
    pub open spec fn label(self) -> Seq<char> {
        match self.window_label {
            Some(l) => l,
            None => DEFAULT_WINDOW_LABEL@,
        }
    }
}

impl ScreenshotParams {
    /// Reads the parameters of a screenshot from the payload of a command.
    pub fn from_payload(payload: &Json) -> (r: Result<ScreenshotParams, PayloadProblem>)
        ensures
            match r {
                Ok(p) => ScreenshotParamsView::from_payload(payload@) == Ok::<
                    ScreenshotParamsView,
                    PayloadProblemView,
                >(p@),
                Err(e) => ScreenshotParamsView::from_payload(payload@) == Err::<
                    ScreenshotParamsView,
                    PayloadProblemView,
                >(e@),
            },
    {
        if !payload.is_object() {
            return Err(PayloadProblem::WrongShape);
        }
        let window_label = optional_text(payload, "window_label")?;
        let application_name = optional_text(payload, "application_name")?;
        let quality = match optional_int(payload, "quality", 0, u8::MAX as i128)? {
            Some(n) => Some(n as u8),
            None => None,
        };
        let max_width = match optional_int(payload, "max_width", 0, u32::MAX as i128)? {
            Some(n) => Some(n as u32),
            None => None,
        };
        Ok(ScreenshotParams { window_label, application_name, quality, max_width })
    }

    /// The quality to encode at.
    pub fn effective_quality(&self) -> (r: u8)
        ensures
            r == self@.effective_quality(),
            r <= 100,
    {
        let q = match self.quality {
            Some(q) => q,
            None => DEFAULT_QUALITY,
        };
        if q > 100 {
            100
        } else {
            q
        }
    }

    /// The largest width of the result.
    pub fn effective_max_width(&self) -> (r: u32)
        ensures
            r == self@.effective_max_width(),
            r >= 1,
    {
        let w = match self.max_width {
            Some(w) => w,
            None => DEFAULT_MAX_WIDTH,
        };
        if w < 1 {
            1
        } else {
            w
        }
    }

    /// The application to look for; empty when the request names none.
    pub fn application(&self) -> (r: String)
        ensures
            r@ == self@.application(),
    {
        match &self.application_name {
            Some(a) => a.clone(),
            None => String::new(),
        }
    }

    /// The label of the window to capture.
    pub fn label(&self) -> (r: String)
        ensures
            r@ == self@.label(),
    {
        match &self.window_label {
            Some(l) => l.clone(),
            None => DEFAULT_WINDOW_LABEL.to_owned(),
        }
    }
}

/// A finished screenshot.
#[derive(Debug, Clone, PartialEq, Eq)]
pub struct ScreenshotResult {
    pub image_data_url: String,
    pub width: u32,
    pub height: u32,
    /// Whether the image shows the pixels of the window itself. Where it does
    /// not, the image is a placeholder.
    pub true_pixels: bool,
}

/// Mathematical form of a [`ScreenshotResult`].
pub struct ScreenshotResultView {
    pub image_data_url: Seq<char>,
    pub width: int,
    pub height: int,
    pub true_pixels: bool,
}

impl View for ScreenshotResult {
    type V = ScreenshotResultView;

    open spec fn view(&self) -> ScreenshotResultView {
        ScreenshotResultView {
            image_data_url: self.image_data_url@,
            width: self.width as int,
            height: self.height as int,
            true_pixels: self.true_pixels,
        }
    }
}

impl ScreenshotResultView {
    /// The JSON object that carries the screenshot.
    pub open spec fn to_json(self) -> JsonView {
        JsonView::Object(
            seq![
                ("image_data_url"@, JsonView::Text(self.image_data_url)),
                ("width"@, JsonView::Int(self.width)),
                ("height"@, JsonView::Int(self.height)),
                ("true_pixels"@, JsonView::Bool(self.true_pixels)),
            ],
        )
    }

    /// The screenshot that a processed image gives; `true_pixels` says whether
    /// the image was made of the pixels of the window itself.
    pub open spec fn of(image: ProcessedView, true_pixels: bool) -> ScreenshotResultView {
        ScreenshotResultView {
            image_data_url: image.data_url,
            width: image.width,
            height: image.height,
            true_pixels,
        }
    }
}

impl ScreenshotResult {
    /// The JSON object that carries the screenshot.
    pub fn to_json(&self) -> (r: Json)
        ensures
            r@ == self@.to_json(),
    {
        let mut entries: Vec<(String, Json)> = Vec::new();
        entries.push(("image_data_url".to_owned(), Json::text(self.image_data_url.as_str())));
        entries.push(("width".to_owned(), Json::Int(self.width as i128)));
        entries.push(("height".to_owned(), Json::Int(self.height as i128)));
        entries.push(("true_pixels".to_owned(), Json::Bool(self.true_pixels)));
        let r = Json::object(entries);
        assert(r@->Object_0 =~= self@.to_json()->Object_0);
        r
    }
}

/// What is known of the machine that decides where the pipeline starts.
#[derive(Debug, Clone, PartialEq, Eq)]
pub struct EnvironmentProbe {
    /// Whether the variable `WSL_DISTRO_NAME` is set.
    pub wsl_distro_name: bool,
    /// Whether the variable `WSL_INTEROP` is set.
    pub wsl_interop: bool,
    /// What `/proc/version` holds, if it can be read.
    pub kernel_version: Option<String>,
}

/// Whether a machine with this probe runs under a virtualized display, where
/// the pixels of a window cannot be had.
pub open spec fn spec_is_wsl2(
    wsl_distro_name: bool,
    wsl_interop: bool,
    kernel_version: Option<Seq<char>>,
) -> bool {
    wsl_distro_name || wsl_interop || match kernel_version {
        Some(v) => contains_text(v, "microsoft"@) || contains_text(v, "WSL"@),
        None => false,
    }
}

/// Whether the machine runs under a virtualized display.
pub fn is_wsl2(probe: &EnvironmentProbe) -> (r: bool)
    ensures
        r == spec_is_wsl2(
            probe.wsl_distro_name,
            probe.wsl_interop,
            text_view(probe.kernel_version),
        ),
{
    probe.wsl_distro_name || probe.wsl_interop || match &probe.kernel_version {
        Some(v) => str_contains(v.as_str(), "microsoft") || str_contains(v.as_str(), "WSL"),
        None => false,
    }
}

/// The ways of taking a screenshot, best first.
#[derive(Debug, Clone, Copy, PartialEq, Eq, Structural)]
pub enum CaptureStrategy {
    /// The pixels of the window as the system shows it.
    Native,
    /// The content of the window as it draws itself. What it has drawn cannot
    /// be read back, so the result shows a gradient in its place.
    Rendered,
    /// A plain placeholder.
    Synthetic,
}

/// Where the pipeline stands.
#[derive(Debug, Clone, Copy, PartialEq, Eq, Structural)]
pub enum CaptureState {
    /// Nothing has happened yet.
    Start,
    /// The list of the windows on screen has been asked for.
    Enumerating,
    /// The pixels of the selected window have been asked for.
    Capturing,
    /// The window has been asked to draw itself.
    RenderSetup,
    /// The window is given time to draw.
    RenderSettling,
    /// The window has been asked for what it has drawn.
    RenderRetrieving,
    /// The result has been handed out.
    Done,
}

/// How long the window is given to draw itself, in milliseconds.
pub const RENDER_SETTLE_MS: u64 = 500;

/// What the pipeline is told.
#[derive(Debug, PartialEq, Eq)]
pub enum CaptureEvent {
    /// The request has come in; `virtualized` says whether the display is one
    /// on which the pixels of a window cannot be had.
    Started { virtualized: bool },
    /// These windows are on screen.
    Windows(Vec<WindowInfo>),
    /// The windows on screen could not be listed.
    WindowsUnavailable,
    /// These are the pixels of the window.
    Pixels(RawImage),
    /// The pixels of the window could not be had.
    PixelsUnavailable,
    /// The script has run.
    ScriptDone,
    /// The script could not be run.
    ScriptFailed,
    /// The time to draw has passed.
    Slept,
}

/// Mathematical form of a [`CaptureEvent`].
pub enum CaptureEventView {
    Started { virtualized: bool },
    Windows(Seq<WindowView>),
    WindowsUnavailable,
    Pixels(RawImageView),
    PixelsUnavailable,
    ScriptDone,
    ScriptFailed,
    Slept,
}

impl View for CaptureEvent {
    type V = CaptureEventView;

    open spec fn view(&self) -> CaptureEventView {
        match self {
            CaptureEvent::Started { virtualized } => CaptureEventView::Started {
                virtualized: *virtualized,
            },
            CaptureEvent::Windows(ws) => CaptureEventView::Windows(ws.deep_view()),
            CaptureEvent::WindowsUnavailable => CaptureEventView::WindowsUnavailable,
            CaptureEvent::Pixels(image) => CaptureEventView::Pixels(image@),
            CaptureEvent::PixelsUnavailable => CaptureEventView::PixelsUnavailable,
            CaptureEvent::ScriptDone => CaptureEventView::ScriptDone,
            CaptureEvent::ScriptFailed => CaptureEventView::ScriptFailed,
            CaptureEvent::Slept => CaptureEventView::Slept,
        }
    }
}

/// What the pipeline wants done.
#[derive(Debug, PartialEq, Eq)]
pub enum CaptureAction {
    /// List the windows on screen.
    ListWindows,
    /// Capture the pixels of the window at this position of the list.
    CaptureWindow(usize),
    /// Run this script in the window.
    RunScript(String),
    /// Wait for so many milliseconds.
    Sleep(u64),
    /// The pipeline has ended with this result, obtained in this way.
    Finish { result: Result<ScreenshotResult, McpError>, strategy: CaptureStrategy },
    /// Nothing: the pipeline had ended before.
    Idle,
}

/// Mathematical form of a [`CaptureAction`].
pub enum CaptureActionView {
    ListWindows,
    CaptureWindow(int),
    RunScript(Seq<char>),
    Sleep(int),
    Finish { result: Result<ScreenshotResultView, McpErrorView>, strategy: CaptureStrategy },
    Idle,
}

impl View for CaptureAction {
    type V = CaptureActionView;

    open spec fn view(&self) -> CaptureActionView {
        match self {
            CaptureAction::ListWindows => CaptureActionView::ListWindows,
            CaptureAction::CaptureWindow(i) => CaptureActionView::CaptureWindow(*i as int),
            CaptureAction::RunScript(s) => CaptureActionView::RunScript(s@),
            CaptureAction::Sleep(ms) => CaptureActionView::Sleep(*ms as int),
            CaptureAction::Finish { result, strategy } => CaptureActionView::Finish {
                result: match result {
                    Ok(shot) => Ok(shot@),
                    Err(e) => Err(e@),
                },
                strategy: *strategy,
            },
            CaptureAction::Idle => CaptureActionView::Idle,
        }
    }
}

/// The end of the pipeline with what the image processor makes of `image`. The
/// screenshot says whether it shows the pixels of the window itself.
pub open spec fn spec_finish(
    image: RawImageView,
    params: ScreenshotParamsView,
    strategy: CaptureStrategy,
) -> CaptureActionView {
    CaptureActionView::Finish {
        result: match spec_process(
            image,
            params.effective_quality(),
            params.effective_max_width(),
        ) {
            Ok(done) => Ok(ScreenshotResultView::of(done, strategy == CaptureStrategy::Native)),
            Err(e) => Err(e),
        },
        strategy,
    }
}

/// The placeholder that stands for a way of taking a screenshot: a gradient
/// for what the window drew, plain grey otherwise.
pub open spec fn placeholder_shade(strategy: CaptureStrategy) -> Shade {
    if strategy == CaptureStrategy::Rendered {
        Shade::Gradient
    } else {
        Shade::Plain
    }
}

/// The step that falls back on the window drawing itself.
pub open spec fn plan_render(params: ScreenshotParamsView) -> (CaptureState, CaptureActionView) {
    (
        CaptureState::RenderSetup,
        CaptureActionView::RunScript(
            render_script_text(params.effective_max_width(), params.effective_quality()),
        ),
    )
}

/// The step that ends the pipeline with a placeholder.
pub open spec fn plan_placeholder(params: ScreenshotParamsView, strategy: CaptureStrategy) -> (
    CaptureState,
    CaptureActionView,
) {
    (
        CaptureState::Done,
        spec_finish(spec_placeholder(placeholder_shade(strategy)), params, strategy),
    )
}

/// The next state and what is to be done, for a pipeline in `state` that is
/// told `event`. `title` is the title of the window that the request means.
///
/// On a virtualized display the pipeline starts with the window drawing
/// itself. Elsewhere it starts with the pixels of the window, and falls back
/// on the window drawing itself when the windows cannot be listed, when none
/// of them is the one, or when its pixels cannot be had. When the window
/// cannot be made to draw, a plain placeholder is the result. An event that
/// the state does not expect ends the pipeline with the plain placeholder too.
pub open spec fn spec_capture_step(
    state: CaptureState,
    params: ScreenshotParamsView,
    title: Seq<char>,
    event: CaptureEventView,
) -> (CaptureState, CaptureActionView) {
    match state {
        CaptureState::Done => (CaptureState::Done, CaptureActionView::Idle),
        CaptureState::Start => match event {
            CaptureEventView::Started { virtualized } => if virtualized {
                plan_render(params)
            } else {
                (CaptureState::Enumerating, CaptureActionView::ListWindows)
            },
            _ => plan_placeholder(params, CaptureStrategy::Synthetic),
        },
        CaptureState::Enumerating => match event {
            CaptureEventView::Windows(ws) => match selected_window(
                ws,
                title,
                params.application(),
            ) {
                Some(i) => (CaptureState::Capturing, CaptureActionView::CaptureWindow(i)),
                None => plan_render(params),
            },
            CaptureEventView::WindowsUnavailable => plan_render(params),
            _ => plan_placeholder(params, CaptureStrategy::Synthetic),
        },
        CaptureState::Capturing => match event {
            CaptureEventView::Pixels(image) => (
                CaptureState::Done,
                spec_finish(image, params, CaptureStrategy::Native),
            ),
            CaptureEventView::PixelsUnavailable => plan_render(params),
            _ => plan_placeholder(params, CaptureStrategy::Synthetic),
        },
        CaptureState::RenderSetup => match event {
            CaptureEventView::ScriptDone => (
                CaptureState::RenderSettling,
                CaptureActionView::Sleep(RENDER_SETTLE_MS as int),
            ),
            _ => plan_placeholder(params, CaptureStrategy::Synthetic),
        },
        CaptureState::RenderSettling => match event {
            CaptureEventView::Slept => (
                CaptureState::RenderRetrieving,
                CaptureActionView::RunScript(RETRIEVE_SCRIPT@),
            ),
            _ => plan_placeholder(params, CaptureStrategy::Synthetic),
        },
        CaptureState::RenderRetrieving => match event {
            CaptureEventView::ScriptDone => plan_placeholder(params, CaptureStrategy::Rendered),
            _ => plan_placeholder(params, CaptureStrategy::Synthetic),
        },
    }
}

/// How many steps the pipeline can still take, at most.
pub open spec fn steps_left(state: CaptureState) -> int {
    match state {
        CaptureState::Start => 6,
        CaptureState::Enumerating => 5,
        CaptureState::Capturing => 4,
        CaptureState::RenderSetup => 3,
        CaptureState::RenderSettling => 2,
        CaptureState::RenderRetrieving => 1,
        CaptureState::Done => 0,
    }
}

/// The ways that a pipeline in `state` can still end in, best first. At the
/// start that depends on the display, which the first event tells.
pub open spec fn strategies_ahead(state: CaptureState) -> Seq<CaptureStrategy> {
    match state {
        CaptureState::Start => seq![
            CaptureStrategy::Native,
            CaptureStrategy::Rendered,
            CaptureStrategy::Synthetic,
        ],
        CaptureState::Enumerating => seq![
            CaptureStrategy::Native,
            CaptureStrategy::Rendered,
            CaptureStrategy::Synthetic,
        ],
        CaptureState::Capturing => seq![
            CaptureStrategy::Native,
            CaptureStrategy::Rendered,
            CaptureStrategy::Synthetic,
        ],
        CaptureState::RenderSetup => seq![CaptureStrategy::Rendered, CaptureStrategy::Synthetic],
        CaptureState::RenderSettling => seq![CaptureStrategy::Rendered, CaptureStrategy::Synthetic],
        CaptureState::RenderRetrieving => seq![
            CaptureStrategy::Rendered,
            CaptureStrategy::Synthetic,
        ],
        CaptureState::Done => Seq::<CaptureStrategy>::empty(),
    }
}

/// The ways of taking a screenshot on a display: all three, best first, or
/// without the first where the pixels of a window cannot be had.
pub fn capture_candidates(virtualized: bool) -> (r: Vec<CaptureStrategy>)
    ensures
        r@ == if virtualized {
            strategies_ahead(CaptureState::RenderSetup)
        } else {
            strategies_ahead(CaptureState::Enumerating)
        },
{
    let mut r: Vec<CaptureStrategy> = Vec::new();
    if !virtualized {
        r.push(CaptureStrategy::Native);
    }
    r.push(CaptureStrategy::Rendered);
    r.push(CaptureStrategy::Synthetic);
    let ghost want = if virtualized {
        strategies_ahead(CaptureState::RenderSetup)
    } else {
        strategies_ahead(CaptureState::Enumerating)
    };
    assert(r@ =~= want);
    r
}

/// `tail` is what is left of `whole` after some of its first items.
pub open spec fn is_suffix(tail: Seq<CaptureStrategy>, whole: Seq<CaptureStrategy>) -> bool {
    tail.len() <= whole.len() && tail == whole.subrange(
        whole.len() - tail.len(),
        whole.len() as int,
    )
}

/// The ways are tried in their order and none is tried again: what a step
/// leaves ahead is a rest of what was ahead before, and a pipeline ends in one
/// of the ways that were ahead.
pub proof fn lemma_strategies_are_tried_in_order(
    state: CaptureState,
    params: ScreenshotParamsView,
    title: Seq<char>,
    event: CaptureEventView,
)
    ensures
        is_suffix(
            strategies_ahead(spec_capture_step(state, params, title, event).0),
            strategies_ahead(state),
        ),
        spec_capture_step(state, params, title, event).1 matches CaptureActionView::Finish {
            result,
            strategy,
        } ==> strategies_ahead(state).contains(strategy),
{
    let next = spec_capture_step(state, params, title, event).0;
    let ahead = strategies_ahead(state);
    let left = strategies_ahead(next);
    assert(left =~= ahead.subrange(ahead.len() - left.len(), ahead.len() as int));
    if ahead.len() == 3 {
        assert(ahead[0] == CaptureStrategy::Native);
        assert(ahead[1] == CaptureStrategy::Rendered);
        assert(ahead[2] == CaptureStrategy::Synthetic);
    }
    if ahead.len() == 2 {
        assert(ahead[0] == CaptureStrategy::Rendered);
        assert(ahead[1] == CaptureStrategy::Synthetic);
    }
}

/// Every step brings the pipeline nearer to its end, and the pipeline ends
/// exactly when it hands out a result: it cannot be kept waiting, and it cannot
/// end without a result.
pub proof fn lemma_pipeline_ends(
    state: CaptureState,
    params: ScreenshotParamsView,
    title: Seq<char>,
    event: CaptureEventView,
)
    requires
        state != CaptureState::Done,
    ensures
        steps_left(spec_capture_step(state, params, title, event).0) < steps_left(state),
        spec_capture_step(state, params, title, event).0 == CaptureState::Done
            <==> spec_capture_step(state, params, title, event).1 is Finish,
{
}

/// Only the pixels of the window itself can fail to become a screenshot: what
/// the pipeline falls back on is a placeholder, and a placeholder can always be
/// processed. A screenshot, however it was obtained, is not empty and not wider
/// than the request allows, and it says whether it shows the window's own
/// pixels.
pub proof fn lemma_pipeline_degrades_to_a_screenshot(
    state: CaptureState,
    params: ScreenshotParamsView,
    title: Seq<char>,
    event: CaptureEventView,
)
    ensures
        spec_capture_step(state, params, title, event).1 matches CaptureActionView::Finish {
            result,
            strategy,
        } ==> {
            &&& strategy != CaptureStrategy::Native ==> result is Ok
            &&& result matches Ok(shot) ==> 1 <= shot.width <= params.effective_max_width() && 1
                <= shot.height
            &&& result matches Ok(shot) ==> shot.true_pixels == (strategy
                == CaptureStrategy::Native)
            &&& result matches Err(e) ==> e is CaptureFailed
        },
{
    let max_width = params.effective_max_width();
    let quality = params.effective_quality();
    lemma_placeholder_is_processable(Shade::Plain, max_width);
    lemma_placeholder_is_processable(Shade::Gradient, max_width);
    lemma_processed_size(spec_placeholder(Shade::Plain), quality, max_width);
    lemma_processed_size(spec_placeholder(Shade::Gradient), quality, max_width);
    if state == CaptureState::Capturing {
        if let CaptureEventView::Pixels(image) = event {
            lemma_processed_size(image, quality, max_width);
        }
    }
}

/// A placeholder can always be processed: nothing stands in the way, whatever
/// width is asked for.
pub proof fn lemma_placeholder_is_processable(shade: Shade, max_width: int)
    requires
        1 <= max_width,
    ensures
        spec_obstacle(spec_placeholder(shade), max_width) is None,
{
    let image = spec_placeholder(shade);
    lemma_target_size_bounds(image.width, image.height, max_width);
    assert(image.width * image.height == 480000) by (nonlinear_arith)
        requires
            image.width == 800,
            image.height == 600,
    ;
}

/// Processes `image` for `params` and ends the pipeline with the result.
fn finish(image: &RawImage, params: &ScreenshotParams, strategy: CaptureStrategy) -> (r:
    CaptureAction)
    ensures
        r@ == spec_finish(image@, params@, strategy),
{
    let quality = params.effective_quality();
    let max_width = params.effective_max_width();
    let result = match process_image(image, quality, max_width) {
        Ok(done) => Ok(
            ScreenshotResult {
                image_data_url: done.data_url,
                width: done.width,
                height: done.height,
                true_pixels: strategy == CaptureStrategy::Native,
            },
        ),
        Err(e) => Err(e),
    };
    CaptureAction::Finish { result, strategy }
}

/// Ends the pipeline with a placeholder.
fn finish_with_placeholder(params: &ScreenshotParams, strategy: CaptureStrategy) -> (r: (
    CaptureState,
    CaptureAction,
))
    ensures
        r.0 == plan_placeholder(params@, strategy).0,
        r.1@ == plan_placeholder(params@, strategy).1,
{
    let shade = match strategy {
        CaptureStrategy::Rendered => Shade::Gradient,
        _ => Shade::Plain,
    };
    let image = placeholder(shade);
    (CaptureState::Done, finish(&image, params, strategy))
}

/// Falls back on the window drawing itself.
fn start_render(params: &ScreenshotParams) -> (r: (CaptureState, CaptureAction))
    ensures
        r.0 == plan_render(params@).0,
        r.1@ == plan_render(params@).1,
{
    let script = render_script(params.effective_max_width(), params.effective_quality());
    (CaptureState::RenderSetup, CaptureAction::RunScript(script))
}

/// Takes one step of the pipeline: from the state it is in and what it is
/// told to the state it goes to and what is to be done.
///
/// `window_title` is the title of the window that the request means. Every
/// step brings the pipeline nearer to its end, and a pipeline that ends hands
/// out a result. That result is a failure only if the pixels of the window
/// were had and the image processor could not process them; every placeholder
/// gives a screenshot. A screenshot is never wider than the request allows and
/// never empty.
pub fn capture_step(
    state: CaptureState,
    params: &ScreenshotParams,
    window_title: &str,
    event: CaptureEvent,
) -> (r: (CaptureState, CaptureAction))
    ensures
        r.0 == spec_capture_step(state, params@, window_title@, event@).0,
        r.1@ == spec_capture_step(state, params@, window_title@, event@).1,
        state != CaptureState::Done ==> steps_left(r.0) < steps_left(state),
        (r.0 == CaptureState::Done && state != CaptureState::Done) <==> r.1 is Finish,
        r.1 matches CaptureAction::Finish { result, strategy } ==> {
            &&& strategy != CaptureStrategy::Native ==> result is Ok
            &&& result matches Ok(shot) ==> 1 <= shot.width <= params@.effective_max_width() && 1
                <= shot.height
        },
{
    proof {
        lemma_pipeline_degrades_to_a_screenshot(state, params@, window_title@, event@);
    }
    match state {
        CaptureState::Done => (CaptureState::Done, CaptureAction::Idle),
        CaptureState::Start => match event {
            CaptureEvent::Started { virtualized } => {
                if virtualized {
                    start_render(params)
                } else {
                    (CaptureState::Enumerating, CaptureAction::ListWindows)
                }
            },
            _ => finish_with_placeholder(params, CaptureStrategy::Synthetic),
        },
        CaptureState::Enumerating => match event {
            CaptureEvent::Windows(windows) => {
                let application = params.application();
                match find_window(&windows, window_title, application.as_str()) {
                    Some(i) => (CaptureState::Capturing, CaptureAction::CaptureWindow(i)),
                    None => start_render(params),
                }
            },
            CaptureEvent::WindowsUnavailable => start_render(params),
            _ => finish_with_placeholder(params, CaptureStrategy::Synthetic),
        },
        CaptureState::Capturing => match event {
            CaptureEvent::Pixels(image) => (
                CaptureState::Done,
                finish(&image, params, CaptureStrategy::Native),
            ),
            CaptureEvent::PixelsUnavailable => start_render(params),
            _ => finish_with_placeholder(params, CaptureStrategy::Synthetic),
        },
        CaptureState::RenderSetup => match event {
            CaptureEvent::ScriptDone => (
                CaptureState::RenderSettling,
                CaptureAction::Sleep(RENDER_SETTLE_MS),
            ),
            _ => finish_with_placeholder(params, CaptureStrategy::Synthetic),
        },
        CaptureState::RenderSettling => match event {
            CaptureEvent::Slept => (
                CaptureState::RenderRetrieving,
                CaptureAction::RunScript(RETRIEVE_SCRIPT.to_owned()),
            ),
            _ => finish_with_placeholder(params, CaptureStrategy::Synthetic),
        },
        CaptureState::RenderRetrieving => match event {
            CaptureEvent::ScriptDone => finish_with_placeholder(params, CaptureStrategy::Rendered),
            _ => finish_with_placeholder(params, CaptureStrategy::Synthetic),
        },
    }
}

/// An image that can be processed comes out not empty and not wider than
/// asked for.
pub proof fn lemma_processed_size(image: RawImageView, quality: int, max_width: int)
    requires
        1 <= max_width,
    ensures
        spec_obstacle(image, max_width) is None ==> 1 <= spec_processed(
            image,
            quality,
            max_width,
        ).width <= max_width && 1 <= spec_processed(image, quality, max_width).height,
{
    if spec_obstacle(image, max_width) is None {
        lemma_target_size_bounds(image.width, image.height, max_width);
    }
}

/// The envelope that answers a screenshot command.
pub open spec fn spec_screenshot_response(
    result: Result<ScreenshotResultView, McpErrorView>,
) -> ResponseView {
    match result {
        Ok(shot) => ResponseView::ok(shot.to_json()),
        Err(e) => ResponseView::fail(e.message()),
    }
}

/// Wraps the result of the pipeline in the envelope that answers the command.
pub fn screenshot_response(result: &Result<ScreenshotResult, McpError>) -> (r: SocketResponse)
    ensures
        r@ == spec_screenshot_response(
            match result {
                Ok(shot) => Ok(shot@),
                Err(e) => Err(e@),
            },
        ),
        r@.well_formed(),
{
    match result {
        Ok(shot) => SocketResponse::ok(shot.to_json()),
        Err(e) => SocketResponse::from_error(e),
    }
}

} // verus!
