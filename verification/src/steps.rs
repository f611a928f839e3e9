//! The browser steps of a pipeline. A step is carried out in turns: it asks for something, and
//! goes on with what came back, until it is done.

use vstd::prelude::*;
use vstd::string::*;

use crate::base64_text::{base64, encode_base64};
use crate::error::{plain_error, CliError, ErrorKind, ErrorView};
use crate::json::{list_json, quote, quoted, text_view, write_list, Json, JsonView};
use crate::page::{
    fits_in_memory, opt_text, Action, ActionView, AutoScrollOptions, Reply, ReplyView,
    ScreenshotOptions, ScreenshotOptionsView, SnapshotOptions, SnapshotOptionsView,
};
use crate::text::{join2, join3, parse_number, parse_up_to};

verus! {

/// What a rendered text is for.
#[derive(Debug, Clone, Copy, PartialEq, Eq, Structural)]
pub enum Target {
    /// The URL to open.
    Goto,
    /// The element to click.
    Click,
    /// The key to press.
    Press,
    /// The script to run.
    Evaluate,
}

/// What a step does with the next reply.
#[derive(Debug, PartialEq, Eq)]
pub enum Stage {
    /// The reply is the text for the target.
    Rendered(Target),
    /// The reply is the selector of the element to type into. The text is still to be rendered.
    TypeSelector { text: String },
    /// The reply is the text to type.
    TypeText { selector: Json },
    /// The reply is the number of scrolls.
    ScrollCount,
    /// The reply is dropped, and the data stay as they are.
    Keep,
    /// The reply becomes the data.
    Take,
    /// The reply becomes the data, unless it is null.
    Snapshot,
    /// The reply is an image, which becomes the data as text.
    Screenshot,
    /// The reply is the intercepted requests, for the function to parse.
    Collect { parse: String },
}

/// The mathematical value of a [`Stage`].
pub ghost enum StageView {
    Rendered(Target),
    TypeSelector { text: Seq<char> },
    TypeText { selector: JsonView },
    ScrollCount,
    Keep,
    Take,
    Snapshot,
    Screenshot,
    Collect { parse: Seq<char> },
}

impl View for Stage {
    type V = StageView;

    open spec fn view(&self) -> StageView {
        match self {
            Stage::Rendered(target) => StageView::Rendered(*target),
            Stage::TypeSelector { text } => StageView::TypeSelector { text: text@ },
            Stage::TypeText { selector } => StageView::TypeText { selector: selector@ },
            Stage::ScrollCount => StageView::ScrollCount,
            Stage::Keep => StageView::Keep,
            Stage::Take => StageView::Take,
            Stage::Snapshot => StageView::Snapshot,
            Stage::Screenshot => StageView::Screenshot,
            Stage::Collect { parse } => StageView::Collect { parse: parse@ },
        }
    }
}

/// How far a step has come.
#[derive(Debug, PartialEq, Eq)]
pub enum Progress {
    /// It asks for something, and goes on from the stage.
    Ask(Stage, Action),
    /// It has ended, with the data for the next step or with an error.
    Done(Result<Json, CliError>),
}

/// The mathematical value of a [`Progress`].
pub ghost enum ProgressView {
    Ask(StageView, ActionView),
    Done(Result<JsonView, ErrorView>),
}

impl View for Progress {
    type V = ProgressView;

    open spec fn view(&self) -> ProgressView {
        match self {
            Progress::Ask(stage, action) => ProgressView::Ask(stage@, action@),
            Progress::Done(Ok(v)) => ProgressView::Done(Ok(v@)),
            Progress::Done(Err(e)) => ProgressView::Done(Err(e@)),
        }
    }
}

/// What a template sees: the arguments of the command, the data, and the item that is looked at
/// with its index.
#[derive(Debug, PartialEq, Eq)]
pub struct TemplateContext {
    pub args: Vec<(String, Json)>,
    pub data: Json,
    pub item: Json,
    pub index: usize,
}

/// The same names with the same values, in the same order.
pub open spec fn same_args(a: Seq<(String, Json)>, b: Seq<(String, Json)>) -> bool {
    a.len() == b.len() && forall|i: int|
        0 <= i < a.len() ==> (#[trigger] a[i]).0@ == b[i].0@ && a[i].1@ == b[i].1@
}

/// The context in which the steps render their templates: no item, and index zero.
pub fn default_ctx(data: &Json, args: &Vec<(String, Json)>) -> (r: TemplateContext)
    ensures
        same_args(r.args@, args@),
        r.data@ == data@,
        r.item == Json::Null,
        r.index == 0,
{
    let mut copy: Vec<(String, Json)> = Vec::new();
    let mut i: usize = 0;
    while i < args.len()
        invariant
            i <= args@.len(),
            same_args(copy@, args@.take(i as int)),
        decreases args@.len() - i,
    {
        copy.push((args[i].0.clone(), args[i].1.duplicate()));
        i += 1;
    }
    proof {
        assert(args@.take(i as int) =~= args@);
    }
    TemplateContext { args: copy, data: data.duplicate(), item: Json::Null, index: 0 }
}

/// The end of a step that was given something it cannot work with.
pub open spec fn failed(message: Seq<char>) -> ProgressView {
    ProgressView::Done(Err(plain_error(ErrorKind::Pipeline, message)))
}

fn fail(message: &str) -> (r: Progress)
    ensures
        r@ == failed(message@),
{
    Progress::Done(Err(CliError::pipeline(message)))
}

/// What every browser step says where there is no page.
pub const NO_PAGE: &'static str = "browser step requires an active page";

/// A step whose parameter is a template for the target.
pub open spec fn ask_text(params: JsonView, target: Target) -> ProgressView {
    match params.as_str() {
        Some(raw) => ProgressView::Ask(StageView::Rendered(target), ActionView::Render(raw)),
        None => failed("expected a string parameter"@),
    }
}

fn render_str_param(params: &Json, target: Target) -> (r: Progress)
    ensures
        r@ == ask_text(params@, target),
{
    match params.as_str() {
        Some(raw) => Progress::Ask(Stage::Rendered(target), Action::Render(raw.to_owned())),
        None => fail("expected a string parameter"),
    }
}

/// A step of a pipeline.
pub trait StepHandler {
    /// The name under which pipelines call the step.
    spec fn step_name(&self) -> Seq<char>;

    /// Whether the step needs a page.
    spec fn in_browser(&self) -> bool;

    /// What the step does first.
    spec fn plan(&self, page: bool, params: JsonView) -> ProgressView;

    fn name(&self) -> (r: &'static str)
        ensures
            r@ == self.step_name(),
    ;

    fn is_browser_step(&self) -> (r: bool)
        ensures
            r == self.in_browser(),
    ;

    /// Starts the step. `page` says whether there is a page to work on.
    fn execute(&self, page: bool, params: &Json) -> (r: Progress)
        ensures
            r@ == self.plan(page, params@),
    ;
}

/// Opens the URL that its parameter renders to.
#[derive(Debug, Clone, Copy, PartialEq, Eq, Structural)]
pub struct NavigateStep;

impl StepHandler for NavigateStep {
    open spec fn step_name(&self) -> Seq<char> {
        "navigate"@
    }

    open spec fn in_browser(&self) -> bool {
        true
    }

    open spec fn plan(&self, page: bool, params: JsonView) -> ProgressView {
        if page {
            ask_text(params, Target::Goto)
        } else {
            failed(NO_PAGE@)
        }
    }

    fn name(&self) -> (r: &'static str) {
        "navigate"
    }

    fn is_browser_step(&self) -> (r: bool) {
        true
    }

    fn execute(&self, page: bool, params: &Json) -> (r: Progress) {
        if !page {
            return fail(NO_PAGE);
        }
        render_str_param(params, Target::Goto)
    }
}

/// Clicks the element that its parameter renders to.
#[derive(Debug, Clone, Copy, PartialEq, Eq, Structural)]
pub struct ClickStep;

impl StepHandler for ClickStep {
    open spec fn step_name(&self) -> Seq<char> {
        "click"@
    }

    open spec fn in_browser(&self) -> bool {
        true
    }

    open spec fn plan(&self, page: bool, params: JsonView) -> ProgressView {
        if page {
            ask_text(params, Target::Click)
        } else {
            failed(NO_PAGE@)
        }
    }

    fn name(&self) -> (r: &'static str) {
        "click"
    }

    fn is_browser_step(&self) -> (r: bool) {
        true
    }

    fn execute(&self, page: bool, params: &Json) -> (r: Progress) {
        if !page {
            return fail(NO_PAGE);
        }
        render_str_param(params, Target::Click)
    }
}

/// Types a text into an element. Both are templates.
#[derive(Debug, Clone, Copy, PartialEq, Eq, Structural)]
pub struct TypeStep;

impl StepHandler for TypeStep {
    open spec fn step_name(&self) -> Seq<char> {
        "type"@
    }

    open spec fn in_browser(&self) -> bool {
        true
    }

    open spec fn plan(&self, page: bool, params: JsonView) -> ProgressView {
        if !page {
            failed(NO_PAGE@)
        } else if !(params is Object) {
            failed("type: params must be an object with 'selector' and 'text'"@)
        } else {
            match (params.get_str("selector"@), params.get_str("text"@)) {
                (None, _) => failed("type: missing 'selector' field"@),
                (Some(_), None) => failed("type: missing 'text' field"@),
                (Some(selector), Some(text)) => ProgressView::Ask(
                    StageView::TypeSelector { text },
                    ActionView::Render(selector),
                ),
            }
        }
    }

    fn name(&self) -> (r: &'static str) {
        "type"
    }

    fn is_browser_step(&self) -> (r: bool) {
        true
    }

    fn execute(&self, page: bool, params: &Json) -> (r: Progress) {
        if !page {
            return fail(NO_PAGE);
        }
        match params {
            Json::Object(_) => {
                let selector = match params.get_str("selector") {
                    Some(s) => s,
                    None => {
                        return fail("type: missing 'selector' field");
                    },
                };
                let text = match params.get_str("text") {
                    Some(s) => s,
                    None => {
                        return fail("type: missing 'text' field");
                    },
                };
                Progress::Ask(
                    Stage::TypeSelector { text: text.to_owned() },
                    Action::Render(selector.to_owned()),
                )
            },
            _ => fail("type: params must be an object with 'selector' and 'text'"),
        }
    }
}

pub const WAIT_SCRIPT_HEAD: &'static str = "new Promise((resolve, reject) => {\n                            const timeout = setTimeout(() => reject(new Error('Timeout waiting for text')), 30000);\n                            const check = () => {\n                                if (document.body.innerText.includes(";

pub const WAIT_SCRIPT_TAIL: &'static str = ")) {\n                                    clearTimeout(timeout);\n                                    resolve(true);\n                                } else {\n                                    requestAnimationFrame(check);\n                                }\n                            };\n                            check();\n                        })";

/// The script that waits until the page shows `text`.
pub open spec fn wait_script(text: Seq<char>) -> Seq<char> {
    WAIT_SCRIPT_HEAD@ + quoted(text) + WAIT_SCRIPT_TAIL@
}

/// Waits for some milliseconds, for an element or for a text.
#[derive(Debug, Clone, Copy, PartialEq, Eq, Structural)]
pub struct WaitStep;

/// What a wait for an object of parameters does: for a time, else for an element, else for a text.
pub open spec fn wait_for(params: JsonView) -> ProgressView {
    match (params.get("time"@), params.get("selector"@), params.get("text"@)) {
        (Some(time), _, _) => match time.as_u64() {
            Some(ms) => ProgressView::Ask(StageView::Keep, ActionView::WaitForTimeout(ms)),
            None => failed("wait: 'time' must be a number (ms)"@),
        },
        (None, Some(selector), _) => match selector.as_str() {
            Some(s) => ProgressView::Ask(StageView::Keep, ActionView::WaitForSelector(s)),
            None => failed("wait: 'selector' must be a string"@),
        },
        (None, None, Some(text)) => match text.as_str() {
            Some(t) => ProgressView::Ask(StageView::Keep, ActionView::Evaluate(wait_script(t))),
            None => failed("wait: 'text' must be a string"@),
        },
        (None, None, None) => failed("wait: object must have 'time', 'selector', or 'text'"@),
    }
}

impl StepHandler for WaitStep {
    open spec fn step_name(&self) -> Seq<char> {
        "wait"@
    }

    open spec fn in_browser(&self) -> bool {
        true
    }

    open spec fn plan(&self, page: bool, params: JsonView) -> ProgressView {
        if !page {
            failed(NO_PAGE@)
        } else {
            match params {
                JsonView::Number(_) => match params.as_u64() {
                    Some(ms) => ProgressView::Ask(StageView::Keep, ActionView::WaitForTimeout(ms)),
                    None => failed("wait: invalid number"@),
                },
                JsonView::Object(_) => wait_for(params),
                _ => failed("wait: params must be a number or object"@),
            }
        }
    }

    fn name(&self) -> (r: &'static str) {
        "wait"
    }

    fn is_browser_step(&self) -> (r: bool) {
        true
    }

    fn execute(&self, page: bool, params: &Json) -> (r: Progress) {
        if !page {
            return fail(NO_PAGE);
        }
        match params {
            Json::Number(_) => match params.as_u64() {
                Some(ms) => Progress::Ask(Stage::Keep, Action::WaitForTimeout(ms)),
                None => fail("wait: invalid number"),
            },
            Json::Object(_) => {
                if let Some(time) = params.get("time") {
                    match time.as_u64() {
                        Some(ms) => Progress::Ask(Stage::Keep, Action::WaitForTimeout(ms)),
                        None => fail("wait: 'time' must be a number (ms)"),
                    }
                } else if let Some(selector) = params.get("selector") {
                    match selector.as_str() {
                        Some(s) => Progress::Ask(
                            Stage::Keep,
                            Action::WaitForSelector(s.to_owned()),
                        ),
                        None => fail("wait: 'selector' must be a string"),
                    }
                } else if let Some(text) = params.get("text") {
                    match text.as_str() {
                        Some(t) => Progress::Ask(
                            Stage::Keep,
                            Action::Evaluate(
                                join3(WAIT_SCRIPT_HEAD, quote(t).as_str(), WAIT_SCRIPT_TAIL),
                            ),
                        ),
                        None => fail("wait: 'text' must be a string"),
                    }
                } else {
                    fail("wait: object must have 'time', 'selector', or 'text'")
                }
            },
            _ => fail("wait: params must be a number or object"),
        }
    }
}

pub const KEY_DOWN: &'static str = "document.dispatchEvent(new KeyboardEvent('keydown', { key: ";

pub const KEY_UP: &'static str = ", bubbles: true }));\n               document.dispatchEvent(new KeyboardEvent('keyup', { key: ";

pub const KEY_END: &'static str = ", bubbles: true }));";

/// The script that presses `key` and lets go of it.
pub open spec fn press_script(key: Seq<char>) -> Seq<char> {
    KEY_DOWN@ + quoted(key) + KEY_UP@ + quoted(key) + KEY_END@
}

/// Presses the key that its parameter renders to.
#[derive(Debug, Clone, Copy, PartialEq, Eq, Structural)]
pub struct PressStep;

impl StepHandler for PressStep {
    open spec fn step_name(&self) -> Seq<char> {
        "press"@
    }

    open spec fn in_browser(&self) -> bool {
        true
    }

    open spec fn plan(&self, page: bool, params: JsonView) -> ProgressView {
        if page {
            ask_text(params, Target::Press)
        } else {
            failed(NO_PAGE@)
        }
    }

    fn name(&self) -> (r: &'static str) {
        "press"
    }

    fn is_browser_step(&self) -> (r: bool) {
        true
    }

    fn execute(&self, page: bool, params: &Json) -> (r: Progress) {
        if !page {
            return fail(NO_PAGE);
        }
        render_str_param(params, Target::Press)
    }
}

/// Runs the script that its parameter renders to. Its result becomes the data.
#[derive(Debug, Clone, Copy, PartialEq, Eq, Structural)]
pub struct EvaluateStep;

impl StepHandler for EvaluateStep {
    open spec fn step_name(&self) -> Seq<char> {
        "evaluate"@
    }

    open spec fn in_browser(&self) -> bool {
        true
    }

    open spec fn plan(&self, page: bool, params: JsonView) -> ProgressView {
        if page {
            ask_text(params, Target::Evaluate)
        } else {
            failed(NO_PAGE@)
        }
    }

    fn name(&self) -> (r: &'static str) {
        "evaluate"
    }

    fn is_browser_step(&self) -> (r: bool) {
        true
    }

    fn execute(&self, page: bool, params: &Json) -> (r: Progress) {
        if !page {
            return fail(NO_PAGE);
        }
        render_str_param(params, Target::Evaluate)
    }
}

/// The truth under `key`, or no.
pub open spec fn flag(params: JsonView, key: Seq<char>) -> bool {
    match params.get(key) {
        Some(v) => match v.as_bool() {
            Some(b) => b,
            None => false,
        },
        None => false,
    }
}

fn read_flag(params: &Json, key: &str) -> (r: bool)
    ensures
        r == flag(params@, key@),
{
    match params.get(key) {
        Some(v) => match v.as_bool() {
            Some(b) => b,
            None => false,
        },
        None => false,
    }
}

fn read_string(params: &Json, key: &str) -> (r: Option<String>)
    ensures
        opt_text(r) == params@.get_str(key@),
{
    match params.get_str(key) {
        Some(s) => Some(s.to_owned()),
        None => None,
    }
}

/// The options that parameters give: none, unless they are an object.
pub open spec fn snapshot_options(params: JsonView) -> Option<SnapshotOptionsView> {
    match params {
        JsonView::Object(_) => Some(
            SnapshotOptionsView {
                selector: params.get_str("selector"@),
                include_hidden: flag(params, "include_hidden"@),
            },
        ),
        _ => None,
    }
}

/// Takes a snapshot of the page, which becomes the data unless it is null.
#[derive(Debug, Clone, Copy, PartialEq, Eq, Structural)]
pub struct SnapshotStep;

impl StepHandler for SnapshotStep {
    open spec fn step_name(&self) -> Seq<char> {
        "snapshot"@
    }

    open spec fn in_browser(&self) -> bool {
        true
    }

    open spec fn plan(&self, page: bool, params: JsonView) -> ProgressView {
        if page {
            ProgressView::Ask(
                StageView::Snapshot,
                ActionView::Snapshot(snapshot_options(params)),
            )
        } else {
            failed(NO_PAGE@)
        }
    }

    fn name(&self) -> (r: &'static str) {
        "snapshot"
    }

    fn is_browser_step(&self) -> (r: bool) {
        true
    }

    fn execute(&self, page: bool, params: &Json) -> (r: Progress) {
        if !page {
            return fail(NO_PAGE);
        }
        let options = match params {
            Json::Object(_) => Some(
                SnapshotOptions {
                    selector: read_string(params, "selector"),
                    include_hidden: read_flag(params, "include_hidden"),
                },
            ),
            _ => None,
        };
        Progress::Ask(Stage::Snapshot, Action::Snapshot(options))
    }
}

/// The options that parameters give: none, unless they are an object.
pub open spec fn screenshot_options(params: JsonView) -> Option<ScreenshotOptionsView> {
    match params {
        JsonView::Object(_) => Some(
            ScreenshotOptionsView {
                path: params.get_str("path"@),
                full_page: flag(params, "full_page"@),
                selector: params.get_str("selector"@),
            },
        ),
        _ => None,
    }
}

/// Takes a screenshot of the page. Its bytes become the data, as text in base 64.
#[derive(Debug, Clone, Copy, PartialEq, Eq, Structural)]
pub struct ScreenshotStep;

impl StepHandler for ScreenshotStep {
    open spec fn step_name(&self) -> Seq<char> {
        "screenshot"@
    }

    open spec fn in_browser(&self) -> bool {
        true
    }

    open spec fn plan(&self, page: bool, params: JsonView) -> ProgressView {
        if page {
            ProgressView::Ask(
                StageView::Screenshot,
                ActionView::Screenshot(screenshot_options(params)),
            )
        } else {
            failed(NO_PAGE@)
        }
    }

    fn name(&self) -> (r: &'static str) {
        "screenshot"
    }

    fn is_browser_step(&self) -> (r: bool) {
        true
    }

    fn execute(&self, page: bool, params: &Json) -> (r: Progress) {
        if !page {
            return fail(NO_PAGE);
        }
        let options = match params {
            Json::Object(_) => Some(
                ScreenshotOptions {
                    path: read_string(params, "path"),
                    full_page: read_flag(params, "full_page"),
                    selector: read_string(params, "selector"),
                },
            ),
            _ => None,
        };
        Progress::Ask(Stage::Screenshot, Action::Screenshot(options))
    }
}

/// How often a page is scrolled where nothing else is said.
pub const DEFAULT_SCROLLS: u64 = 3;

/// How long a scroll waits for the page, in milliseconds, where nothing else is said.
pub const DEFAULT_SCROLL_DELAY: u64 = 300;

/// The number under `key`, or `default`.
pub open spec fn number_or(params: JsonView, key: Seq<char>, default: u64) -> u64 {
    match params.get(key) {
        Some(v) => match v.as_u64() {
            Some(n) => n,
            None => default,
        },
        None => default,
    }
}

fn read_number(params: &Json, key: &str, default: u64) -> (r: u64)
    ensures
        r == number_or(params@, key@, default),
{
    match params.get(key) {
        Some(v) => match v.as_u64() {
            Some(n) => n,
            None => default,
        },
        None => default,
    }
}

/// Scrolls `count` times, of which the lower 32 bits are kept.
pub open spec fn scroll_action(count: u64, delay_ms: u64) -> ActionView {
    ActionView::AutoScroll(
        AutoScrollOptions { max_scrolls: (count % 0x1_0000_0000) as u32, delay_ms },
    )
}

fn scroll(count: u64, delay_ms: u64) -> (r: Progress)
    ensures
        r@ == ProgressView::Ask(StageView::Keep, scroll_action(count, delay_ms)),
{
    let max_scrolls: u32 = (count % 0x1_0000_0000) as u32;
    Progress::Ask(Stage::Keep, Action::AutoScroll(AutoScrollOptions { max_scrolls, delay_ms }))
}

/// Scrolls the page, so that it loads more.
#[derive(Debug, Clone, Copy, PartialEq, Eq, Structural)]
pub struct ScrollStep;

impl StepHandler for ScrollStep {
    open spec fn step_name(&self) -> Seq<char> {
        "scroll"@
    }

    open spec fn in_browser(&self) -> bool {
        true
    }

    open spec fn plan(&self, page: bool, params: JsonView) -> ProgressView {
        if !page {
            failed(NO_PAGE@)
        } else {
            match params {
                JsonView::Number(_) => ProgressView::Ask(
                    StageView::Keep,
                    scroll_action(
                        match params.as_u64() {
                            Some(n) => n,
                            None => DEFAULT_SCROLLS,
                        },
                        DEFAULT_SCROLL_DELAY,
                    ),
                ),
                JsonView::Object(_) => ProgressView::Ask(
                    StageView::Keep,
                    scroll_action(
                        number_or(params, "count"@, DEFAULT_SCROLLS),
                        number_or(params, "delay"@, DEFAULT_SCROLL_DELAY),
                    ),
                ),
                JsonView::String(raw) => ProgressView::Ask(
                    StageView::ScrollCount,
                    ActionView::Render(raw),
                ),
                _ => ProgressView::Ask(
                    StageView::Keep,
                    scroll_action(DEFAULT_SCROLLS, DEFAULT_SCROLL_DELAY),
                ),
            }
        }
    }

    fn name(&self) -> (r: &'static str) {
        "scroll"
    }

    fn is_browser_step(&self) -> (r: bool) {
        true
    }

    fn execute(&self, page: bool, params: &Json) -> (r: Progress) {
        if !page {
            return fail(NO_PAGE);
        }
        match params {
            Json::Number(_) => {
                let count = match params.as_u64() {
                    Some(n) => n,
                    None => DEFAULT_SCROLLS,
                };
                scroll(count, DEFAULT_SCROLL_DELAY)
            },
            Json::Object(_) => {
                let count = read_number(params, "count", DEFAULT_SCROLLS);
                let delay = read_number(params, "delay", DEFAULT_SCROLL_DELAY);
                scroll(count, delay)
            },
            Json::String(raw) => Progress::Ask(Stage::ScrollCount, Action::Render(raw.clone())),
            _ => scroll(DEFAULT_SCROLLS, DEFAULT_SCROLL_DELAY),
        }
    }
}

/// Has the page parse the requests that were intercepted. The result becomes the data.
#[derive(Debug, Clone, Copy, PartialEq, Eq, Structural)]
pub struct CollectStep;

impl StepHandler for CollectStep {
    open spec fn step_name(&self) -> Seq<char> {
        "collect"@
    }

    open spec fn in_browser(&self) -> bool {
        true
    }

    open spec fn plan(&self, page: bool, params: JsonView) -> ProgressView {
        if !page {
            failed(NO_PAGE@)
        } else {
            match params.get_str("parse"@) {
                Some(parse) => ProgressView::Ask(
                    StageView::Collect { parse },
                    ActionView::InterceptedRequests,
                ),
                None => failed("collect step requires a 'parse' field with a JS function"@),
            }
        }
    }

    fn name(&self) -> (r: &'static str) {
        "collect"
    }

    fn is_browser_step(&self) -> (r: bool) {
        true
    }

    fn execute(&self, page: bool, params: &Json) -> (r: Progress) {
        if !page {
            return fail(NO_PAGE);
        }
        match params.get_str("parse") {
            Some(parse) => Progress::Ask(
                Stage::Collect { parse: parse.to_owned() },
                Action::InterceptedRequests,
            ),
            None => fail("collect step requires a 'parse' field with a JS function"),
        }
    }
}

/// The script that hands the requests to the function.
pub open spec fn collect_script(parse: Seq<char>, requests: Seq<char>) -> Seq<char> {
    "(() => { const parseFn = "@ + parse + "; const requests = "@ + requests
        + "; return parseFn(requests); })()"@
}

/// What is done with the requests, once they were written out as JSON, or could not be.
pub open spec fn parse_requests(
    parse: Seq<char>,
    written: Result<Seq<char>, Seq<char>>,
) -> ProgressView {
    match written {
        Ok(requests) => ProgressView::Ask(
            StageView::Take,
            ActionView::Evaluate(collect_script(parse, requests)),
        ),
        Err(e) => failed("Failed to serialize intercepted requests: "@ + e),
    }
}

/// The number of scrolls that a rendered value gives: itself, or what it writes.
pub open spec fn scroll_count(rendered: JsonView) -> u64 {
    match rendered.as_u64() {
        Some(n) => n,
        None => match rendered.as_str() {
            Some(s) => match parse_up_to(s, u64::MAX as nat) {
                Some(n) => n as u64,
                None => DEFAULT_SCROLLS,
            },
            None => DEFAULT_SCROLLS,
        },
    }
}

/// What is done with the text for a target.
pub open spec fn use_text(target: Target, text: Seq<char>) -> ProgressView {
    match target {
        Target::Goto => ProgressView::Ask(StageView::Keep, ActionView::Goto(text)),
        Target::Click => ProgressView::Ask(StageView::Keep, ActionView::Click(text)),
        Target::Press => ProgressView::Ask(
            StageView::Keep,
            ActionView::Evaluate(press_script(text)),
        ),
        Target::Evaluate => ProgressView::Ask(StageView::Take, ActionView::Evaluate(text)),
    }
}

impl StageView {
    /// The replies with which the stage can go on.
    pub open spec fn accepts(self, reply: ReplyView) -> bool {
        match reply {
            ReplyView::Failed(_) => true,
            ReplyView::Unit => self is Keep,
            ReplyView::Value(_) => match self {
                StageView::Screenshot | StageView::Collect { .. } => false,
                _ => true,
            },
            ReplyView::Bytes(bytes) => self is Screenshot && fits_in_memory(bytes),
            ReplyView::Requests(_) => self is Collect,
        }
    }

    /// What the stage makes of a reply.
    pub open spec fn next(self, reply: ReplyView, data: JsonView) -> ProgressView {
        match (self, reply) {
            (_, ReplyView::Failed(e)) => ProgressView::Done(Err(e)),
            (StageView::Rendered(target), ReplyView::Value(v)) => match v.as_str() {
                Some(text) => use_text(target, text),
                None => failed("rendered template is not a string"@),
            },
            (StageView::TypeSelector { text }, ReplyView::Value(v)) => ProgressView::Ask(
                StageView::TypeText { selector: v },
                ActionView::Render(text),
            ),
            (StageView::TypeText { selector }, ReplyView::Value(v)) => match (
                selector.as_str(),
                v.as_str(),
            ) {
                (None, _) => failed("type: rendered selector is not a string"@),
                (Some(_), None) => failed("type: rendered text is not a string"@),
                (Some(selector), Some(text)) => ProgressView::Ask(
                    StageView::Keep,
                    ActionView::TypeText { selector, text },
                ),
            },
            (StageView::ScrollCount, ReplyView::Value(v)) => ProgressView::Ask(
                StageView::Keep,
                scroll_action(scroll_count(v), DEFAULT_SCROLL_DELAY),
            ),
            (StageView::Keep, _) => ProgressView::Done(Ok(data)),
            (StageView::Snapshot, ReplyView::Value(JsonView::Null)) => ProgressView::Done(Ok(data)),
            (StageView::Screenshot, ReplyView::Bytes(bytes)) => ProgressView::Done(
                Ok(JsonView::String(base64(bytes))),
            ),
            (StageView::Collect { parse }, ReplyView::Requests(requests)) => parse_requests(
                parse,
                list_json(requests),
            ),
            (_, ReplyView::Value(v)) => ProgressView::Done(Ok(v)),
            _ => ProgressView::Done(Ok(data)),
        }
    }
}

fn apply_text(target: Target, text: &str) -> (r: Progress)
    ensures
        r@ == use_text(target, text@),
{
    match target {
        Target::Goto => Progress::Ask(Stage::Keep, Action::Goto(text.to_owned())),
        Target::Click => Progress::Ask(Stage::Keep, Action::Click(text.to_owned())),
        Target::Press => {
            let key = quote(text);
            let mut script = join3(KEY_DOWN, key.as_str(), KEY_UP);
            script.append(key.as_str());
            script.append(KEY_END);
            Progress::Ask(Stage::Keep, Action::Evaluate(script))
        },
        Target::Evaluate => Progress::Ask(Stage::Take, Action::Evaluate(text.to_owned())),
    }
}

fn count_scrolls(rendered: &Json) -> (r: u64)
    ensures
        r == scroll_count(rendered@),
{
    match rendered.as_u64() {
        Some(n) => n,
        None => match rendered.as_str() {
            Some(s) => match parse_number(s, u64::MAX) {
                Some(n) => n,
                None => DEFAULT_SCROLLS,
            },
            None => DEFAULT_SCROLLS,
        },
    }
}

/// Hands the requests to the function in the page: `written` is what came of writing them out as
/// JSON.
pub fn collect_requests(parse: &str, written: Result<String, String>) -> (r: Progress)
    ensures
        r@ == parse_requests(parse@, text_view(written)),
{
    match written {
        Ok(requests) => {
            let mut script = join3("(() => { const parseFn = ", parse, "; const requests = ");
            script.append(requests.as_str());
            script.append("; return parseFn(requests); })()");
            Progress::Ask(Stage::Take, Action::Evaluate(script))
        },
        Err(e) => fail(join2("Failed to serialize intercepted requests: ", e.as_str()).as_str()),
    }
}

/// Takes a step on from a stage by the reply to what it asked for. `data` are the data that the
/// step was given.
pub fn resume(stage: Stage, reply: Reply, data: &Json) -> (r: Progress)
    requires
        stage@.accepts(reply@),
    ensures
        r@ == stage@.next(reply@, data@),
{
    let value = match reply {
        Reply::Failed(e) => {
            return Progress::Done(Err(e));
        },
        Reply::Unit => {
            return Progress::Done(Ok(data.duplicate()));
        },
        Reply::Bytes(bytes) => {
            return Progress::Done(Ok(Json::String(encode_base64(&bytes))));
        },
        Reply::Requests(requests) => {
            return match stage {
                Stage::Collect { parse } => collect_requests(
                    parse.as_str(),
                    write_list(&requests),
                ),
                _ => Progress::Done(Ok(data.duplicate())),
            };
        },
        Reply::Value(value) => value,
    };
    match stage {
        Stage::Rendered(target) => match value.as_str() {
            Some(text) => apply_text(target, text),
            None => fail("rendered template is not a string"),
        },
        Stage::TypeSelector { text } => Progress::Ask(
            Stage::TypeText { selector: value },
            Action::Render(text),
        ),
        Stage::TypeText { selector } => {
            let selector = match selector.as_str() {
                Some(s) => s,
                None => {
                    return fail("type: rendered selector is not a string");
                },
            };
            let text = match value.as_str() {
                Some(s) => s,
                None => {
                    return fail("type: rendered text is not a string");
                },
            };
            Progress::Ask(
                Stage::Keep,
                Action::TypeText { selector: selector.to_owned(), text: text.to_owned() },
            )
        },
        Stage::ScrollCount => scroll(count_scrolls(&value), DEFAULT_SCROLL_DELAY),
        Stage::Keep => Progress::Done(Ok(data.duplicate())),
        Stage::Snapshot => {
            if value.is_null() {
                Progress::Done(Ok(data.duplicate()))
            } else {
                Progress::Done(Ok(value))
            }
        },
        _ => Progress::Done(Ok(value)),
    }
}

} // verus!
