//! What each browser step asks of the page, and what becomes of the data.

use vstd::prelude::*;

use crate::base64_text::base64;
use crate::error::{ErrorKind, ErrorView};
use crate::json::{list_json, quoted, JsonNumber, JsonView};
use crate::page::{ActionView, AutoScrollOptions, ReplyView};
use crate::registry::BrowserStep;
use crate::step_laws::run;
use crate::steps::{
    ClickStep, CollectStep, EvaluateStep, NavigateStep, PressStep, ProgressView, ScreenshotStep,
    ScrollStep, SnapshotStep, StageView, StepHandler, Target, TypeStep, WaitStep,
};
use crate::text::parse_up_to;

verus! {

/// What a step asks for on its way with these replies.
pub open spec fn asks(from: ProgressView, replies: Seq<ReplyView>, data: JsonView) -> Seq<
    ActionView,
>
    decreases replies.len(),
{
    match from {
        ProgressView::Ask(stage, action) => if replies.len() > 0 {
            seq![action] + asks(stage.next(replies[0], data), replies.drop_first(), data)
        } else {
            seq![action]
        },
        ProgressView::Done(_) => Seq::empty(),
    }
}

/// A step that works with two replies: what it asks for, and how it ends.
pub open spec fn works_in_two(
    from: ProgressView,
    replies: (ReplyView, ReplyView),
    data: JsonView,
    actions: (ActionView, ActionView),
    result: JsonView,
) -> bool {
    &&& asks(from, seq![replies.0, replies.1], data) == seq![actions.0, actions.1]
    &&& run(from, seq![replies.0, replies.1], data) == ProgressView::Done(Ok(result))
}

/// A step that works with one reply.
pub open spec fn works_in_one(
    from: ProgressView,
    reply: ReplyView,
    data: JsonView,
    action: ActionView,
    result: JsonView,
) -> bool {
    &&& asks(from, seq![reply], data) == seq![action]
    &&& run(from, seq![reply], data) == ProgressView::Done(Ok(result))
}

/// A step that ends with an error of the pipeline.
pub open spec fn refuses(progress: ProgressView, message: Seq<char>) -> bool {
    progress == ProgressView::Done(
        Err(
            (ErrorView {
                kind: ErrorKind::Pipeline,
                message,
                suggestions: Seq::<Seq<char>>::empty(),
            }),
        ),
    )
}

proof fn lemma_one(from: ProgressView, reply: ReplyView, data: JsonView)
    ensures
        from matches ProgressView::Ask(stage, action) ==> {
            &&& run(from, seq![reply], data) == stage.next(reply, data)
            &&& stage.next(reply, data) is Done ==> asks(from, seq![reply], data) == seq![action]
        },
{
    reveal_with_fuel(run, 2);
    reveal_with_fuel(asks, 2);
    if let ProgressView::Ask(stage, action) = from {
        assert(seq![reply].drop_first() =~= Seq::<ReplyView>::empty());
        if stage.next(reply, data) is Done {
            assert(asks(from, seq![reply], data) =~= seq![action]);
        }
    }
}

proof fn lemma_two(from: ProgressView, a: ReplyView, b: ReplyView, data: JsonView)
    ensures
        from matches ProgressView::Ask(stage, action) ==> (stage.next(
            a,
            data,
        ) matches ProgressView::Ask(later, second) ==> {
            &&& run(from, seq![a, b], data) == later.next(b, data)
            &&& later.next(b, data) is Done ==> asks(from, seq![a, b], data) == seq![action, second]
        }),
{
    if let ProgressView::Ask(stage, action) = from {
        if let ProgressView::Ask(later, second) = stage.next(a, data) {
            assert(seq![a, b].drop_first() =~= seq![b]);
            lemma_one(stage.next(a, data), b, data);
            if later.next(b, data) is Done {
                assert(asks(from, seq![a, b], data) =~= seq![action, second]);
            }
        }
    }
}

/// The page is sent to the very address that the parameter renders to, and the data stay.
pub proof fn navigation_opens_the_rendered_address(
    raw: Seq<char>,
    text: Seq<char>,
    data: JsonView,
)
    ensures
        works_in_two(
            NavigateStep.plan(true, JsonView::String(raw)),
            (ReplyView::Value(JsonView::String(text)), ReplyView::Unit),
            data,
            (ActionView::Render(raw), ActionView::Goto(text)),
            data,
        ),
{
    lemma_two(
        NavigateStep.plan(true, JsonView::String(raw)),
        ReplyView::Value(JsonView::String(text)),
        ReplyView::Unit,
        data,
    );
}

/// The very element that the parameter renders to is clicked, and the data stay.
pub proof fn click_hits_the_rendered_element(raw: Seq<char>, text: Seq<char>, data: JsonView)
    ensures
        works_in_two(
            ClickStep.plan(true, JsonView::String(raw)),
            (ReplyView::Value(JsonView::String(text)), ReplyView::Unit),
            data,
            (ActionView::Render(raw), ActionView::Click(text)),
            data,
        ),
{
    lemma_two(
        ClickStep.plan(true, JsonView::String(raw)),
        ReplyView::Value(JsonView::String(text)),
        ReplyView::Unit,
        data,
    );
}

/// The page runs the very script that the parameter renders to, and what the script gives becomes
/// the data.
pub proof fn evaluation_runs_the_rendered_script(
    raw: Seq<char>,
    script: Seq<char>,
    value: JsonView,
    data: JsonView,
)
    ensures
        works_in_two(
            EvaluateStep.plan(true, JsonView::String(raw)),
            (ReplyView::Value(JsonView::String(script)), ReplyView::Value(value)),
            data,
            (ActionView::Render(raw), ActionView::Evaluate(script)),
            value,
        ),
{
    lemma_two(
        EvaluateStep.plan(true, JsonView::String(raw)),
        ReplyView::Value(JsonView::String(script)),
        ReplyView::Value(value),
        data,
    );
}

/// The key that the parameter renders to goes down and up in the page, written as a string of
/// JavaScript, and the data stay.
pub proof fn press_presses_the_rendered_key(
    raw: Seq<char>,
    key: Seq<char>,
    value: JsonView,
    data: JsonView,
)
    ensures
        works_in_two(
            PressStep.plan(true, JsonView::String(raw)),
            (ReplyView::Value(JsonView::String(key)), ReplyView::Value(value)),
            data,
            (
                ActionView::Render(raw),
                ActionView::Evaluate(
                    "document.dispatchEvent(new KeyboardEvent('keydown', { key: "@ + quoted(key)
                        + ", bubbles: true }));\n               document.dispatchEvent(new KeyboardEvent('keyup', { key: "@
                        + quoted(key) + ", bubbles: true }));"@,
                ),
            ),
            data,
        ),
{
    lemma_two(
        PressStep.plan(true, JsonView::String(raw)),
        ReplyView::Value(JsonView::String(key)),
        ReplyView::Value(value),
        data,
    );
}

/// The steps that take a template refuse a parameter that is no text, and a template that does not
/// render to one.
pub proof fn text_steps_refuse_other_values(params: JsonView, rendered: JsonView, data: JsonView)
    ensures
        !(params is String) ==> {
            &&& refuses(NavigateStep.plan(true, params), "expected a string parameter"@)
            &&& refuses(ClickStep.plan(true, params), "expected a string parameter"@)
            &&& refuses(PressStep.plan(true, params), "expected a string parameter"@)
            &&& refuses(EvaluateStep.plan(true, params), "expected a string parameter"@)
        },
        params is String && !(rendered is String) ==> {
            let reply = seq![ReplyView::Value(rendered)];
            let message = "rendered template is not a string"@;
            &&& refuses(run(NavigateStep.plan(true, params), reply, data), message)
            &&& refuses(run(ClickStep.plan(true, params), reply, data), message)
            &&& refuses(run(PressStep.plan(true, params), reply, data), message)
            &&& refuses(run(EvaluateStep.plan(true, params), reply, data), message)
        },
{
    lemma_one(NavigateStep.plan(true, params), ReplyView::Value(rendered), data);
    lemma_one(ClickStep.plan(true, params), ReplyView::Value(rendered), data);
    lemma_one(PressStep.plan(true, params), ReplyView::Value(rendered), data);
    lemma_one(EvaluateStep.plan(true, params), ReplyView::Value(rendered), data);
}

/// Without a page no step does anything.
pub proof fn nothing_is_done_without_a_page(step: BrowserStep, params: JsonView)
    ensures
        refuses(step.plan(false, params), "browser step requires an active page"@),
        step.in_browser(),
{
}

/// The text that the one field renders to is typed into the element that the other renders to, and
/// the data stay.
pub proof fn typing_types_the_rendered_text(
    params: JsonView,
    raw_selector: Seq<char>,
    raw_text: Seq<char>,
    selector: Seq<char>,
    text: Seq<char>,
    data: JsonView,
)
    requires
        params.get("selector"@) == Some(JsonView::String(raw_selector)),
        params.get("text"@) == Some(JsonView::String(raw_text)),
    ensures
        ({
            let start = TypeStep.plan(true, params);
            let replies = seq![
                ReplyView::Value(JsonView::String(selector)),
                ReplyView::Value(JsonView::String(text)),
                ReplyView::Unit,
            ];
            &&& asks(start, replies, data) == seq![
                ActionView::Render(raw_selector),
                ActionView::Render(raw_text),
                ActionView::TypeText { selector, text },
            ]
            &&& run(start, replies, data) == ProgressView::Done(Ok(data))
        }),
{
    let start = TypeStep.plan(true, params);
    let a = ReplyView::Value(JsonView::String(selector));
    let b = ReplyView::Value(JsonView::String(text));
    let c = ReplyView::Unit;
    let replies = seq![a, b, c];
    let stage = start->Ask_0;
    assert(replies.drop_first() =~= seq![b, c]);
    lemma_two(stage.next(a, data), b, c, data);
    assert(asks(start, replies, data) =~= seq![
        ActionView::Render(raw_selector),
        ActionView::Render(raw_text),
        ActionView::TypeText { selector, text },
    ]);
}

/// Typing needs both fields, as texts, before and after they were rendered.
pub proof fn typing_refuses_what_is_no_text(
    params: JsonView,
    selector: JsonView,
    text: JsonView,
    data: JsonView,
)
    ensures
        !(params is Object) ==> refuses(
            TypeStep.plan(true, params),
            "type: params must be an object with 'selector' and 'text'"@,
        ),
        params is Object && params.get_str("selector"@) is None ==> refuses(
            TypeStep.plan(true, params),
            "type: missing 'selector' field"@,
        ),
        params is Object && params.get_str("selector"@) is Some && params.get_str("text"@) is None
            ==> refuses(TypeStep.plan(true, params), "type: missing 'text' field"@),
        params.get_str("selector"@) is Some && params.get_str("text"@) is Some ==> {
            let replies = seq![ReplyView::Value(selector), ReplyView::Value(text)];
            let end = run(TypeStep.plan(true, params), replies, data);
            &&& !(selector is String) ==> refuses(end, "type: rendered selector is not a string"@)
            &&& selector is String && !(text is String) ==> refuses(
                end,
                "type: rendered text is not a string"@,
            )
        },
{
    lemma_two(
        TypeStep.plan(true, params),
        ReplyView::Value(selector),
        ReplyView::Value(text),
        data,
    );
}

/// A number is a time to wait, in milliseconds, and so is the time of an object, whatever else the
/// object holds.
pub proof fn waiting_lets_the_time_pass(params: JsonView, ms: u64, data: JsonView)
    requires
        params == JsonView::Number(JsonNumber::Natural(ms)) || params.get("time"@) == Some(
            JsonView::Number(JsonNumber::Natural(ms)),
        ),
    ensures
        works_in_one(
            WaitStep.plan(true, params),
            ReplyView::Unit,
            data,
            ActionView::WaitForTimeout(ms),
            data,
        ),
{
    lemma_one(WaitStep.plan(true, params), ReplyView::Unit, data);
}

/// Without a time, the element is waited for.
pub proof fn waiting_waits_for_the_element(params: JsonView, selector: Seq<char>, data: JsonView)
    requires
        params.get("time"@) is None,
        params.get("selector"@) == Some(JsonView::String(selector)),
    ensures
        works_in_one(
            WaitStep.plan(true, params),
            ReplyView::Unit,
            data,
            ActionView::WaitForSelector(selector),
            data,
        ),
{
    lemma_one(WaitStep.plan(true, params), ReplyView::Unit, data);
}

/// Without a time and an element, the page looks for the text itself, written as a string of
/// JavaScript.
pub proof fn waiting_waits_for_the_text(
    params: JsonView,
    text: Seq<char>,
    value: JsonView,
    data: JsonView,
)
    requires
        params.get("time"@) is None,
        params.get("selector"@) is None,
        params.get("text"@) == Some(JsonView::String(text)),
    ensures
        works_in_one(
            WaitStep.plan(true, params),
            ReplyView::Value(value),
            data,
            ActionView::Evaluate(
                "new Promise((resolve, reject) => {\n                            const timeout = setTimeout(() => reject(new Error('Timeout waiting for text')), 30000);\n                            const check = () => {\n                                if (document.body.innerText.includes("@
                    + quoted(text)
                    + ")) {\n                                    clearTimeout(timeout);\n                                    resolve(true);\n                                } else {\n                                    requestAnimationFrame(check);\n                                }\n                            };\n                            check();\n                        })"@,
            ),
            data,
        ),
{
    lemma_one(WaitStep.plan(true, params), ReplyView::Value(value), data);
}

/// Waiting refuses what it cannot wait for.
pub proof fn waiting_refuses_other_values(params: JsonView)
    ensures
        params is Number && params.as_u64() is None ==> refuses(
            WaitStep.plan(true, params),
            "wait: invalid number"@,
        ),
        params.get("time"@) matches Some(time) && time.as_u64() is None ==> refuses(
            WaitStep.plan(true, params),
            "wait: 'time' must be a number (ms)"@,
        ),
        params.get("time"@) is None && (params.get("selector"@) matches Some(selector) && !(
        selector is String)) ==> refuses(
            WaitStep.plan(true, params),
            "wait: 'selector' must be a string"@,
        ),
        params.get("time"@) is None && params.get("selector"@) is None && (params.get(
            "text"@,
        ) matches Some(text) && !(text is String)) ==> refuses(
            WaitStep.plan(true, params),
            "wait: 'text' must be a string"@,
        ),
        params is Object && params.get("time"@) is None && params.get("selector"@) is None
            && params.get("text"@) is None ==> refuses(
            WaitStep.plan(true, params),
            "wait: object must have 'time', 'selector', or 'text'"@,
        ),
        !(params is Number) && !(params is Object) ==> refuses(
            WaitStep.plan(true, params),
            "wait: params must be a number or object"@,
        ),
{
}

/// A snapshot is taken with the options that an object gives, each by itself, and without options
/// for anything else.
pub proof fn snapshots_take_their_options(params: JsonView)
    ensures
        SnapshotStep.plan(true, params) matches ProgressView::Ask(_, ActionView::Snapshot(options))
            && match options {
            Some(o) => {
                &&& params is Object
                &&& match params.get("selector"@) {
                    Some(JsonView::String(s)) => o.selector == Some(s),
                    _ => o.selector is None,
                }
                &&& o.include_hidden <==> params.get("include_hidden"@) == Some(
                    JsonView::Bool(true),
                )
            },
            None => !(params is Object),
        },
{
}

/// What a snapshot shows becomes the data, unless it is null: then the data stay.
pub proof fn snapshots_become_the_data(params: JsonView, seen: JsonView, data: JsonView)
    ensures
        run(SnapshotStep.plan(true, params), seq![ReplyView::Value(seen)], data)
            == ProgressView::Done(
            Ok(
                if seen is Null {
                    data
                } else {
                    seen
                },
            ),
        ),
{
    lemma_one(SnapshotStep.plan(true, params), ReplyView::Value(seen), data);
}

/// A screenshot is taken with the options that an object gives, each by itself, and without options
/// for anything else.
pub proof fn screenshots_take_their_options(params: JsonView)
    ensures
        ScreenshotStep.plan(true, params) matches ProgressView::Ask(
            _,
            ActionView::Screenshot(options),
        ) && match options {
            Some(o) => {
                &&& params is Object
                &&& match params.get("selector"@) {
                    Some(JsonView::String(s)) => o.selector == Some(s),
                    _ => o.selector is None,
                }
                &&& match params.get("path"@) {
                    Some(JsonView::String(s)) => o.path == Some(s),
                    _ => o.path is None,
                }
                &&& o.full_page <==> params.get("full_page"@) == Some(JsonView::Bool(true))
            },
            None => !(params is Object),
        },
{
}

/// The bytes of a screenshot become the data, all of them, as text in base 64.
pub proof fn screenshots_become_the_data(params: JsonView, bytes: Seq<u8>, data: JsonView)
    ensures
        run(ScreenshotStep.plan(true, params), seq![ReplyView::Bytes(bytes)], data)
            == ProgressView::Done(Ok(JsonView::String(base64(bytes)))),
{
    lemma_one(ScreenshotStep.plan(true, params), ReplyView::Bytes(bytes), data);
}

/// A scroll action.
pub open spec fn scrolls(count: nat, delay_ms: nat, action: ActionView) -> bool {
    action matches ActionView::AutoScroll(AutoScrollOptions { max_scrolls, delay_ms: delay })
        && max_scrolls == count % 0x1_0000_0000 && delay == delay_ms
}

/// A number is how often the page is scrolled, with 300 milliseconds between; of a number beyond 32
/// bits the lower ones are kept. What is no natural number stands for three.
pub proof fn numbers_are_scrolls(params: JsonView, data: JsonView)
    requires
        params is Number,
    ensures
        ScrollStep.plan(true, params) matches ProgressView::Ask(stage, action) && stage
            == StageView::Keep && match params.as_u64() {
            Some(n) => scrolls(n as nat, 300, action),
            None => scrolls(3, 300, action),
        },
{
}

/// An object gives the number and the delay, each by itself, in place of three and 300.
pub proof fn objects_are_scrolls(params: JsonView)
    requires
        params is Object,
    ensures
        ScrollStep.plan(true, params) matches ProgressView::Ask(stage, action) && stage
            == StageView::Keep && scrolls(
            match params.get("count"@) {
                Some(v) => match v.as_u64() {
                    Some(n) => n as nat,
                    None => 3,
                },
                None => 3,
            },
            match params.get("delay"@) {
                Some(v) => match v.as_u64() {
                    Some(n) => n as nat,
                    None => 300,
                },
                None => 300,
            },
            action,
        ),
{
}

/// A text is rendered, and gives the number if it renders to one or to digits; otherwise it stands
/// for three. Everything else stands for three too.
pub proof fn texts_are_scrolls(
    raw: Seq<char>,
    rendered: JsonView,
    params: JsonView,
    data: JsonView,
)
    ensures
        ScrollStep.plan(true, JsonView::String(raw)) matches ProgressView::Ask(stage, first)
            && first == ActionView::Render(raw) && (stage.next(
            ReplyView::Value(rendered),
            data,
        ) matches ProgressView::Ask(later, action) && later == StageView::Keep && match (
            rendered.as_u64(),
            rendered,
        ) {
            (Some(n), _) => scrolls(n as nat, 300, action),
            (None, JsonView::String(digits)) => match parse_up_to(digits, 0xffff_ffff_ffff_ffff) {
                Some(n) => scrolls(n, 300, action),
                None => scrolls(3, 300, action),
            },
            _ => scrolls(3, 300, action),
        }),
        (params is Null || params is Bool || params is Array) ==> (ScrollStep.plan(
            true,
            params,
        ) matches ProgressView::Ask(stage, action) && stage == StageView::Keep && scrolls(
            3,
            300,
            action,
        )),
{
}

/// Scrolling leaves the data alone.
pub proof fn scrolling_keeps_the_data(data: JsonView)
    ensures
        StageView::Keep.next(ReplyView::Unit, data) == ProgressView::Done(Ok(data)),
{
}

/// The requests are handed to the function of the parameter, and what it gives becomes the data.
pub proof fn collecting_parses_the_requests(
    params: JsonView,
    parse: Seq<char>,
    requests: Seq<serde_json::Value>,
    written: Seq<char>,
    value: JsonView,
    data: JsonView,
)
    requires
        params.get("parse"@) == Some(JsonView::String(parse)),
        list_json(requests) == Ok::<Seq<char>, Seq<char>>(written),
    ensures
        works_in_two(
            CollectStep.plan(true, params),
            (ReplyView::Requests(requests), ReplyView::Value(value)),
            data,
            (
                ActionView::InterceptedRequests,
                ActionView::Evaluate(
                    "(() => { const parseFn = "@ + parse + "; const requests = "@ + written
                        + "; return parseFn(requests); })()"@,
                ),
            ),
            value,
        ),
{
    lemma_two(
        CollectStep.plan(true, params),
        ReplyView::Requests(requests),
        ReplyView::Value(value),
        data,
    );
}

/// Collecting needs a function, and requests that can be written out.
pub proof fn collecting_refuses_what_is_missing(
    params: JsonView,
    requests: Seq<serde_json::Value>,
    error: Seq<char>,
    data: JsonView,
)
    ensures
        params.get_str("parse"@) is None ==> refuses(
            CollectStep.plan(true, params),
            "collect step requires a 'parse' field with a JS function"@,
        ),
        params.get_str("parse"@) is Some && list_json(requests) == Err::<Seq<char>, Seq<char>>(
            error,
        ) ==> refuses(
            run(CollectStep.plan(true, params), seq![ReplyView::Requests(requests)], data),
            "Failed to serialize intercepted requests: "@ + error,
        ),
{
    lemma_one(CollectStep.plan(true, params), ReplyView::Requests(requests), data);
}

/// The steps go by these names, and a step of the registry does what its own kind does.
pub proof fn steps_go_by_their_names(page: bool, params: JsonView)
    ensures
        BrowserStep::Navigate(NavigateStep).step_name() == "navigate"@,
        BrowserStep::Click(ClickStep).step_name() == "click"@,
        BrowserStep::Type(TypeStep).step_name() == "type"@,
        BrowserStep::Wait(WaitStep).step_name() == "wait"@,
        BrowserStep::Press(PressStep).step_name() == "press"@,
        BrowserStep::Evaluate(EvaluateStep).step_name() == "evaluate"@,
        BrowserStep::Snapshot(SnapshotStep).step_name() == "snapshot"@,
        BrowserStep::Screenshot(ScreenshotStep).step_name() == "screenshot"@,
        BrowserStep::Scroll(ScrollStep).step_name() == "scroll"@,
        BrowserStep::Collect(CollectStep).step_name() == "collect"@,
        BrowserStep::Navigate(NavigateStep).plan(page, params) == NavigateStep.plan(page, params),
        BrowserStep::Click(ClickStep).plan(page, params) == ClickStep.plan(page, params),
        BrowserStep::Type(TypeStep).plan(page, params) == TypeStep.plan(page, params),
        BrowserStep::Wait(WaitStep).plan(page, params) == WaitStep.plan(page, params),
        BrowserStep::Press(PressStep).plan(page, params) == PressStep.plan(page, params),
        BrowserStep::Evaluate(EvaluateStep).plan(page, params) == EvaluateStep.plan(page, params),
        BrowserStep::Snapshot(SnapshotStep).plan(page, params) == SnapshotStep.plan(page, params),
        BrowserStep::Screenshot(ScreenshotStep).plan(page, params) == ScreenshotStep.plan(
            page,
            params,
        ),
        BrowserStep::Scroll(ScrollStep).plan(page, params) == ScrollStep.plan(page, params),
        BrowserStep::Collect(CollectStep).plan(page, params) == CollectStep.plan(page, params),
{
}

/// Every one of the steps needs a browser.
pub proof fn steps_need_a_browser(step: BrowserStep)
    ensures
        step.in_browser(),
        NavigateStep.in_browser(),
        ClickStep.in_browser(),
        TypeStep.in_browser(),
        WaitStep.in_browser(),
        PressStep.in_browser(),
        EvaluateStep.in_browser(),
        SnapshotStep.in_browser(),
        ScreenshotStep.in_browser(),
        ScrollStep.in_browser(),
        CollectStep.in_browser(),
{
}

/// The text that a template renders to is used as it is, for the address, the element and the
/// script alike.
pub proof fn rendered_text_is_used_as_it_is(text: Seq<char>, data: JsonView)
    ensures
        StageView::Rendered(Target::Goto).next(ReplyView::Value(JsonView::String(text)), data)
            == ProgressView::Ask(StageView::Keep, ActionView::Goto(text)),
        StageView::Rendered(Target::Click).next(ReplyView::Value(JsonView::String(text)), data)
            == ProgressView::Ask(StageView::Keep, ActionView::Click(text)),
        StageView::Rendered(Target::Evaluate).next(ReplyView::Value(JsonView::String(text)), data)
            == ProgressView::Ask(StageView::Take, ActionView::Evaluate(text)),
{
}

} // verus!
