use opencli_rs::error::{CliError, ErrorKind};
use opencli_rs::json::{Json, JsonNumber};
use opencli_rs::page::{
    Action, AutoScrollOptions, Reply, ScreenshotOptions, SnapshotOptions,
};
use opencli_rs::registry::{register_browser_steps, BrowserStep, StepRegistry};
use opencli_rs::steps::{
    collect_requests, default_ctx, resume, ClickStep, CollectStep, EvaluateStep, NavigateStep, PressStep, Progress,
    ScreenshotStep, ScrollStep, SnapshotStep, Stage, StepHandler, TypeStep, WaitStep,
};

fn text(s: &str) -> Json {
    Json::String(s.to_string())
}

fn number(n: u64) -> Json {
    Json::Number(JsonNumber::Natural(n))
}

fn object(entries: Vec<(&str, Json)>) -> Json {
    Json::Object(entries.into_iter().map(|(k, v)| (k.to_string(), v)).collect())
}

/// A page that notes where it was sent and what it was asked, and answers every script alike.
struct MockPage {
    goto_url: Option<String>,
    asked: Vec<Action>,
    evaluate_result: Json,
}

impl MockPage {
    fn new(evaluate_result: Json) -> MockPage {
        MockPage { goto_url: None, asked: vec![], evaluate_result }
    }

    fn answer(&mut self, action: Action) -> Reply {
        let reply = match &action {
            Action::Render(raw) => Reply::Value(text(raw)),
            Action::Goto(url) => {
                self.goto_url = Some(url.clone());
                Reply::Unit
            }
            Action::Evaluate(_) => Reply::Value(self.evaluate_result.duplicate()),
            Action::Snapshot(_) => Reply::Value(object(vec![("tree", text("snapshot"))])),
            Action::Screenshot(_) => Reply::Bytes(vec![0x89, 0x50, 0x4E, 0x47]),
            Action::InterceptedRequests => Reply::Requests(vec![serde_json::Value::String("a\"b".to_string())]),
            _ => Reply::Unit,
        };
        self.asked.push(action);
        reply
    }
}

fn run<S: StepHandler>(
    step: S,
    page: Option<&mut MockPage>,
    params: &Json,
    data: &Json,
) -> Result<Json, CliError> {
    let mut progress = step.execute(page.is_some(), params);
    let mut page = page;
    loop {
        match progress {
            Progress::Done(r) => return r,
            Progress::Ask(stage, action) => {
                let reply = match &mut page {
                    Some(p) => p.answer(action),
                    None => panic!("a step without a page asks for something"),
                };
                progress = resume(stage, reply, data);
            }
        }
    }
}

fn pipeline(message: &str) -> Result<Json, CliError> {
    Err(CliError::pipeline(message))
}

#[test]
fn test_all_browser_steps_register() {
    let mut registry = StepRegistry::new();
    register_browser_steps(&mut registry);
    assert!(registry.get("navigate").is_some());
    assert!(registry.get("click").is_some());
    assert!(registry.get("type").is_some());
    assert!(registry.get("wait").is_some());
    assert!(registry.get("press").is_some());
    assert!(registry.get("evaluate").is_some());
    assert!(registry.get("snapshot").is_some());
    assert!(registry.get("screenshot").is_some());
}

#[test]
fn test_navigate_step() {
    let mut mock = MockPage::new(Json::Null);
    let step = NavigateStep;
    let result = run(
        step,
        Some(&mut mock),
        &text("https://example.com"),
        &object(vec![("key", text("value"))]),
    )
    .unwrap();
    assert_eq!(result, object(vec![("key", text("value"))]));
    assert_eq!(mock.goto_url, Some("https://example.com".to_string()));
}

#[test]
fn test_evaluate_step() {
    let items = || {
        object(vec![("items", Json::Array(vec![number(1), number(2), number(3)]))])
    };
    let mut mock = MockPage::new(items());
    let step = EvaluateStep;
    let result = run(
        step,
        Some(&mut mock),
        &text("document.querySelectorAll('.item')"),
        &Json::Null,
    )
    .unwrap();
    assert_eq!(result, items());
}

#[test]
fn test_browser_step_requires_page() {
    let step = NavigateStep;
    let result = run(step, None, &text("https://example.com"), &Json::Null);
    assert!(result.is_err());
}

#[test]
fn test_all_browser_steps_are_browser_steps() {
    assert!(NavigateStep.is_browser_step());
    assert!(ClickStep.is_browser_step());
    assert!(TypeStep.is_browser_step());
    assert!(WaitStep.is_browser_step());
    assert!(PressStep.is_browser_step());
    assert!(EvaluateStep.is_browser_step());
    assert!(SnapshotStep.is_browser_step());
    assert!(ScreenshotStep.is_browser_step());
}

#[test]
fn test_wait_step_with_time() {
    let mut mock = MockPage::new(Json::Null);
    let step = WaitStep;
    let result = run(step, Some(&mut mock), &number(1000), &text("data")).unwrap();
    assert_eq!(result, text("data"));
    assert_eq!(mock.asked, vec![Action::WaitForTimeout(1000)]);
}

#[test]
fn test_snapshot_step() {
    let mut mock = MockPage::new(Json::Null);
    let step = SnapshotStep;
    let result = run(step, Some(&mut mock), &Json::Null, &Json::Null).unwrap();
    assert_eq!(result, object(vec![("tree", text("snapshot"))]));
}

#[test]
fn every_step_is_found_under_its_own_name() {
    let mut registry = StepRegistry::new();
    assert!(registry.get("navigate").is_none());
    register_browser_steps(&mut registry);
    let steps = vec![
        ("navigate", BrowserStep::Navigate(NavigateStep)),
        ("click", BrowserStep::Click(ClickStep)),
        ("type", BrowserStep::Type(TypeStep)),
        ("wait", BrowserStep::Wait(WaitStep)),
        ("press", BrowserStep::Press(PressStep)),
        ("evaluate", BrowserStep::Evaluate(EvaluateStep)),
        ("snapshot", BrowserStep::Snapshot(SnapshotStep)),
        ("screenshot", BrowserStep::Screenshot(ScreenshotStep)),
        ("scroll", BrowserStep::Scroll(ScrollStep)),
        ("collect", BrowserStep::Collect(CollectStep)),
    ];
    for (name, step) in steps {
        assert_eq!(step.name(), name);
        assert!(step.is_browser_step());
        assert_eq!(registry.get(name), Some(step));
    }
    assert_eq!(registry.get("fetch"), None);
}

#[test]
fn every_step_refuses_to_work_without_a_page() {
    let message = "browser step requires an active page";
    assert_eq!(run(NavigateStep, None, &Json::Null, &Json::Null), pipeline(message));
    assert_eq!(run(ClickStep, None, &Json::Null, &Json::Null), pipeline(message));
    assert_eq!(run(TypeStep, None, &Json::Null, &Json::Null), pipeline(message));
    assert_eq!(run(WaitStep, None, &Json::Null, &Json::Null), pipeline(message));
    assert_eq!(run(PressStep, None, &Json::Null, &Json::Null), pipeline(message));
    assert_eq!(run(EvaluateStep, None, &Json::Null, &Json::Null), pipeline(message));
    assert_eq!(run(SnapshotStep, None, &Json::Null, &Json::Null), pipeline(message));
    assert_eq!(run(ScreenshotStep, None, &Json::Null, &Json::Null), pipeline(message));
    assert_eq!(run(ScrollStep, None, &Json::Null, &Json::Null), pipeline(message));
    assert_eq!(run(CollectStep, None, &Json::Null, &Json::Null), pipeline(message));
}

#[test]
fn text_steps_need_a_text() {
    let mut mock = MockPage::new(Json::Null);
    assert_eq!(
        run(ClickStep, Some(&mut mock), &number(1), &Json::Null),
        pipeline("expected a string parameter")
    );
    let r = resume(
        Stage::Rendered(opencli_rs::steps::Target::Click),
        Reply::Value(number(1)),
        &Json::Null,
    );
    assert_eq!(
        r,
        Progress::Done(Err(CliError::pipeline("rendered template is not a string")))
    );
}

#[test]
fn clicks_keep_the_data() {
    let mut mock = MockPage::new(text("other"));
    let r = run(ClickStep, Some(&mut mock), &text("#go"), &text("data"));
    assert_eq!(r, Ok(text("data")));
    assert_eq!(
        mock.asked,
        vec![Action::Render("#go".to_string()), Action::Click("#go".to_string())]
    );
}

#[test]
fn keys_are_pressed_and_released() {
    let mut mock = MockPage::new(text("other"));
    let r = run(PressStep, Some(&mut mock), &text("a\"b\n\u{1f}é"), &text("data"));
    assert_eq!(r, Ok(text("data")));
    let script = "document.dispatchEvent(new KeyboardEvent('keydown', { key: \"a\\\"b\\n\\u001fé\", bubbles: true }));\n               document.dispatchEvent(new KeyboardEvent('keyup', { key: \"a\\\"b\\n\\u001fé\", bubbles: true }));";
    assert_eq!(mock.asked[1], Action::Evaluate(script.to_string()));
}

#[test]
fn typing_needs_a_selector_and_a_text() {
    let mut mock = MockPage::new(Json::Null);
    let params = object(vec![("selector", text("#q")), ("text", text("rust"))]);
    assert_eq!(run(TypeStep, Some(&mut mock), &params, &text("data")), Ok(text("data")));
    assert_eq!(
        mock.asked,
        vec![
            Action::Render("#q".to_string()),
            Action::Render("rust".to_string()),
            Action::TypeText { selector: "#q".to_string(), text: "rust".to_string() },
        ]
    );
    assert_eq!(
        run(TypeStep, Some(&mut mock), &text("#q"), &Json::Null),
        pipeline("type: params must be an object with 'selector' and 'text'")
    );
    assert_eq!(
        run(TypeStep, Some(&mut mock), &object(vec![("text", text("x"))]), &Json::Null),
        pipeline("type: missing 'selector' field")
    );
    assert_eq!(
        run(TypeStep, Some(&mut mock), &object(vec![("selector", text("x"))]), &Json::Null),
        pipeline("type: missing 'text' field")
    );
}

#[test]
fn rendered_selector_and_text_have_to_be_texts() {
    let r = resume(Stage::TypeText { selector: Json::Null }, Reply::Value(text("x")), &Json::Null);
    assert_eq!(
        r,
        Progress::Done(Err(CliError::pipeline("type: rendered selector is not a string")))
    );
    let r = resume(Stage::TypeText { selector: text("x") }, Reply::Value(Json::Null), &Json::Null);
    assert_eq!(
        r,
        Progress::Done(Err(CliError::pipeline("type: rendered text is not a string")))
    );
}

#[test]
fn waiting_takes_the_first_condition() {
    let mut mock = MockPage::new(Json::Null);
    let params = object(vec![("text", text("t")), ("selector", text("#s")), ("time", number(5))]);
    assert_eq!(run(WaitStep, Some(&mut mock), &params, &text("d")), Ok(text("d")));
    let params = object(vec![("text", text("t")), ("selector", text("#s"))]);
    assert_eq!(run(WaitStep, Some(&mut mock), &params, &text("d")), Ok(text("d")));
    let params = object(vec![("text", text("ready \\ \"now\""))]);
    assert_eq!(run(WaitStep, Some(&mut mock), &params, &text("d")), Ok(text("d")));
    let script = "new Promise((resolve, reject) => {\n                            const timeout = setTimeout(() => reject(new Error('Timeout waiting for text')), 30000);\n                            const check = () => {\n                                if (document.body.innerText.includes(\"ready \\\\ \\\"now\\\"\")) {\n                                    clearTimeout(timeout);\n                                    resolve(true);\n                                } else {\n                                    requestAnimationFrame(check);\n                                }\n                            };\n                            check();\n                        })";
    assert_eq!(
        mock.asked,
        vec![
            Action::WaitForTimeout(5),
            Action::WaitForSelector("#s".to_string()),
            Action::Evaluate(script.to_string()),
        ]
    );
}

#[test]
fn waiting_for_nothing_is_an_error() {
    let mut mock = MockPage::new(Json::Null);
    let negative = Json::Number(JsonNumber::Negative(-1));
    assert_eq!(
        run(WaitStep, Some(&mut mock), &negative, &Json::Null),
        pipeline("wait: invalid number")
    );
    assert_eq!(
        run(WaitStep, Some(&mut mock), &object(vec![("time", text("1"))]), &Json::Null),
        pipeline("wait: 'time' must be a number (ms)")
    );
    assert_eq!(
        run(WaitStep, Some(&mut mock), &object(vec![("selector", number(1))]), &Json::Null),
        pipeline("wait: 'selector' must be a string")
    );
    assert_eq!(
        run(WaitStep, Some(&mut mock), &object(vec![("text", number(1))]), &Json::Null),
        pipeline("wait: 'text' must be a string")
    );
    assert_eq!(
        run(WaitStep, Some(&mut mock), &object(vec![]), &Json::Null),
        pipeline("wait: object must have 'time', 'selector', or 'text'")
    );
    assert_eq!(
        run(WaitStep, Some(&mut mock), &text("1"), &Json::Null),
        pipeline("wait: params must be a number or object")
    );
}

#[test]
fn snapshots_take_options_and_are_never_null() {
    let mut mock = MockPage::new(Json::Null);
    let params = object(vec![("selector", text("main")), ("include_hidden", Json::Bool(true))]);
    run(SnapshotStep, Some(&mut mock), &params, &Json::Null).unwrap();
    run(SnapshotStep, Some(&mut mock), &object(vec![]), &Json::Null).unwrap();
    run(SnapshotStep, Some(&mut mock), &text("main"), &Json::Null).unwrap();
    assert_eq!(
        mock.asked,
        vec![
            Action::Snapshot(Some(SnapshotOptions {
                selector: Some("main".to_string()),
                include_hidden: true,
            })),
            Action::Snapshot(Some(SnapshotOptions { selector: None, include_hidden: false })),
            Action::Snapshot(None),
        ]
    );
    assert_eq!(
        resume(Stage::Snapshot, Reply::Value(Json::Null), &text("data")),
        Progress::Done(Ok(text("data")))
    );
}

#[test]
fn screenshots_become_text() {
    let mut mock = MockPage::new(Json::Null);
    let params = object(vec![
        ("full_page", Json::Bool(true)),
        ("selector", text("main")),
        ("path", text("/tmp/a.png")),
    ]);
    assert_eq!(run(ScreenshotStep, Some(&mut mock), &params, &text("d")), Ok(text("iVBORw==")));
    assert_eq!(run(ScreenshotStep, Some(&mut mock), &Json::Null, &text("d")), Ok(text("iVBORw==")));
    assert_eq!(
        mock.asked,
        vec![
            Action::Screenshot(Some(ScreenshotOptions {
                path: Some("/tmp/a.png".to_string()),
                full_page: true,
                selector: Some("main".to_string()),
            })),
            Action::Screenshot(None),
        ]
    );
    let encoded = |bytes: Vec<u8>| resume(Stage::Screenshot, Reply::Bytes(bytes), &Json::Null);
    assert_eq!(encoded(vec![]), Progress::Done(Ok(text(""))));
    assert_eq!(encoded(vec![77, 97, 110]), Progress::Done(Ok(text("TWFu"))));
    assert_eq!(encoded(vec![77, 97]), Progress::Done(Ok(text("TWE="))));
    assert_eq!(encoded(vec![255, 255, 254]), Progress::Done(Ok(text("///+"))));
}

#[test]
fn scrolls_are_counted_from_every_form_of_parameter() {
    let mut mock = MockPage::new(Json::Null);
    let scrolls = |max_scrolls: u32, delay_ms: u64| {
        Action::AutoScroll(AutoScrollOptions { max_scrolls, delay_ms })
    };
    run(ScrollStep, Some(&mut mock), &number(7), &Json::Null).unwrap();
    run(ScrollStep, Some(&mut mock), &Json::Number(JsonNumber::Negative(-7)), &Json::Null).unwrap();
    run(ScrollStep, Some(&mut mock), &number(0x1_0000_0002), &Json::Null).unwrap();
    run(
        ScrollStep,
        Some(&mut mock),
        &object(vec![("count", number(5)), ("delay", number(500))]),
        &Json::Null,
    )
    .unwrap();
    run(ScrollStep, Some(&mut mock), &object(vec![]), &Json::Null).unwrap();
    run(ScrollStep, Some(&mut mock), &Json::Null, &Json::Null).unwrap();
    assert_eq!(
        mock.asked,
        vec![
            scrolls(7, 300),
            scrolls(3, 300),
            scrolls(2, 300),
            scrolls(5, 500),
            scrolls(3, 300),
            scrolls(3, 300),
        ]
    );
    mock.asked.clear();
    run(ScrollStep, Some(&mut mock), &text("+12"), &Json::Null).unwrap();
    run(ScrollStep, Some(&mut mock), &text("down"), &Json::Null).unwrap();
    assert_eq!(
        mock.asked,
        vec![
            Action::Render("+12".to_string()),
            scrolls(12, 300),
            Action::Render("down".to_string()),
            scrolls(3, 300),
        ]
    );
    assert_eq!(
        resume(Stage::ScrollCount, Reply::Value(number(9)), &Json::Null),
        Progress::Ask(Stage::Keep, scrolls(9, 300))
    );
}

#[test]
fn intercepted_requests_are_parsed_in_the_page() {
    let mut mock = MockPage::new(text("parsed"));
    let params = object(vec![("parse", text("r => r.length"))]);
    assert_eq!(run(CollectStep, Some(&mut mock), &params, &text("d")), Ok(text("parsed")));
    assert_eq!(
        mock.asked[1],
        Action::Evaluate(
            "(() => { const parseFn = r => r.length; const requests = [\"a\\\"b\"]; return parseFn(requests); })()"
                .to_string()
        )
    );
    assert_eq!(
        run(CollectStep, Some(&mut mock), &text("r => r"), &Json::Null),
        pipeline("collect step requires a 'parse' field with a JS function")
    );
    assert_eq!(
        collect_requests("f", Err("too deep".to_string())),
        Progress::Done(Err(CliError::pipeline(
            "Failed to serialize intercepted requests: too deep"
        )))
    );
    assert_eq!(
        collect_requests("f", Ok("[1]".to_string())),
        Progress::Ask(
            Stage::Take,
            Action::Evaluate(
                "(() => { const parseFn = f; const requests = [1]; return parseFn(requests); })()"
                    .to_string()
            )
        )
    );
}

#[test]
fn failures_are_passed_on() {
    let error = || CliError {
        kind: ErrorKind::Other,
        message: "page crashed".to_string(),
        suggestions: vec!["reload".to_string()],
    };
    assert_eq!(
        resume(Stage::Keep, Reply::Failed(error()), &Json::Null),
        Progress::Done(Err(error()))
    );
    assert_eq!(
        resume(Stage::Take, Reply::Failed(error()), &Json::Null),
        Progress::Done(Err(error()))
    );
}

#[test]
fn templates_see_the_arguments_and_the_data() {
    let args = vec![("q".to_string(), text("rust")), ("n".to_string(), number(2))];
    let ctx = default_ctx(&text("data"), &args);
    assert_eq!(ctx.args, args);
    assert_eq!(ctx.data, text("data"));
    assert_eq!(ctx.item, Json::Null);
    assert_eq!(ctx.index, 0);
}
