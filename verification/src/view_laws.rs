//! The mathematical value of everything that the library takes and gives is made of all its parts.

use vstd::prelude::*;

use crate::adapters::{labels_of, label_of, match_views, AdapterMatch, MatchView};
use crate::auth::{
    AuthAction, AuthActionView, AuthEvent, AuthEventView, AuthNext, AuthNextView, AuthProgress,
    AuthStage, AuthStageView,
};
use crate::bridge::{ConnectAction, ConnectProgress, ConnectProgressView, ConnectStage};
use crate::error::CliError;
use crate::flow::{
    effect_views, Effect, EffectView, FlowAction, FlowActionView, FlowEvent, FlowEventView,
    FlowNext, FlowNextView, FlowProgress, FlowStage, FlowStageView,
};
use crate::http::CallStage;
use crate::json::{opt_json, opt_str, text_view, Json};
use crate::llm::{outcome, LlmProgress, LlmProgressView};
use crate::page::{
    opt_text, Action, ActionView, AutoScrollOptions, Reply, ReplyView, ScreenshotOptions,
    SnapshotOptions,
};
use crate::report::{line_views, notes, Line, LineView};
use crate::route::pair_views;
use crate::server::{
    found_view, FetchProgress, FetchProgressView, SearchProgress, SearchProgressView,
    ServerRequest, UploadProgress, UploadProgressView,
};
use crate::steps::{same_args, Progress, ProgressView, Stage, StageView, Target};
use crate::text::views;

verus! {

/// Lists keep their length and their order, and every item in them its value.
pub proof fn lists_hold_their_items(
    texts: Seq<String>,
    lines: Seq<Line>,
    matches: Seq<AdapterMatch>,
    effects: Seq<Effect>,
    pairs: Seq<(String, String)>,
    known: Seq<MatchView>,
    said: Seq<Seq<char>>,
    i: int,
)
    ensures
        views(texts).len() == texts.len(),
        0 <= i < texts.len() ==> views(texts)[i] == texts[i]@,
        line_views(lines).len() == lines.len(),
        0 <= i < lines.len() ==> line_views(lines)[i] == lines[i]@,
        match_views(matches).len() == matches.len(),
        0 <= i < matches.len() ==> match_views(matches)[i] == matches[i]@,
        effect_views(effects).len() == effects.len(),
        0 <= i < effects.len() ==> effect_views(effects)[i] == effects[i]@,
        pair_views(pairs).len() == pairs.len(),
        0 <= i < pairs.len() ==> pair_views(pairs)[i] == (pairs[i].0@, pairs[i].1@),
        labels_of(known).len() == known.len(),
        0 <= i < known.len() ==> labels_of(known)[i] == label_of(known[i]),
        notes(said).len() == said.len(),
        0 <= i < said.len() ==> notes(said)[i] == LineView::Note(said[i]),
{
}

/// Arguments are the same where all their names and all their values are.
pub proof fn same_arguments_agree(a: Seq<(String, Json)>, b: Seq<(String, Json)>, i: int)
    ensures
        same_args(a, b) ==> a.len() == b.len(),
        same_args(a, b) && 0 <= i < a.len() ==> a[i].0@ == b[i].0@ && a[i].1@ == b[i].1@,
        same_args(a, a),
{
}

/// What may be missing is missing exactly where it is, and otherwise has its value.
pub proof fn options_hold_their_value(text: String, word: &str, document: &Json)
    ensures
        opt_text(Some(text)) == Some(text@),
        opt_text(None) is None,
        opt_str(Some(word)) == Some(word@),
        opt_str(None) is None,
        opt_json(Some(document)) == Some(document@),
        opt_json(None) is None,
{
}

/// A result has the value of what it holds.
pub proof fn results_hold_their_value(
    text: String,
    message: String,
    list: Vec<AdapterMatch>,
    error: CliError,
)
    ensures
        text_view(Ok(text)) == Ok::<Seq<char>, Seq<char>>(text@),
        text_view(Err(message)) == Err::<Seq<char>, Seq<char>>(message@),
        found_view(Ok(list)) == Ok::<Seq<MatchView>, Seq<char>>(match_views(list@)),
        found_view(Err(message)) == Err::<Seq<MatchView>, Seq<char>>(message@),
        outcome(Ok(text)) == Ok::<Seq<char>, crate::error::ErrorView>(text@),
        outcome(Err(error)) == Err::<Seq<char>, crate::error::ErrorView>(error@),
{
}

/// An error, a line, an adapter and a request have all that they were given.
pub proof fn records_hold_their_fields(
    error: CliError,
    text: String,
    m: AdapterMatch,
    request: ServerRequest,
)
    ensures
        error@.kind == error.kind,
        error@.message == error.message@,
        error@.suggestions == views(error.suggestions@),
        Line::Note(text)@ == LineView::Note(text@),
        Line::Output(text)@ == LineView::Output(text@),
        m@.match_type == m.match_type@,
        m@.site_name == m.site_name@,
        m@.cmd_name == m.cmd_name@,
        m@.description == m.description@,
        m@.author == m.author@,
        m@.command_uuid == m.command_uuid@,
        request@.url == request.url@,
        request@.authorization == opt_text(request.authorization),
        request@.content_type == opt_text(request.content_type),
        request@.user_agent == request.user_agent@,
        request@.timeout_seconds == request.timeout_seconds,
        request@.body is Some <==> request.body is Some,
        request.body matches Some(body) ==> request@.body == Some(body@),
{
}

/// What a step asks of a page is what the page is asked.
pub proof fn actions_hold_their_parts(
    a: String,
    b: String,
    ms: u64,
    snapshot: SnapshotOptions,
    screenshot: ScreenshotOptions,
    scroll: AutoScrollOptions,
)
    ensures
        Action::Render(a)@ == ActionView::Render(a@),
        Action::Goto(a)@ == ActionView::Goto(a@),
        Action::Click(a)@ == ActionView::Click(a@),
        (Action::TypeText { selector: a, text: b })@ == (ActionView::TypeText {
            selector: a@,
            text: b@,
        }),
        Action::WaitForTimeout(ms)@ == ActionView::WaitForTimeout(ms),
        Action::WaitForSelector(a)@ == ActionView::WaitForSelector(a@),
        Action::Evaluate(a)@ == ActionView::Evaluate(a@),
        Action::Snapshot(None)@ == ActionView::Snapshot(None),
        Action::Snapshot(Some(snapshot))@ == ActionView::Snapshot(Some(snapshot@)),
        Action::Screenshot(None)@ == ActionView::Screenshot(None),
        Action::Screenshot(Some(screenshot))@ == ActionView::Screenshot(Some(screenshot@)),
        Action::AutoScroll(scroll)@ == ActionView::AutoScroll(scroll),
        Action::InterceptedRequests@ == ActionView::InterceptedRequests,
        snapshot@.selector == opt_text(snapshot.selector),
        snapshot@.include_hidden == snapshot.include_hidden,
        screenshot@.path == opt_text(screenshot.path),
        screenshot@.full_page == screenshot.full_page,
        screenshot@.selector == opt_text(screenshot.selector),
{
}

/// What a page answers is what the step is told.
pub proof fn replies_hold_their_parts(
    document: Json,
    bytes: Vec<u8>,
    requests: Vec<serde_json::Value>,
    error: CliError,
)
    ensures
        Reply::Unit@ == ReplyView::Unit,
        Reply::Value(document)@ == ReplyView::Value(document@),
        Reply::Bytes(bytes)@ == ReplyView::Bytes(bytes@),
        Reply::Requests(requests)@ == ReplyView::Requests(requests@),
        Reply::Failed(error)@ == ReplyView::Failed(error@),
{
}

/// A stage of a step, and how far the step has come, hold their parts.
pub proof fn steps_hold_their_parts(
    target: Target,
    text: String,
    document: Json,
    stage: Stage,
    action: Action,
    error: CliError,
)
    ensures
        Stage::Rendered(target)@ == StageView::Rendered(target),
        (Stage::TypeSelector { text })@ == (StageView::TypeSelector { text: text@ }),
        (Stage::TypeText { selector: document })@ == (StageView::TypeText { selector: document@ }),
        Stage::ScrollCount@ == StageView::ScrollCount,
        Stage::Keep@ == StageView::Keep,
        Stage::Take@ == StageView::Take,
        Stage::Snapshot@ == StageView::Snapshot,
        Stage::Screenshot@ == StageView::Screenshot,
        (Stage::Collect { parse: text })@ == (StageView::Collect { parse: text@ }),
        Progress::Ask(stage, action)@ == ProgressView::Ask(stage@, action@),
        Progress::Done(Ok(document))@ == ProgressView::Done(Ok(document@)),
        Progress::Done(Err(error))@ == ProgressView::Done(Err(error@)),
{
}

/// How far a connection has come.
pub proof fn connections_hold_their_parts(
    stage: ConnectStage,
    action: ConnectAction,
    error: CliError,
)
    ensures
        ConnectProgress::Ask(stage, action)@ == ConnectProgressView::Ask(stage, action),
        ConnectProgress::Open@ == ConnectProgressView::Open,
        ConnectProgress::Failed(error)@ == ConnectProgressView::Failed(error@),
{
}

/// How far a call of the model or of the server has come.
pub proof fn calls_hold_their_parts(
    stage: CallStage,
    reply: Result<String, CliError>,
    found: Result<Vec<AdapterMatch>, String>,
    fetched: Result<String, String>,
    lines: Vec<Line>,
)
    ensures
        LlmProgress::ReadBody(stage)@ == LlmProgressView::ReadBody(stage),
        LlmProgress::ReadReply(stage)@ == LlmProgressView::ReadReply(stage),
        LlmProgress::Done(reply)@ == LlmProgressView::Done(outcome(reply)),
        SearchProgress::ReadReply(stage)@ == SearchProgressView::ReadReply(stage),
        SearchProgress::Done(found)@ == SearchProgressView::Done(found_view(found)),
        FetchProgress::ReadReply(stage)@ == FetchProgressView::ReadReply(stage),
        FetchProgress::Expired@ == FetchProgressView::Expired,
        FetchProgress::Done(fetched)@ == FetchProgressView::Done(text_view(fetched)),
        UploadProgress::ReadBody(stage)@ == UploadProgressView::ReadBody(stage),
        UploadProgress::Expired@ == UploadProgressView::Expired,
        UploadProgress::Done(lines)@ == UploadProgressView::Done(line_views(lines@)),
{
}

/// What a flow does and asks for.
pub proof fn flows_hold_their_parts(
    line: Line,
    a: String,
    b: String,
    c: String,
    list: Vec<AdapterMatch>,
    options: Vec<String>,
    progress: FlowProgress,
)
    ensures
        Effect::Say(line)@ == EffectView::Say(line@),
        Effect::ClosePage@ == EffectView::ClosePage,
        (Effect::Save { site: a, name: b, yaml: c })@ == (EffectView::Save {
            site: a@,
            name: b@,
            yaml: c@,
        }),
        FlowStage::Searching@ == FlowStageView::Searching,
        FlowStage::Choosing(list)@ == FlowStageView::Choosing(match_views(list@)),
        (FlowStage::Fetching { site: a, name: b })@ == (FlowStageView::Fetching {
            site: a@,
            name: b@,
        }),
        FlowStage::Generating@ == FlowStageView::Generating,
        FlowStage::Uploading@ == FlowStageView::Uploading,
        (FlowAction::Search { url: a })@ == (FlowActionView::Search { url: a@ }),
        (FlowAction::Select { prompt: a, options })@ == (FlowActionView::Select {
            prompt: a@,
            options: views(options@),
        }),
        (FlowAction::Fetch { uuid: a })@ == (FlowActionView::Fetch { uuid: a@ }),
        (FlowAction::Generate { goal: a })@ == (FlowActionView::Generate { goal: a@ }),
        (FlowAction::Upload { yaml: a })@ == (FlowActionView::Upload { yaml: a@ }),
        progress@.effects == effect_views(progress.effects@),
        match progress.next {
            FlowNext::Ask(stage, action) => progress@.next == FlowNextView::Ask(stage@, action@),
            FlowNext::End(code) => progress@.next == FlowNextView::End(code),
        },
{
}

/// What a flow is told.
pub proof fn flow_events_hold_their_parts(
    found: Result<Vec<AdapterMatch>, String>,
    config: Result<String, String>,
    a: String,
    b: String,
    c: String,
    suggestions: Vec<String>,
    lines: Vec<Line>,
)
    ensures
        FlowEvent::Found(found)@ == FlowEventView::Found(found_view(found)),
        FlowEvent::Expired@ == FlowEventView::Expired,
        FlowEvent::Chosen(a)@ == FlowEventView::Chosen(a@),
        FlowEvent::Cancelled@ == FlowEventView::Cancelled,
        FlowEvent::Config(config)@ == FlowEventView::Config(text_view(config)),
        (FlowEvent::Adapter { site: a, name: b, yaml: c })@ == (FlowEventView::Adapter {
            site: a@,
            name: b@,
            yaml: c@,
        }),
        (FlowEvent::Failed { icon: a, shown: b, suggestions })@ == (FlowEventView::Failed {
            icon: a@,
            shown: b@,
            suggestions: views(suggestions@),
        }),
        FlowEvent::NoToken@ == FlowEventView::NoToken,
        FlowEvent::Uploaded(lines)@ == FlowEventView::Uploaded(line_views(lines@)),
{
}

/// What an authentication asks for, what it is told, and how it goes on.
pub proof fn authentications_hold_their_parts(a: String, reply: Json, progress: AuthProgress)
    ensures
        AuthStage::Entering@ == AuthStageView::Entering,
        AuthStage::Verifying(a)@ == AuthStageView::Verifying(a@),
        AuthStage::Saving@ == AuthStageView::Saving,
        AuthAction::Prompt(a)@ == AuthActionView::Prompt(a@),
        AuthAction::Verify(a)@ == AuthActionView::Verify(a@),
        AuthAction::Save(a)@ == AuthActionView::Save(a@),
        AuthEvent::Entered(a)@ == AuthEventView::Entered(a@),
        AuthEvent::Cancelled@ == AuthEventView::Cancelled,
        AuthEvent::Answer(reply)@ == AuthEventView::Answer(reply@),
        AuthEvent::Unreachable@ == AuthEventView::Unreachable,
        AuthEvent::Saved(a)@ == AuthEventView::Saved(a@),
        AuthEvent::NotSaved(a)@ == AuthEventView::NotSaved(a@),
        progress@.lines == line_views(progress.lines@),
        match progress.next {
            AuthNext::Ask(stage, action) => progress@.next == AuthNextView::Ask(stage@, action@),
            AuthNext::End(code) => progress@.next == AuthNextView::End(code),
        },
{
}

} // verus!
