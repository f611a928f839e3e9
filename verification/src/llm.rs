//! Asking a language model for an adapter: the request that is sent, and what is made of the
//! response.

use vstd::prelude::*;
use vstd::string::*;

use crate::error::{plain_error, CliError, ErrorKind, ErrorView};
use crate::http::{
    is_status, is_success, status_display, status_text, success, CallEvent, CallStage, FORBIDDEN,
};
use crate::json::{
    compact, compact_json, get_string_under, or_empty, owned_or_empty, pretty, pretty_json,
    string_under, Json, JsonView,
};
use crate::text::{contains, first_chars, join2, join3, lemma_contains, trim};
use crate::thinking::{
    remove_fence, remove_thinking, thinking_is_removed, unwrapped_text_is_part,
    unwrapped_text_is_trimmed, without_fence, without_thinking, THINKING_OPEN, THINK_OPEN,
};

verus! {

pub const COMPLETIONS_PATH: &'static str = "/api/ai/v1/chat/completions";

/// How long the model may take to answer, in seconds.
pub const LLM_TIMEOUT_SECONDS: u64 = 300;

pub const ASK_SITE: &'static str = "Generate an opencli-rs YAML adapter for site \"";

pub const ASK_GOAL: &'static str = "\" with goal \"";

pub const ASK_NAME: &'static str = "\".\n\nCRITICAL RULES:\n1. The `name` field MUST be exactly \"";

pub const ASK_RULES: &'static str = "\".\n2. You MUST include a `tags` field with at least 3 English classification tags for the website (e.g. tags: [technology, programming, blog]).\n3. Choose the best extraction approach: DOM scraping OR API calls. If the HTML has structured data, use DOM scraping. If you use API calls, you MUST strictly replicate the original page's request — same HTTP method, same headers, same body, same URL (use Performance API to find it).\n4. Only add required args when the goal genuinely needs user input.\n\nHere is the captured data from the web page:\n\n```json\n";

pub const ASK_ANSWER: &'static str = "\n```\n\nReturn ONLY the YAML content, no explanation, no markdown fencing. Just the raw YAML.";

/// The captured data as the message shows it: indented, or on one line where that fails.
pub open spec fn shown(captured: serde_json::Value) -> Seq<char> {
    match pretty_json(captured) {
        Some(text) => text,
        None => compact_json(captured),
    }
}

/// The message that asks for an adapter for `site` that reaches `goal`.
pub open spec fn message_text(site: Seq<char>, goal: Seq<char>, data: Seq<char>) -> Seq<char> {
    ASK_SITE@ + site + ASK_GOAL@ + goal + ASK_NAME@ + goal + ASK_RULES@ + data + ASK_ANSWER@
}

/// A message of a conversation.
pub open spec fn chat_message(role: Seq<char>, content: Seq<char>) -> JsonView {
    JsonView::Object(
        seq![
            ("role"@, JsonView::String(role)),
            ("content"@, JsonView::String(content)),
        ],
    )
}

/// The body of a request: the two messages, and that the answer comes in one piece.
pub open spec fn chat_body(system_prompt: Seq<char>, message: Seq<char>) -> JsonView {
    JsonView::Object(
        seq![
            (
                "messages"@,
                JsonView::Array(
                    seq![
                        chat_message("system"@, system_prompt),
                        chat_message("user"@, message),
                    ],
                ),
            ),
            ("stream"@, JsonView::Bool(false)),
        ],
    )
}

/// A request to the server.
#[derive(Debug, PartialEq, Eq)]
pub struct LlmRequest {
    pub endpoint: String,
    pub authorization: String,
    pub content_type: String,
    pub user_agent: String,
    pub body: Json,
    pub timeout_seconds: u64,
}

/// The message, for captured data that is already written out.
pub fn write_message(site: &str, goal: &str, data: &str) -> (r: String)
    ensures
        r@ == message_text(site@, goal@, data@),
{
    let mut out = join3(ASK_SITE, site, ASK_GOAL);
    out.append(goal);
    out.append(ASK_NAME);
    out.append(goal);
    out.append(ASK_RULES);
    out.append(data);
    out.append(ASK_ANSWER);
    out
}

fn write_chat_message(role: &str, content: &str) -> (r: Json)
    ensures
        r@ == chat_message(role@, content@),
{
    let mut entries: Vec<(String, Json)> = Vec::new();
    entries.push(("role".to_owned(), Json::String(role.to_owned())));
    entries.push(("content".to_owned(), Json::String(content.to_owned())));
    let r = Json::Object(entries);
    proof {
        reveal_with_fuel(<Json as View>::view, 2);
        assert(r@->Object_0 =~= chat_message(role@, content@)->Object_0);
    }
    r
}

/// The body of a request.
pub fn write_chat_body(system_prompt: &str, message: &str) -> (r: Json)
    ensures
        r@ == chat_body(system_prompt@, message@),
{
    let mut messages: Vec<Json> = Vec::new();
    messages.push(write_chat_message("system", system_prompt));
    messages.push(write_chat_message("user", message));
    let messages = Json::Array(messages);
    proof {
        reveal_with_fuel(<Json as View>::view, 2);
        assert(messages@->Array_0 =~= seq![
            chat_message("system"@, system_prompt@),
            chat_message("user"@, message@),
        ]);
    }
    let mut entries: Vec<(String, Json)> = Vec::new();
    entries.push(("messages".to_owned(), messages));
    entries.push(("stream".to_owned(), Json::Bool(false)));
    let r = Json::Object(entries);
    proof {
        assert(r@->Object_0 =~= chat_body(system_prompt@, message@)->Object_0);
    }
    r
}

/// The request that sends what was captured from a page of `site` to the model, and asks for an
/// adapter that reaches `goal`.
pub fn generate_with_llm(
    api_base: &str,
    user_agent: &str,
    system_prompt: &str,
    token: &str,
    captured: &serde_json::Value,
    goal: &str,
    site: &str,
) -> (r: LlmRequest)
    ensures
        r.endpoint@ == api_base@ + COMPLETIONS_PATH@,
        r.endpoint@ == api_base@ + "/api/ai/v1/chat/completions"@,
        r.authorization@ == "Bearer "@ + token@,
        r.content_type@ == "application/json"@,
        r.user_agent@ == user_agent@,
        r.body@ == chat_body(system_prompt@, message_text(site@, goal@, shown(*captured))),
        r.timeout_seconds == LLM_TIMEOUT_SECONDS == 300,
{
    let data = match pretty(captured) {
        Some(text) => text,
        None => compact(captured),
    };
    let message = write_message(site, goal, data.as_str());
    LlmRequest {
        endpoint: join2(api_base, COMPLETIONS_PATH),
        authorization: join2("Bearer ", token),
        content_type: "application/json".to_owned(),
        user_agent: user_agent.to_owned(),
        body: write_chat_body(system_prompt, message.as_str()),
        timeout_seconds: LLM_TIMEOUT_SECONDS,
    }
}

/// The text of the first choice of a reply. It is empty where the choice holds no text, and there
/// is none where the reply offers no choices.
pub open spec fn reply_content(reply: JsonView) -> Option<Seq<char>> {
    match reply.get("choices"@) {
        None => None,
        Some(choices) => {
            let message = match choices.first() {
                Some(choice) => choice.get("message"@),
                None => None,
            };
            Some(or_empty(string_under(message, "content"@)))
        },
    }
}

/// The adapter that a text of the model holds, once its thinking was removed.
pub open spec fn yaml_outcome(cleaned: Seq<char>) -> Result<Seq<char>, ErrorView> {
    let yaml = without_fence(cleaned);
    if yaml.len() == 0 {
        Err(plain_error(ErrorKind::Http, "LLM returned empty content"@))
    } else {
        Ok(yaml)
    }
}

/// The adapter that a reply holds.
pub open spec fn reply_outcome(reply: JsonView) -> Result<Seq<char>, ErrorView> {
    match reply_content(reply) {
        None => Err(plain_error(ErrorKind::Http, "Unexpected LLM response format"@)),
        Some(content) => yaml_outcome(without_thinking(content)),
    }
}

/// The view of a text or an error.
pub open spec fn outcome(r: Result<String, CliError>) -> Result<Seq<char>, ErrorView> {
    match r {
        Ok(s) => Ok(s@),
        Err(e) => Err(e@),
    }
}

fn content_of(reply: &Json) -> (r: Option<String>)
    ensures
        match r {
            Some(s) => reply_content(reply@) == Some(s@),
            None => reply_content(reply@) is None,
        },
{
    match reply.get("choices") {
        None => None,
        Some(choices) => {
            let message = match choices.first() {
                Some(choice) => choice.get("message"),
                None => None,
            };
            Some(owned_or_empty(get_string_under(message, "content")))
        },
    }
}

/// The adapter that a reply holds.
pub fn read_reply(reply: &Json) -> (r: Result<String, CliError>)
    ensures
        outcome(r) == reply_outcome(reply@),
{
    let content = match content_of(reply) {
        None => {
            return Err(CliError::http("Unexpected LLM response format"));
        },
        Some(content) => content,
    };
    let cleaned = remove_thinking(content.as_str());
    let yaml = remove_fence(cleaned.as_str());
    if yaml.as_str().is_empty() {
        return Err(CliError::http("LLM returned empty content"));
    }
    Ok(yaml)
}

/// What is to be done next.
#[derive(Debug, PartialEq, Eq)]
pub enum LlmProgress {
    /// Read the text of the answer.
    ReadBody(CallStage),
    /// Read the document of the answer.
    ReadReply(CallStage),
    /// The call has ended.
    Done(Result<String, CliError>),
}

/// The mathematical value of an [`LlmProgress`].
pub ghost enum LlmProgressView {
    ReadBody(CallStage),
    ReadReply(CallStage),
    Done(Result<Seq<char>, ErrorView>),
}

impl View for LlmProgress {
    type V = LlmProgressView;

    open spec fn view(&self) -> LlmProgressView {
        match self {
            LlmProgress::ReadBody(stage) => LlmProgressView::ReadBody(*stage),
            LlmProgress::ReadReply(stage) => LlmProgressView::ReadReply(*stage),
            LlmProgress::Done(r) => LlmProgressView::Done(outcome(*r)),
        }
    }
}

/// The error for a token that the server refuses.
pub open spec fn token_refused() -> ErrorView {
    ErrorView {
        kind: ErrorKind::Http,
        message: "Token invalid or expired"@,
        suggestions: seq![
            "Get a new token: https://autocli.ai/get-token"@,
            "Then run: opencli-rs auth"@,
        ],
    }
}

/// How many characters of an error's text are shown.
pub const ERROR_BODY_CHARS: usize = 500;

/// The error for a status that is displayed as `status`, with the beginning of the text that came
/// with it.
pub open spec fn status_error(status: Seq<char>, body: Seq<char>) -> ErrorView {
    let kept = body.take(
        if ERROR_BODY_CHARS <= body.len() {
            ERROR_BODY_CHARS as int
        } else {
            body.len() as int
        },
    );
    plain_error(ErrorKind::Http, "LLM API error "@ + status + ": "@ + kept)
}

/// What an event makes of a call.
pub open spec fn llm_next(stage: CallStage, event: CallEvent) -> LlmProgressView {
    match event {
        CallEvent::NoClient(e) => LlmProgressView::Done(
            Err(plain_error(ErrorKind::Http, "Failed to create HTTP client: "@ + e@)),
        ),
        CallEvent::NotSent(e) => LlmProgressView::Done(
            Err(plain_error(ErrorKind::Http, "LLM request failed: "@ + e@)),
        ),
        CallEvent::Status(code) => if code == FORBIDDEN {
            LlmProgressView::Done(Err(token_refused()))
        } else if !success(code) {
            LlmProgressView::ReadBody(CallStage::ReadingError(code))
        } else {
            LlmProgressView::ReadReply(CallStage::ReadingReply)
        },
        CallEvent::Body(body) => LlmProgressView::Done(
            Err(status_error(status_text(stage->ReadingError_0), body@)),
        ),
        CallEvent::Reply(reply) => LlmProgressView::Done(reply_outcome(reply@)),
        CallEvent::BadReply(e) => LlmProgressView::Done(
            Err(plain_error(ErrorKind::Http, "Failed to parse LLM response: "@ + e@)),
        ),
    }
}

fn refuse_token() -> (r: CliError)
    ensures
        r@ == token_refused(),
{
    let mut suggestions: Vec<String> = Vec::new();
    suggestions.push("Get a new token: https://autocli.ai/get-token".to_owned());
    suggestions.push("Then run: opencli-rs auth".to_owned());
    let r = CliError {
        kind: ErrorKind::Http,
        message: "Token invalid or expired".to_owned(),
        suggestions,
    };
    proof {
        assert(r@.suggestions =~= token_refused().suggestions);
    }
    r
}

/// The error for a status that is displayed as `status`.
pub fn describe_status(status: &str, body: &str) -> (r: CliError)
    ensures
        r@ == status_error(status@, body@),
{
    let kept = first_chars(body, ERROR_BODY_CHARS);
    let mut message = join3("LLM API error ", status, ": ");
    message.append(kept.as_str());
    CliError::http(message.as_str())
}

/// Takes a call of the model on by one event.
pub fn llm_resume(stage: CallStage, event: CallEvent) -> (r: LlmProgress)
    requires
        stage.fits(event),
    ensures
        r@ == llm_next(stage, event),
{
    match event {
        CallEvent::NoClient(e) => LlmProgress::Done(
            Err(CliError::http(join2("Failed to create HTTP client: ", e.as_str()).as_str())),
        ),
        CallEvent::NotSent(e) => LlmProgress::Done(
            Err(CliError::http(join2("LLM request failed: ", e.as_str()).as_str())),
        ),
        CallEvent::Status(code) => {
            if code == FORBIDDEN {
                LlmProgress::Done(Err(refuse_token()))
            } else if !is_success(code) {
                LlmProgress::ReadBody(CallStage::ReadingError(code))
            } else {
                LlmProgress::ReadReply(CallStage::ReadingReply)
            }
        },
        CallEvent::Body(body) => match stage {
            CallStage::ReadingError(code) => LlmProgress::Done(
                Err(describe_status(status_display(code).as_str(), body.as_str())),
            ),
            _ => {
                proof {
                    assert(false);
                }
                LlmProgress::ReadBody(stage)
            },
        },
        CallEvent::Reply(reply) => LlmProgress::Done(read_reply(&reply)),
        CallEvent::BadReply(e) => LlmProgress::Done(
            Err(CliError::http(join2("Failed to parse LLM response: ", e.as_str()).as_str())),
        ),
    }
}

/// An adapter that was read from a reply is not empty, has no white space around it, and holds no
/// opening tag of a thought. It is a part of the reply's text without its thinking, and so never
/// longer than that text.
pub proof fn adapter_is_clean(reply: JsonView)
    ensures
        reply_outcome(reply) matches Ok(yaml) ==> {
            &&& yaml.len() > 0
            &&& trim(yaml) == yaml
            &&& !contains(yaml, THINK_OPEN@)
            &&& !contains(yaml, THINKING_OPEN@)
            &&& reply_content(reply) matches Some(content) && contains(
                without_thinking(content),
                yaml,
            ) && yaml.len() <= content.len()
        },
{
    if let Some(content) = reply_content(reply) {
        let cleaned = without_thinking(content);
        let yaml = without_fence(cleaned);
        unwrapped_text_is_trimmed(cleaned);
        unwrapped_text_is_part(cleaned);
        thinking_is_removed(content);
        if contains(yaml, THINK_OPEN@) {
            lemma_contains(cleaned, yaml, THINK_OPEN@);
        }
        if contains(yaml, THINKING_OPEN@) {
            lemma_contains(cleaned, yaml, THINKING_OPEN@);
        }
    }
}

/// Every call ends after two events at most: what the first one asks to be read is the last.
pub proof fn llm_call_ends(first: CallEvent, stage: CallStage, second: CallEvent)
    requires
        CallStage::Sent.fits(first),
        ({
            ||| llm_next(CallStage::Sent, first) == LlmProgressView::ReadBody(stage)
            ||| llm_next(CallStage::Sent, first) == LlmProgressView::ReadReply(stage)
        }),
        stage.fits(second),
    ensures
        llm_next(stage, second) is Done,
{
}

/// An adapter comes only from a server that reports success.
pub proof fn adapter_needs_success(code: u16, stage: CallStage)
    requires
        is_status(code),
        llm_next(CallStage::Sent, CallEvent::Status(code)) == LlmProgressView::ReadReply(stage),
    ensures
        success(code),
{
}

} // verus!
