use opencli_rs::error::{CliError, ErrorKind};
use opencli_rs::http::{CallEvent, CallStage};
use opencli_rs::json::{document_text, Json};
use opencli_rs::llm::{
    describe_status, generate_with_llm, llm_resume, read_reply, write_message, LlmProgress,
};
use opencli_rs::thinking::{remove_fence, remove_thinking};

fn text(s: &str) -> Json {
    Json::String(s.to_string())
}

fn object(entries: Vec<(&str, Json)>) -> Json {
    Json::Object(entries.into_iter().map(|(k, v)| (k.to_string(), v)).collect())
}

fn reply(content: &str) -> Json {
    object(vec![(
        "choices",
        Json::Array(vec![object(vec![("message", object(vec![("content", text(content))]))])]),
    )])
}

fn http(message: &str) -> CliError {
    CliError::http(message)
}

#[test]
fn request_holds_the_captured_data() {
    let mut captured = serde_json::Map::new();
    captured.insert("title".to_string(), serde_json::Value::String("A \"b\"".to_string()));
    let captured = serde_json::Value::Object(captured);
    let request = generate_with_llm(
        "https://autocli.ai",
        "opencli-rs/1",
        "You write adapters.",
        "tok",
        &captured,
        "hot",
        "example",
    );
    assert_eq!(request.endpoint, "https://autocli.ai/api/ai/v1/chat/completions");
    assert_eq!(request.authorization, "Bearer tok");
    assert_eq!(request.content_type, "application/json");
    assert_eq!(request.user_agent, "opencli-rs/1");
    assert_eq!(request.timeout_seconds, 300);
    let shown = "{\n  \"title\": \"A \\\"b\\\"\"\n}";
    assert_eq!(document_text(&captured), shown);
    let message = "Generate an opencli-rs YAML adapter for site \"example\" with goal \"hot\".\n\nCRITICAL RULES:\n1. The `name` field MUST be exactly \"hot\".\n2. You MUST include a `tags` field with at least 3 English classification tags for the website (e.g. tags: [technology, programming, blog]).\n3. Choose the best extraction approach: DOM scraping OR API calls. If the HTML has structured data, use DOM scraping. If you use API calls, you MUST strictly replicate the original page's request — same HTTP method, same headers, same body, same URL (use Performance API to find it).\n4. Only add required args when the goal genuinely needs user input.\n\nHere is the captured data from the web page:\n\n```json\n{\n  \"title\": \"A \\\"b\\\"\"\n}\n```\n\nReturn ONLY the YAML content, no explanation, no markdown fencing. Just the raw YAML.";
    assert_eq!(write_message("example", "hot", shown), message);
    assert_eq!(
        request.body,
        object(vec![
            (
                "messages",
                Json::Array(vec![
                    object(vec![("role", text("system")), ("content", text("You write adapters."))]),
                    object(vec![("role", text("user")), ("content", text(message))]),
                ])
            ),
            ("stream", Json::Bool(false)),
        ])
    );
}

#[test]
fn thinking_is_taken_out() {
    let removed = |s: &str| remove_thinking(s);
    assert_eq!(removed("a<think>b</think>c"), "ac");
    assert_eq!(removed("<think>x</think>1<think>y</think>2"), "12");
    assert_eq!(removed("a<think>b"), "a");
    assert_eq!(removed("a<thinking>b</thinking>c<thinking></thinking>d"), "acd");
    assert_eq!(removed("<think><think>x</think>y"), "y");
    assert_eq!(removed("a</think>b"), "a</think>b");
    assert_eq!(removed("plain"), "plain");
    assert_eq!(removed("思<think>考</think>了"), "思了");
}

#[test]
fn stray_closing_tags_do_not_matter() {
    assert_eq!(remove_thinking("a</think>b<think>c"), "a</think>b");
    assert_eq!(remove_thinking("a</think>b<think>c</think>d"), "a</think>bd");
    assert_eq!(remove_thinking("</thinking><thinking>x</thinking>y"), "</thinking>y");
    assert_eq!(
        read_reply(&reply("</think>name: x<think>y")),
        Ok("</think>name: x".to_string())
    );
}

#[test]
fn tags_that_come_to_light_are_removed() {
    assert_eq!(remove_thinking("a<thi<thinking>x</thinking>nk>b</think>c"), "ac");
    assert_eq!(remove_thinking("a<thi<thinking></thinking>nk>b"), "a");
}

#[test]
fn fences_are_taken_off() {
    assert_eq!(remove_fence("```yaml\nsite: a\n```"), "site: a");
    assert_eq!(remove_fence("  ```\nsite: a\n```  "), "site: a");
    assert_eq!(remove_fence("site: a\n"), "site: a");
    assert_eq!(remove_fence("```yaml\nsite: a"), "```yaml\nsite: a");
    assert_eq!(remove_fence("site: a\n```"), "site: a");
    assert_eq!(remove_fence("```"), "```");
}

#[test]
fn adapters_are_read_from_replies() {
    assert_eq!(
        read_reply(&reply("<think>hm</think>\n```yaml\nsite: a\n```\n")),
        Ok("site: a".to_string())
    );
    assert_eq!(read_reply(&reply("<think>hm")), Err(http("LLM returned empty content")));
    assert_eq!(
        read_reply(&object(vec![("choices", Json::Array(vec![]))])),
        Err(http("LLM returned empty content"))
    );
    assert_eq!(
        read_reply(&object(vec![("choices", Json::Null)])),
        Err(http("LLM returned empty content"))
    );
    assert_eq!(read_reply(&Json::Null), Err(http("Unexpected LLM response format")));
    assert_eq!(read_reply(&reply("</think><think>")), Ok("</think>".to_string()));
}

#[test]
fn refused_tokens_come_with_advice() {
    assert_eq!(
        llm_resume(CallStage::Sent, CallEvent::Status(403)),
        LlmProgress::Done(Err(CliError {
            kind: ErrorKind::Http,
            message: "Token invalid or expired".to_string(),
            suggestions: vec![
                "Get a new token: https://autocli.ai/get-token".to_string(),
                "Then run: opencli-rs auth".to_string(),
            ],
        }))
    );
}

#[test]
fn other_statuses_are_shown_with_the_text() {
    let stage = CallStage::ReadingError(500);
    assert_eq!(llm_resume(CallStage::Sent, CallEvent::Status(500)), LlmProgress::ReadBody(stage));
    assert_eq!(
        llm_resume(stage, CallEvent::Body("é".repeat(600))),
        LlmProgress::Done(Err(http(&format!(
            "LLM API error 500 Internal Server Error: {}",
            "é".repeat(500)
        ))))
    );
    assert_eq!(
        llm_resume(CallStage::ReadingError(999), CallEvent::Body(String::new())),
        LlmProgress::Done(Err(http("LLM API error 999 <unknown status code>: ")))
    );
    assert_eq!(describe_status("S", "text"), http("LLM API error S: text"));
}

#[test]
fn successes_are_read() {
    let stage = CallStage::ReadingReply;
    assert_eq!(llm_resume(CallStage::Sent, CallEvent::Status(200)), LlmProgress::ReadReply(stage));
    assert_eq!(llm_resume(CallStage::Sent, CallEvent::Status(299)), LlmProgress::ReadReply(stage));
    assert_eq!(
        llm_resume(CallStage::Sent, CallEvent::Status(300)),
        LlmProgress::ReadBody(CallStage::ReadingError(300))
    );
    assert_eq!(
        llm_resume(stage, CallEvent::Reply(reply("site: a"))),
        LlmProgress::Done(Ok("site: a".to_string()))
    );
}

#[test]
fn calls_that_fail_say_why() {
    assert_eq!(
        llm_resume(CallStage::Sent, CallEvent::NoClient("tls".to_string())),
        LlmProgress::Done(Err(http("Failed to create HTTP client: tls")))
    );
    assert_eq!(
        llm_resume(CallStage::Sent, CallEvent::NotSent("dns".to_string())),
        LlmProgress::Done(Err(http("LLM request failed: dns")))
    );
    assert_eq!(
        llm_resume(CallStage::ReadingReply, CallEvent::BadReply("eof".to_string())),
        LlmProgress::Done(Err(http("Failed to parse LLM response: eof")))
    );
}
