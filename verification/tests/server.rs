use opencli_rs::adapters::AdapterMatch;
use opencli_rs::http::{CallEvent, CallStage};
use opencli_rs::json::Json;
use opencli_rs::language::Language;
use opencli_rs::report::Line;
use opencli_rs::server::{
    can_cut, describe_upload_failure, fetch_adapter_config, fetch_resume, refusal, require_token,
    search_existing_adapters, search_resume, upload_adapter, upload_resume, FetchProgress,
    SearchProgress, ServerRequest, UploadProgress,
};

const EN: Language = Language::English;
const ZH: Language = Language::Chinese;

fn text(s: &str) -> Json {
    Json::String(s.to_string())
}

fn object(entries: Vec<(&str, Json)>) -> Json {
    Json::Object(entries.into_iter().map(|(k, v)| (k.to_string(), v)).collect())
}

fn notes(texts: Vec<&str>) -> Vec<Line> {
    texts.into_iter().map(|t| Line::Note(t.to_string())).collect()
}

fn missing() -> Vec<Line> {
    notes(vec![
        "❌ Not authenticated. Please login to get your token",
        "   https://autocli.ai/get-token",
        "",
        "   After getting your token, run: opencli-rs auth",
    ])
}

#[test]
fn tokens_are_required() {
    assert_eq!(require_token(EN, Some("tok".to_string())), Ok("tok".to_string()));
    assert_eq!(require_token(EN, Some(String::new())), Err(missing()));
    assert_eq!(require_token(EN, None), Err(missing()));
    assert_eq!(
        require_token(ZH, None),
        Err(notes(vec![
            "❌ 未认证，请先登录获取 Token",
            "   https://autocli.ai/get-token",
            "",
            "   获取 Token 后运行: opencli-rs auth",
        ]))
    );
}

#[test]
fn searches_send_the_token() {
    let (lines, request) = search_existing_adapters(EN, "https://s/?q=a", "ua", "tok");
    assert_eq!(lines, notes(vec!["🔍 Searching for existing adapters..."]));
    let expected = ServerRequest {
        url: "https://s/?q=a".to_string(),
        authorization: Some("Bearer tok".to_string()),
        content_type: None,
        user_agent: "ua".to_string(),
        body: None,
        timeout_seconds: 10,
    };
    assert_eq!(request, expected);
    assert_eq!(fetch_adapter_config("https://s/?q=a", "ua", "tok"), expected);
}

#[test]
fn searches_end_with_adapters_or_a_message() {
    let reply = object(vec![(
        "matches",
        Json::Array(vec![object(vec![("command", object(vec![("uuid", text("u"))]))])]),
    )]);
    let found = AdapterMatch {
        match_type: String::new(),
        site_name: String::new(),
        cmd_name: String::new(),
        description: String::new(),
        author: String::new(),
        command_uuid: "u".to_string(),
    };
    let sent = CallStage::Sent;
    let reading = CallStage::ReadingReply;
    assert_eq!(
        search_resume(EN, sent, CallEvent::Status(200)),
        SearchProgress::ReadReply(reading)
    );
    assert_eq!(
        search_resume(EN, sent, CallEvent::Status(403)),
        SearchProgress::Done(Err("❌ Token is invalid or expired. Please get a new one\n   https://autocli.ai/get-token\n\n   After getting a new token, run: opencli-rs auth".to_string()))
    );
    assert_eq!(
        search_resume(ZH, sent, CallEvent::Status(403)),
        SearchProgress::Done(Err("❌ Token 无效或已过期，请重新获取\n   https://autocli.ai/get-token\n\n   获取新 Token 后运行: opencli-rs auth".to_string()))
    );
    assert_eq!(
        search_resume(EN, sent, CallEvent::Status(502)),
        SearchProgress::Done(Err("❌ Server error: 502 Bad Gateway".to_string()))
    );
    assert_eq!(
        search_resume(ZH, sent, CallEvent::Status(404)),
        SearchProgress::Done(Err("❌ 服务器返回错误: 404 Not Found".to_string()))
    );
    assert_eq!(
        search_resume(EN, sent, CallEvent::NoClient("tls".to_string())),
        SearchProgress::Done(Err("Failed to create HTTP client: tls".to_string()))
    );
    assert_eq!(
        search_resume(EN, sent, CallEvent::NotSent("dns".to_string())),
        SearchProgress::Done(Err("❌ Server connection failed, please try again later".to_string()))
    );
    assert_eq!(
        search_resume(EN, reading, CallEvent::BadReply("eof".to_string())),
        SearchProgress::Done(Err("Failed to parse response: eof".to_string()))
    );
    assert_eq!(
        search_resume(EN, reading, CallEvent::Reply(reply)),
        SearchProgress::Done(Ok(vec![found]))
    );
}

#[test]
fn fetches_end_with_an_adapter_or_a_message() {
    let reply = object(vec![("config", object(vec![("content", text("site: a"))]))]);
    let sent = CallStage::Sent;
    let reading = CallStage::ReadingReply;
    assert_eq!(
        fetch_resume(EN, sent, CallEvent::Status(204)),
        FetchProgress::ReadReply(reading)
    );
    assert_eq!(fetch_resume(EN, sent, CallEvent::Status(403)), FetchProgress::Expired);
    assert_eq!(
        fetch_resume(EN, sent, CallEvent::Status(500)),
        FetchProgress::Done(Err("❌ Failed to fetch config: 500 Internal Server Error".to_string()))
    );
    assert_eq!(
        fetch_resume(EN, reading, CallEvent::Reply(reply)),
        FetchProgress::Done(Ok("site: a".to_string()))
    );
    assert_eq!(
        fetch_resume(EN, reading, CallEvent::Reply(Json::Null)),
        FetchProgress::Done(Err("❌ Config content is empty".to_string()))
    );
    assert_eq!(
        fetch_resume(ZH, reading, CallEvent::Reply(Json::Null)),
        FetchProgress::Done(Err("❌ 配置内容为空".to_string()))
    );
    assert_eq!(refusal("head ", "500"), "head 500");
}

#[test]
fn uploads_send_the_adapter() {
    let token = Some("tok".to_string());
    let (lines, request) = upload_adapter(EN, token, "https://u", "ua", "site: a").unwrap();
    assert_eq!(lines, notes(vec!["☁️  Uploading adapter..."]));
    assert_eq!(
        request,
        ServerRequest {
            url: "https://u".to_string(),
            authorization: Some("Bearer tok".to_string()),
            content_type: Some("application/json".to_string()),
            user_agent: "ua".to_string(),
            body: Some(object(vec![("config", text("site: a"))])),
            timeout_seconds: 30,
        }
    );
    assert_eq!(upload_adapter(EN, None, "https://u", "ua", "site: a"), Err(missing()));
}

#[test]
fn uploads_say_how_they_ended() {
    let sent = CallStage::Sent;
    let done = |t: &str| UploadProgress::Done(notes(vec![t]));
    assert_eq!(
        upload_resume(EN, sent, CallEvent::Status(201)),
        done("✅ Adapter uploaded successfully")
    );
    assert_eq!(upload_resume(EN, sent, CallEvent::Status(403)), UploadProgress::Expired);
    assert_eq!(
        upload_resume(EN, sent, CallEvent::Status(400)),
        UploadProgress::ReadBody(CallStage::ReadingError(400))
    );
    assert_eq!(
        upload_resume(EN, CallStage::ReadingError(400), CallEvent::Body("no name".to_string())),
        done("❌ Upload failed 400 Bad Request: no name")
    );
    assert_eq!(
        upload_resume(ZH, sent, CallEvent::NoClient("tls".to_string())),
        done("❌ Failed to create HTTP client: tls")
    );
    assert_eq!(
        upload_resume(EN, sent, CallEvent::NotSent("dns".to_string())),
        done("❌ Upload failed: dns")
    );
}

#[test]
fn long_errors_are_cut_between_characters() {
    let body = format!("{}é{}", "a".repeat(198), "b".repeat(50));
    assert!(can_cut(&body));
    assert_eq!(
        describe_upload_failure(EN, "S", &body),
        format!("❌ Upload failed S: {}é", "a".repeat(198))
    );
    assert!(!can_cut(&format!("{}é", "a".repeat(199))));
    assert!(can_cut(&"é".repeat(100)));
    assert!(!can_cut(&format!("a{}", "é".repeat(100))));
    assert!(can_cut(&"😀".repeat(60)));
    assert!(!can_cut(&"字".repeat(67)));
    assert!(can_cut(""));
}
