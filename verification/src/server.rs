//! Calls of the adapter server: searching adapters, fetching one, uploading one.

use vstd::prelude::*;
use vstd::string::*;

use crate::adapters::{
    config_content, content_of, match_views, matches_of, read_matches, AdapterMatch, MatchView,
};
use crate::http::{
    is_success, status_display, status_text, success, CallEvent, CallStage, FORBIDDEN,
};
use crate::json::{text_view, Json, JsonView};
use crate::language::Language;
use crate::page::opt_text;
use crate::report::{
    describe_token_expired, line_views, note, notes, report_token_missing, token_expired_text,
    token_missing, Line, LineView,
};
use crate::text::{byte_prefix, first_bytes, join2, join3};

verus! {

/// How long the server may take to find an adapter or to check a token, in seconds.
pub const LOOKUP_TIMEOUT_SECONDS: u64 = 10;

/// How long the server may take to store an adapter, in seconds.
pub const UPLOAD_TIMEOUT_SECONDS: u64 = 30;

/// How many bytes of an error's text are shown.
pub const UPLOAD_ERROR_BYTES: usize = 200;

/// A request to the server. One with a body is a POST, one without is a GET.
#[derive(Debug, PartialEq, Eq)]
pub struct ServerRequest {
    pub url: String,
    pub authorization: Option<String>,
    pub content_type: Option<String>,
    pub user_agent: String,
    pub body: Option<Json>,
    pub timeout_seconds: u64,
}

/// The mathematical value of a [`ServerRequest`].
pub ghost struct RequestView {
    pub url: Seq<char>,
    pub authorization: Option<Seq<char>>,
    pub content_type: Option<Seq<char>>,
    pub user_agent: Seq<char>,
    pub body: Option<JsonView>,
    pub timeout_seconds: u64,
}

impl View for ServerRequest {
    type V = RequestView;

    open spec fn view(&self) -> RequestView {
        RequestView {
            url: self.url@,
            authorization: opt_text(self.authorization),
            content_type: opt_text(self.content_type),
            user_agent: self.user_agent@,
            body: match self.body {
                Some(body) => Some(body@),
                None => None,
            },
            timeout_seconds: self.timeout_seconds,
        }
    }
}

/// A document with one field.
pub open spec fn one_field(key: Seq<char>, value: Seq<char>) -> JsonView {
    JsonView::Object(seq![(key, JsonView::String(value))])
}

pub(crate) fn write_one_field(key: &str, value: &str) -> (r: Json)
    ensures
        r@ == one_field(key@, value@),
{
    let mut entries: Vec<(String, Json)> = Vec::new();
    entries.push((key.to_owned(), Json::String(value.to_owned())));
    let r = Json::Object(entries);
    proof {
        reveal_with_fuel(<Json as View>::view, 2);
        assert(r@->Object_0 =~= one_field(key@, value@)->Object_0);
    }
    r
}

/// A request for what the server knows.
pub open spec fn lookup_request(
    url: Seq<char>,
    user_agent: Seq<char>,
    token: Seq<char>,
) -> RequestView {
    RequestView {
        url,
        authorization: Some("Bearer "@ + token),
        content_type: None,
        user_agent,
        body: None,
        timeout_seconds: LOOKUP_TIMEOUT_SECONDS,
    }
}

fn write_lookup(url: &str, user_agent: &str, token: &str) -> (r: ServerRequest)
    ensures
        r@ == lookup_request(url@, user_agent@, token@),
{
    ServerRequest {
        url: url.to_owned(),
        authorization: Some(join2("Bearer ", token)),
        content_type: None,
        user_agent: user_agent.to_owned(),
        body: None,
        timeout_seconds: LOOKUP_TIMEOUT_SECONDS,
    }
}

/// The token, where there is one.
pub open spec fn usable(token: Option<Seq<char>>) -> bool {
    token matches Some(t) && t.len() > 0
}

/// The token, or what is said where there is none.
pub fn require_token(language: Language, token: Option<String>) -> (r: Result<String, Vec<Line>>)
    ensures
        match r {
            Ok(t) => usable(opt_text(token)) && opt_text(token) == Some(t@),
            Err(lines) => !usable(opt_text(token)) && line_views(lines@) == token_missing(language),
        },
{
    match token {
        Some(t) => {
            if t.as_str().is_empty() {
                Err(report_token_missing(language))
            } else {
                Ok(t)
            }
        },
        None => Err(report_token_missing(language)),
    }
}

/// What an event makes of a lookup.
#[derive(Debug, PartialEq, Eq)]
pub enum Lookup {
    /// Read the document of the answer.
    ReadReply(CallStage),
    /// The server refuses the token.
    Expired,
    /// There is no answer.
    Failed(String),
    /// The answer.
    Answer(Json),
}

/// The mathematical value of a [`Lookup`].
pub ghost enum LookupView {
    ReadReply(CallStage),
    Expired,
    Failed(Seq<char>),
    Answer(JsonView),
}

impl View for Lookup {
    type V = LookupView;

    open spec fn view(&self) -> LookupView {
        match self {
            Lookup::ReadReply(stage) => LookupView::ReadReply(*stage),
            Lookup::Expired => LookupView::Expired,
            Lookup::Failed(e) => LookupView::Failed(e@),
            Lookup::Answer(reply) => LookupView::Answer(reply@),
        }
    }
}

/// The events that can come at a stage of a lookup, which never reads the text of an error.
pub open spec fn lookup_accepts(stage: CallStage, event: CallEvent) -> bool {
    stage.fits(event) && !(event is Body)
}

/// What is said where the server cannot be reached.
pub open spec fn unreachable(language: Language) -> Seq<char> {
    language.says(
        "❌ 服务器连接失败，请稍后再试"@,
        "❌ Server connection failed, please try again later"@,
    )
}

/// What an event makes of a lookup. `refused` begins what is said of a status that is no success.
pub open spec fn lookup_next(
    language: Language,
    refused: Seq<char>,
    event: CallEvent,
) -> LookupView {
    match event {
        CallEvent::NoClient(e) => LookupView::Failed("Failed to create HTTP client: "@ + e@),
        CallEvent::NotSent(_) => LookupView::Failed(unreachable(language)),
        CallEvent::Status(code) => if code == FORBIDDEN {
            LookupView::Expired
        } else if !success(code) {
            LookupView::Failed(refused + status_text(code))
        } else {
            LookupView::ReadReply(CallStage::ReadingReply)
        },
        CallEvent::Reply(reply) => LookupView::Answer(reply@),
        CallEvent::BadReply(e) => LookupView::Failed("Failed to parse response: "@ + e@),
        CallEvent::Body(_) => LookupView::ReadReply(CallStage::ReadingReply),
    }
}

/// What is said of a status that is displayed as `status`.
pub fn refusal(refused: &str, status: &str) -> (r: String)
    ensures
        r@ == refused@ + status@,
{
    join2(refused, status)
}

fn lookup(language: Language, refused: &str, stage: CallStage, event: CallEvent) -> (r: Lookup)
    requires
        lookup_accepts(stage, event),
    ensures
        r@ == lookup_next(language, refused@, event),
{
    match event {
        CallEvent::NoClient(e) => Lookup::Failed(
            join2("Failed to create HTTP client: ", e.as_str()),
        ),
        CallEvent::NotSent(_) => Lookup::Failed(
            language.t(
                "❌ 服务器连接失败，请稍后再试",
                "❌ Server connection failed, please try again later",
            ).to_owned(),
        ),
        CallEvent::Status(code) => {
            if code == FORBIDDEN {
                Lookup::Expired
            } else if !is_success(code) {
                Lookup::Failed(refusal(refused, status_display(code).as_str()))
            } else {
                Lookup::ReadReply(CallStage::ReadingReply)
            }
        },
        CallEvent::Reply(reply) => Lookup::Answer(reply),
        CallEvent::BadReply(e) => Lookup::Failed(join2("Failed to parse response: ", e.as_str())),
        CallEvent::Body(_) => Lookup::ReadReply(CallStage::ReadingReply),
    }
}

/// How far a search has come.
#[derive(Debug, PartialEq, Eq)]
pub enum SearchProgress {
    /// Read the document of the answer.
    ReadReply(CallStage),
    /// What was found, or why nothing can be.
    Done(Result<Vec<AdapterMatch>, String>),
}

/// The mathematical value of a [`SearchProgress`].
pub ghost enum SearchProgressView {
    ReadReply(CallStage),
    Done(Result<Seq<MatchView>, Seq<char>>),
}

/// The view of adapters or a message.
pub open spec fn found_view(r: Result<Vec<AdapterMatch>, String>) -> Result<
    Seq<MatchView>,
    Seq<char>,
> {
    match r {
        Ok(list) => Ok(match_views(list@)),
        Err(e) => Err(e@),
    }
}

impl View for SearchProgress {
    type V = SearchProgressView;

    open spec fn view(&self) -> SearchProgressView {
        match self {
            SearchProgress::ReadReply(stage) => SearchProgressView::ReadReply(*stage),
            SearchProgress::Done(r) => SearchProgressView::Done(found_view(*r)),
        }
    }
}

/// What an event makes of a search. A refused token is a failure like any other.
pub open spec fn search_next(language: Language, event: CallEvent) -> SearchProgressView {
    match lookup_next(language, language.says("❌ 服务器返回错误: "@, "❌ Server error: "@), event) {
        LookupView::ReadReply(stage) => SearchProgressView::ReadReply(stage),
        LookupView::Expired => SearchProgressView::Done(Err(token_expired_text(language))),
        LookupView::Failed(e) => SearchProgressView::Done(Err(e)),
        LookupView::Answer(reply) => SearchProgressView::Done(Ok(matches_of(reply))),
    }
}

/// The search for adapters at the address that the server keeps for a site.
pub fn search_existing_adapters(
    language: Language,
    search_url: &str,
    user_agent: &str,
    token: &str,
) -> (r: (Vec<Line>, ServerRequest))
    ensures
        line_views(r.0@) == notes(
            seq![language.says("🔍 搜索已有配置..."@, "🔍 Searching for existing adapters..."@)],
        ),
        r.1@ == lookup_request(search_url@, user_agent@, token@),
{
    let mut lines: Vec<Line> = Vec::new();
    note(
        &mut lines,
        language.t("🔍 搜索已有配置...", "🔍 Searching for existing adapters..."),
    );
    proof {
        assert(line_views(lines@) =~= notes(
            seq![language.says("🔍 搜索已有配置..."@, "🔍 Searching for existing adapters..."@)],
        ));
    }
    (lines, write_lookup(search_url, user_agent, token))
}

/// Takes a search on by one event.
pub fn search_resume(language: Language, stage: CallStage, event: CallEvent) -> (r: SearchProgress)
    requires
        lookup_accepts(stage, event),
    ensures
        r@ == search_next(language, event),
{
    match lookup(language, language.t("❌ 服务器返回错误: ", "❌ Server error: "), stage, event) {
        Lookup::ReadReply(stage) => SearchProgress::ReadReply(stage),
        Lookup::Expired => SearchProgress::Done(Err(describe_token_expired(language))),
        Lookup::Failed(e) => SearchProgress::Done(Err(e)),
        Lookup::Answer(reply) => SearchProgress::Done(Ok(read_matches(&reply))),
    }
}

/// How far the fetching of an adapter has come.
#[derive(Debug, PartialEq, Eq)]
pub enum FetchProgress {
    /// Read the document of the answer.
    ReadReply(CallStage),
    /// The server refuses the token.
    Expired,
    /// The adapter, or why there is none.
    Done(Result<String, String>),
}

/// The mathematical value of a [`FetchProgress`].
pub ghost enum FetchProgressView {
    ReadReply(CallStage),
    Expired,
    Done(Result<Seq<char>, Seq<char>>),
}

impl View for FetchProgress {
    type V = FetchProgressView;

    open spec fn view(&self) -> FetchProgressView {
        match self {
            FetchProgress::ReadReply(stage) => FetchProgressView::ReadReply(*stage),
            FetchProgress::Expired => FetchProgressView::Expired,
            FetchProgress::Done(r) => FetchProgressView::Done(text_view(*r)),
        }
    }
}

/// What an event makes of the fetching of an adapter.
pub open spec fn fetch_next(language: Language, event: CallEvent) -> FetchProgressView {
    match lookup_next(
        language,
        language.says("❌ 获取配置失败: "@, "❌ Failed to fetch config: "@),
        event,
    ) {
        LookupView::ReadReply(stage) => FetchProgressView::ReadReply(stage),
        LookupView::Expired => FetchProgressView::Expired,
        LookupView::Failed(e) => FetchProgressView::Done(Err(e)),
        LookupView::Answer(reply) => match content_of(reply) {
            Some(content) => FetchProgressView::Done(Ok(content)),
            None => FetchProgressView::Done(
                Err(language.says("❌ 配置内容为空"@, "❌ Config content is empty"@)),
            ),
        },
    }
}

/// The request for the adapter at an address.
pub fn fetch_adapter_config(config_url: &str, user_agent: &str, token: &str) -> (r: ServerRequest)
    ensures
        r@ == lookup_request(config_url@, user_agent@, token@),
{
    write_lookup(config_url, user_agent, token)
}

/// Takes the fetching of an adapter on by one event.
pub fn fetch_resume(language: Language, stage: CallStage, event: CallEvent) -> (r: FetchProgress)
    requires
        lookup_accepts(stage, event),
    ensures
        r@ == fetch_next(language, event),
{
    match lookup(
        language,
        language.t("❌ 获取配置失败: ", "❌ Failed to fetch config: "),
        stage,
        event,
    ) {
        Lookup::ReadReply(stage) => FetchProgress::ReadReply(stage),
        Lookup::Expired => FetchProgress::Expired,
        Lookup::Failed(e) => FetchProgress::Done(Err(e)),
        Lookup::Answer(reply) => match config_content(&reply) {
            Some(content) => FetchProgress::Done(Ok(content)),
            None => FetchProgress::Done(
                Err(language.t("❌ 配置内容为空", "❌ Config content is empty").to_owned()),
            ),
        },
    }
}

/// A request that stores an adapter.
pub open spec fn upload_request(
    url: Seq<char>,
    user_agent: Seq<char>,
    token: Seq<char>,
    yaml: Seq<char>,
) -> RequestView {
    RequestView {
        url,
        authorization: Some("Bearer "@ + token),
        content_type: Some("application/json"@),
        user_agent,
        body: Some(one_field("config"@, yaml)),
        timeout_seconds: UPLOAD_TIMEOUT_SECONDS,
    }
}

/// The upload of an adapter, or what is said where there is no token for it.
pub fn upload_adapter(
    language: Language,
    token: Option<String>,
    upload_url: &str,
    user_agent: &str,
    yaml: &str,
) -> (r: Result<(Vec<Line>, ServerRequest), Vec<Line>>)
    ensures
        match r {
            Ok((lines, request)) => {
                &&& usable(opt_text(token))
                &&& line_views(lines@) == notes(
                    seq![language.says("☁️  正在上传配置..."@, "☁️  Uploading adapter..."@)],
                )
                &&& request@ == upload_request(
                    upload_url@,
                    user_agent@,
                    opt_text(token)->0,
                    yaml@,
                )
            },
            Err(lines) => !usable(opt_text(token)) && line_views(lines@) == token_missing(language),
        },
{
    let token = match require_token(language, token) {
        Ok(t) => t,
        Err(lines) => {
            return Err(lines);
        },
    };
    let mut lines: Vec<Line> = Vec::new();
    note(&mut lines, language.t("☁️  正在上传配置...", "☁️  Uploading adapter..."));
    proof {
        assert(line_views(lines@) =~= notes(
            seq![language.says("☁️  正在上传配置..."@, "☁️  Uploading adapter..."@)],
        ));
    }
    let request = ServerRequest {
        url: upload_url.to_owned(),
        authorization: Some(join2("Bearer ", token.as_str())),
        content_type: Some("application/json".to_owned()),
        user_agent: user_agent.to_owned(),
        body: Some(write_one_field("config", yaml)),
        timeout_seconds: UPLOAD_TIMEOUT_SECONDS,
    };
    Ok((lines, request))
}

/// How far an upload has come.
#[derive(Debug, PartialEq, Eq)]
pub enum UploadProgress {
    /// Read the text of the answer.
    ReadBody(CallStage),
    /// The server refuses the token.
    Expired,
    /// What is said of the upload.
    Done(Vec<Line>),
}

/// The mathematical value of an [`UploadProgress`].
pub ghost enum UploadProgressView {
    ReadBody(CallStage),
    Expired,
    Done(Seq<LineView>),
}

impl View for UploadProgress {
    type V = UploadProgressView;

    open spec fn view(&self) -> UploadProgressView {
        match self {
            UploadProgress::ReadBody(stage) => UploadProgressView::ReadBody(*stage),
            UploadProgress::Expired => UploadProgressView::Expired,
            UploadProgress::Done(lines) => UploadProgressView::Done(line_views(lines@)),
        }
    }
}

/// The text of an error can be cut where it has to be: not inside a character.
pub open spec fn can_be_cut(body: Seq<char>) -> bool {
    byte_prefix(body, UPLOAD_ERROR_BYTES as nat) is Some
}

/// The events that can come at a stage of an upload, which never reads a document.
pub open spec fn upload_accepts(stage: CallStage, event: CallEvent) -> bool {
    &&& stage.fits(event)
    &&& !(event is Reply)
    &&& !(event is BadReply)
    &&& event matches CallEvent::Body(body) ==> can_be_cut(body@)
}

/// What is said of an upload that was answered with a status that is displayed as `status`.
pub open spec fn upload_failure(language: Language, status: Seq<char>, body: Seq<char>) -> Seq<
    char,
> {
    language.says("❌ 上传失败 "@, "❌ Upload failed "@) + status + ": "@ + byte_prefix(
        body,
        UPLOAD_ERROR_BYTES as nat,
    )->0
}

/// What an event makes of an upload.
pub open spec fn upload_next(
    language: Language,
    stage: CallStage,
    event: CallEvent,
) -> UploadProgressView {
    match event {
        CallEvent::NoClient(e) => UploadProgressView::Done(
            notes(seq!["❌ Failed to create HTTP client: "@ + e@]),
        ),
        CallEvent::NotSent(e) => UploadProgressView::Done(
            notes(seq![language.says("❌ 上传失败: "@, "❌ Upload failed: "@) + e@]),
        ),
        CallEvent::Status(code) => if success(code) {
            UploadProgressView::Done(
                notes(
                    seq![language.says("✅ 配置上传成功"@, "✅ Adapter uploaded successfully"@)],
                ),
            )
        } else if code == FORBIDDEN {
            UploadProgressView::Expired
        } else {
            UploadProgressView::ReadBody(CallStage::ReadingError(code))
        },
        CallEvent::Body(body) => UploadProgressView::Done(
            notes(seq![upload_failure(language, status_text(stage->ReadingError_0), body@)]),
        ),
        _ => UploadProgressView::Expired,
    }
}

/// Whether the text of an error can be cut where it has to be.
pub fn can_cut(body: &str) -> (r: bool)
    ensures
        r == can_be_cut(body@),
{
    first_bytes(body, UPLOAD_ERROR_BYTES).is_some()
}

/// What is said of an upload that was answered with a status that is displayed as `status`.
pub fn describe_upload_failure(language: Language, status: &str, body: &str) -> (r: String)
    requires
        can_be_cut(body@),
    ensures
        r@ == upload_failure(language, status@, body@),
{
    let kept = first_bytes(body, UPLOAD_ERROR_BYTES).unwrap();
    let mut text = join3(language.t("❌ 上传失败 ", "❌ Upload failed "), status, ": ");
    text.append(kept.as_str());
    text
}

fn said(text: &str) -> (r: UploadProgress)
    ensures
        r@ == UploadProgressView::Done(notes(seq![text@])),
{
    let mut lines: Vec<Line> = Vec::new();
    note(&mut lines, text);
    proof {
        assert(line_views(lines@) =~= notes(seq![text@]));
    }
    UploadProgress::Done(lines)
}

/// Takes an upload on by one event.
pub fn upload_resume(language: Language, stage: CallStage, event: CallEvent) -> (r: UploadProgress)
    requires
        upload_accepts(stage, event),
    ensures
        r@ == upload_next(language, stage, event),
{
    match event {
        CallEvent::NoClient(e) => said(
            join2("❌ Failed to create HTTP client: ", e.as_str()).as_str(),
        ),
        CallEvent::NotSent(e) => said(
            join2(language.t("❌ 上传失败: ", "❌ Upload failed: "), e.as_str()).as_str(),
        ),
        CallEvent::Status(code) => {
            if is_success(code) {
                said(language.t("✅ 配置上传成功", "✅ Adapter uploaded successfully"))
            } else if code == FORBIDDEN {
                UploadProgress::Expired
            } else {
                UploadProgress::ReadBody(CallStage::ReadingError(code))
            }
        },
        CallEvent::Body(body) => match stage {
            CallStage::ReadingError(code) => said(
                describe_upload_failure(
                    language,
                    status_display(code).as_str(),
                    body.as_str(),
                ).as_str(),
            ),
            _ => UploadProgress::Expired,
        },
        _ => UploadProgress::Expired,
    }
}

/// Whatever the server answers, a call of it ends after two events at most.
pub proof fn server_calls_end(
    language: Language,
    first: CallEvent,
    stage: CallStage,
    second: CallEvent,
)
    ensures
        lookup_accepts(CallStage::Sent, first) && search_next(language, first)
            == SearchProgressView::ReadReply(stage) && lookup_accepts(stage, second)
            ==> search_next(language, second) is Done,
        lookup_accepts(CallStage::Sent, first) && fetch_next(language, first)
            == FetchProgressView::ReadReply(stage) && lookup_accepts(stage, second) ==> fetch_next(
            language,
            second,
        ) is Done,
        upload_accepts(CallStage::Sent, first) && upload_next(language, CallStage::Sent, first)
            == UploadProgressView::ReadBody(stage) && upload_accepts(stage, second) ==> upload_next(
            language,
            stage,
            second,
        ) is Done,
{
}

/// A token is called expired exactly when the server answers that it is forbidden, by the fetching
/// of an adapter as by an upload.
pub proof fn only_forbidden_means_expired(language: Language, event: CallEvent)
    requires
        lookup_accepts(CallStage::Sent, event),
    ensures
        fetch_next(language, event) is Expired <==> event == CallEvent::Status(FORBIDDEN),
        upload_next(language, CallStage::Sent, event) is Expired <==> event == CallEvent::Status(
            FORBIDDEN,
        ),
{
}

/// A search that fails says why: no message is empty, and a refused token has its own.
pub proof fn failed_searches_say_why(language: Language, stage: CallStage, event: CallEvent)
    requires
        lookup_accepts(stage, event),
    ensures
        search_next(language, CallEvent::Status(FORBIDDEN)) == SearchProgressView::Done(
            Err(token_expired_text(language)),
        ),
        search_next(language, event) matches SearchProgressView::Done(Err(message))
            ==> message.len() > 0,
{
    reveal_strlit("\n\n   ");
    reveal_strlit("❌ 服务器返回错误: ");
    reveal_strlit("❌ Server error: ");
    reveal_strlit("❌ 服务器连接失败，请稍后再试");
    reveal_strlit("❌ Server connection failed, please try again later");
    reveal_strlit("Failed to create HTTP client: ");
    reveal_strlit("Failed to parse response: ");
}

/// Adapters are read only from a server that reports success, and an upload is said to have
/// succeeded exactly then.
pub proof fn answers_need_success(language: Language, code: u16)
    requires
        crate::http::is_status(code),
    ensures
        search_next(language, CallEvent::Status(code)) is ReadReply <==> success(code),
        fetch_next(language, CallEvent::Status(code)) is ReadReply <==> success(code),
        upload_next(language, CallStage::Sent, CallEvent::Status(code)) is Done <==> success(code),
{
}

} // verus!
