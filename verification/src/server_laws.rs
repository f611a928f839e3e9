//! What holds of the calls of the server, of the way to a token, and of what is said.

use vstd::prelude::*;

use crate::auth::{
    auth_first, auth_next, says_valid, verify_view, AuthActionView, AuthEventView, AuthNextView,
    AuthStageView,
};
use crate::adapters::{content_of, matches_of};
use crate::http::{is_status, status_text, success, CallEvent, CallStage};
use crate::json::{Json, JsonView};
use crate::language::Language;
use crate::report::{
    error_lines, no_command, saved, token_expired, token_expired_text, token_missing,
    unknown_command, unsaved, LineView,
};
use crate::server::{
    fetch_next, lookup_request, search_next, upload_next, upload_request, usable,
    FetchProgressView, SearchProgressView, UploadProgressView,
};
use crate::text::byte_prefix;

verus! {

/// A status means success from 200 to 299, and only there.
pub proof fn success_is_two_hundred(code: u16)
    ensures
        success(code) <==> 200 <= code <= 299,
        is_status(code) <==> 100 <= code <= 999,
{
}

/// A token is usable if there is one and it is not empty.
pub proof fn empty_tokens_are_unusable(token: Seq<char>)
    ensures
        !usable(None),
        usable(Some(token)) <==> token.len() > 0,
{
}

/// A lookup asks for its address with the token, sends nothing else and waits ten seconds.
pub proof fn lookups_send_the_token(url: Seq<char>, agent: Seq<char>, token: Seq<char>)
    ensures
        ({
            let request = lookup_request(url, agent, token);
            &&& request.url == url
            &&& request.authorization == Some("Bearer "@ + token)
            &&& request.user_agent == agent
            &&& request.content_type is None && request.body is None
            &&& request.timeout_seconds == 10
        }),
{
}

/// An upload sends the adapter, all of it, with the token, and waits thirty seconds.
pub proof fn uploads_send_the_adapter(
    url: Seq<char>,
    agent: Seq<char>,
    token: Seq<char>,
    yaml: Seq<char>,
)
    ensures
        ({
            let request = upload_request(url, agent, token, yaml);
            &&& request.url == url
            &&& request.authorization == Some("Bearer "@ + token)
            &&& request.user_agent == agent
            &&& request.content_type == Some("application/json"@)
            &&& request.body == Some(
                JsonView::Object(seq![("config"@, JsonView::String(yaml))]),
            )
            &&& request.timeout_seconds == 30
        }),
{
}

/// A check sends the token in a document, and nowhere else, and waits ten seconds.
pub proof fn checks_send_the_token(agent: Seq<char>, token: Seq<char>)
    ensures
        ({
            let request = verify_view(agent, token);
            &&& request.url == "https://autocli.ai/api/auth/tokens/verify"@
            &&& request.authorization is None
            &&& request.user_agent == agent
            &&& request.content_type == Some("application/json"@)
            &&& request.body == Some(
                JsonView::Object(seq![("token"@, JsonView::String(token))]),
            )
            &&& request.timeout_seconds == 10
        }),
{
}

/// A search gives the adapters of the answer, all that can be read from it, or says what failed.
pub proof fn searches_end_as_they_went(language: Language, e: String, reply: Json, code: u16)
    requires
        is_status(code),
    ensures
        search_next(language, CallEvent::Reply(reply)) == SearchProgressView::Done(
            Ok(matches_of(reply@)),
        ),
        search_next(language, CallEvent::NoClient(e)) == SearchProgressView::Done(
            Err("Failed to create HTTP client: "@ + e@),
        ),
        search_next(language, CallEvent::NotSent(e)) == SearchProgressView::Done(
            Err(
                language.says(
                    "❌ 服务器连接失败，请稍后再试"@,
                    "❌ Server connection failed, please try again later"@,
                ),
            ),
        ),
        search_next(language, CallEvent::BadReply(e)) == SearchProgressView::Done(
            Err("Failed to parse response: "@ + e@),
        ),
        200 <= code <= 299 ==> search_next(language, CallEvent::Status(code))
            == SearchProgressView::ReadReply(CallStage::ReadingReply),
        code == 403 ==> search_next(language, CallEvent::Status(code)) == SearchProgressView::Done(
            Err(token_expired_text(language)),
        ),
        !(200 <= code <= 299) && code != 403 ==> search_next(language, CallEvent::Status(code))
            == SearchProgressView::Done(
            Err(language.says("❌ 服务器返回错误: "@, "❌ Server error: "@) + status_text(code)),
        ),
{
}

/// A fetch gives the text of the adapter, all of it, or says what failed.
pub proof fn fetches_end_as_they_went(language: Language, e: String, reply: Json, code: u16)
    requires
        is_status(code),
    ensures
        content_of(reply@) matches Some(text) ==> fetch_next(language, CallEvent::Reply(reply))
            == FetchProgressView::Done(Ok(text)),
        content_of(reply@) is None ==> fetch_next(language, CallEvent::Reply(reply))
            == FetchProgressView::Done(
            Err(language.says("❌ 配置内容为空"@, "❌ Config content is empty"@)),
        ),
        fetch_next(language, CallEvent::NoClient(e)) == FetchProgressView::Done(
            Err("Failed to create HTTP client: "@ + e@),
        ),
        fetch_next(language, CallEvent::NotSent(e)) == FetchProgressView::Done(
            Err(
                language.says(
                    "❌ 服务器连接失败，请稍后再试"@,
                    "❌ Server connection failed, please try again later"@,
                ),
            ),
        ),
        fetch_next(language, CallEvent::BadReply(e)) == FetchProgressView::Done(
            Err("Failed to parse response: "@ + e@),
        ),
        200 <= code <= 299 ==> fetch_next(language, CallEvent::Status(code))
            == FetchProgressView::ReadReply(CallStage::ReadingReply),
        code == 403 ==> fetch_next(language, CallEvent::Status(code)) is Expired,
        !(200 <= code <= 299) && code != 403 ==> fetch_next(language, CallEvent::Status(code))
            == FetchProgressView::Done(
            Err(
                language.says("❌ 获取配置失败: "@, "❌ Failed to fetch config: "@) + status_text(
                    code,
                ),
            ),
        ),
{
}

/// The upload has ended, and this one line is said of it.
pub open spec fn ends_saying(progress: UploadProgressView, text: Seq<char>) -> bool {
    progress matches UploadProgressView::Done(lines) && lines.len() == 1 && lines[0]
        == LineView::Note(text)
}

/// An upload says how it ended. What the server answers to a failure is shown, of which no more
/// than 200 bytes are kept.
pub proof fn uploads_end_as_they_went(
    language: Language,
    e: String,
    body: String,
    kept: Seq<char>,
    code: u16,
)
    requires
        is_status(code),
    ensures
        ends_saying(
            upload_next(language, CallStage::Sent, CallEvent::NoClient(e)),
            "❌ Failed to create HTTP client: "@ + e@,
        ),
        ends_saying(
            upload_next(language, CallStage::Sent, CallEvent::NotSent(e)),
            language.says("❌ 上传失败: "@, "❌ Upload failed: "@) + e@,
        ),
        200 <= code <= 299 ==> ends_saying(
            upload_next(language, CallStage::Sent, CallEvent::Status(code)),
            language.says("✅ 配置上传成功"@, "✅ Adapter uploaded successfully"@),
        ),
        code == 403 ==> upload_next(
            language,
            CallStage::Sent,
            CallEvent::Status(code),
        ) is Expired,
        !(200 <= code <= 299) && code != 403 ==> upload_next(
            language,
            CallStage::Sent,
            CallEvent::Status(code),
        ) == UploadProgressView::ReadBody(CallStage::ReadingError(code)),
        byte_prefix(body@, 200) == Some(kept) ==> ends_saying(
            upload_next(language, CallStage::ReadingError(code), CallEvent::Body(body)),
            language.says("❌ 上传失败 "@, "❌ Upload failed "@) + status_text(code) + ": "@ + kept,
        ),
{
}

/// The way to a token begins with where to get one, and asks for it.
pub proof fn authentication_begins(language: Language)
    ensures
        ({
            let r = auth_first(language);
            &&& r.lines.len() == 3
            &&& r.lines[0] == LineView::Note(
                language.says("🔑 请在浏览器中获取 Token:"@, "🔑 Get your token from the browser:"@),
            )
            &&& r.lines[1] == LineView::Note("   "@ + "https://autocli.ai/get-token"@)
            &&& r.lines[2] == LineView::Note(""@)
            &&& asks_again(r.next, language)
        }),
{
}

/// The user is asked for a token.
pub open spec fn asks_again(next: AuthNextView, language: Language) -> bool {
    next == AuthNextView::Ask(
        AuthStageView::Entering,
        AuthActionView::Prompt(language.says("请输入 Token:"@, "Enter your token:"@)),
    )
}

/// One line is said.
pub open spec fn says_one(lines: Seq<LineView>, text: Seq<char>) -> bool {
    lines.len() == 1 && lines[0] == LineView::Note(text)
}

/// What the user enters is trimmed; what is left is checked, unless nothing is.
pub proof fn entered_tokens_are_checked(language: Language, text: Seq<char>)
    ensures
        ({
            let r = auth_next(language, AuthStageView::Entering, AuthEventView::Entered(text));
            let token = crate::text::trim(text);
            &&& token.len() > 0 ==> {
                &&& says_one(
                    r.lines,
                    language.says("🔍 验证 Token..."@, "🔍 Verifying token..."@),
                )
                &&& r.next == AuthNextView::Ask(
                    AuthStageView::Verifying(token),
                    AuthActionView::Verify(token),
                )
            }
            &&& token.len() == 0 ==> {
                &&& says_one(
                    r.lines,
                    language.says("❌ Token 不能为空"@, "❌ Token cannot be empty"@),
                )
                &&& asks_again(r.next, language)
            }
        }),
{
}

/// An answer calls a token valid by its status, and by nothing else; then the token that was checked
/// is saved. Otherwise, and where the server cannot be reached, the user is asked again.
pub proof fn answers_decide(language: Language, token: Seq<char>, reply: JsonView)
    ensures
        says_valid(reply) <==> reply.get("status"@) == Some(JsonView::String("valid"@)),
        ({
            let r = auth_next(
                language,
                AuthStageView::Verifying(token),
                AuthEventView::Answer(reply),
            );
            &&& says_valid(reply) ==> r.lines.len() == 0 && r.next == AuthNextView::Ask(
                AuthStageView::Saving,
                AuthActionView::Save(token),
            )
            &&& !says_valid(reply) ==> asks_again(r.next, language) && says_one(
                r.lines,
                language.says("❌ Token 无效，请重新输入"@, "❌ Invalid token, please try again"@),
            )
        }),
        ({
            let r = auth_next(
                language,
                AuthStageView::Verifying(token),
                AuthEventView::Unreachable,
            );
            &&& asks_again(r.next, language)
            &&& says_one(
                r.lines,
                language.says(
                    "❌ 无法连接验证服务器，请检查网络后重试"@,
                    "❌ Cannot connect to verification server, please check your network and try again"@,
                ),
            )
        }),
{
}

/// The way to a token ends with what became of the token.
pub proof fn authentication_ends(language: Language, text: Seq<char>)
    ensures
        ({
            let r = auth_next(language, AuthStageView::Saving, AuthEventView::Saved(text));
            &&& r.next == AuthNextView::End(0)
            &&& says_one(
                r.lines,
                language.says("✅ Token 已保存到 "@, "✅ Token saved to "@) + text,
            )
        }),
        ({
            let r = auth_next(language, AuthStageView::Saving, AuthEventView::NotSaved(text));
            &&& r.next == AuthNextView::End(1)
            &&& says_one(
                r.lines,
                language.says("❌ Token 保存失败: "@, "❌ Failed to save token: "@) + text,
            )
        }),
        ({
            let r = auth_next(language, AuthStageView::Entering, AuthEventView::Cancelled);
            &&& r.next == AuthNextView::End(0)
            &&& says_one(r.lines, language.says("已取消"@, "Cancelled"@))
        }),
{
}

/// An adapter that was saved is named, with its place and with how to run it.
pub proof fn saved_adapters_are_named(
    language: Language,
    site: Seq<char>,
    name: Seq<char>,
    path: Seq<char>,
)
    ensures
        ({
            let lines = saved(language, site, name, path);
            &&& lines.len() == 5
            &&& lines[0] == LineView::Note(
                language.says("✅ 已生成配置:"@, "✅ Generated adapter:"@) + " "@ + site + " "@
                    + name,
            )
            &&& lines[1] == LineView::Note(
                "   "@ + language.says("保存到: "@, "Saved to: "@) + path,
            )
            &&& lines[2] == LineView::Note(""@)
            &&& lines[3] == LineView::Note("   "@ + language.says("运行命令:"@, "Run it now:"@))
            &&& lines[4] == LineView::Note("   opencli-rs "@ + site + " "@ + name)
        }),
{
}

/// An adapter that was not saved is the output, as it is, behind the reason.
pub proof fn unsaved_adapters_are_shown(language: Language, error: Seq<char>, yaml: Seq<char>)
    ensures
        ({
            let lines = unsaved(language, error, yaml);
            &&& lines.len() == 3
            &&& lines[0] == LineView::Note(
                language.says("生成成功但保存失败: "@, "Generated adapter but failed to save: "@)
                    + error,
            )
            &&& lines[1] == LineView::Note(""@)
            &&& lines[2] == LineView::Output(yaml)
        }),
{
}

/// What is said of a token tells where to get one and what to do with it.
pub open spec fn advises(lines: Seq<LineView>, head: Seq<char>, advice: Seq<char>) -> bool {
    &&& lines.len() == 4
    &&& lines[0] == LineView::Note(head)
    &&& lines[1] == LineView::Note("   "@ + "https://autocli.ai/get-token"@)
    &&& lines[2] == LineView::Note(""@)
    &&& lines[3] == LineView::Note("   "@ + advice)
}

/// A missing token and a refused one are told apart, in both languages.
pub proof fn token_reports_advise()
    ensures
        advises(
            token_missing(Language::English),
            "❌ Not authenticated. Please login to get your token"@,
            "After getting your token, run: opencli-rs auth"@,
        ),
        advises(
            token_missing(Language::Chinese),
            "❌ 未认证，请先登录获取 Token"@,
            "获取 Token 后运行: opencli-rs auth"@,
        ),
        advises(
            token_expired(Language::English),
            "❌ Token is invalid or expired. Please get a new one"@,
            "After getting a new token, run: opencli-rs auth"@,
        ),
        advises(
            token_expired(Language::Chinese),
            "❌ Token 无效或已过期，请重新获取"@,
            "获取新 Token 后运行: opencli-rs auth"@,
        ),
{
}

/// The text for a refused token is what is said of one, line by line.
pub proof fn expired_text_is_what_is_said(language: Language)
    ensures
        token_expired(language)[0] matches LineView::Note(a) && token_expired(
            language,
        )[1] matches LineView::Note(b) && token_expired(language)[2] matches LineView::Note(c)
            && token_expired(language)[3] matches LineView::Note(d) && token_expired_text(language)
            == a + seq!['\n'] + b + seq!['\n'] + c + seq!['\n'] + d,
{
    reveal_strlit("\n   ");
    reveal_strlit("\n\n   ");
    reveal_strlit("   ");
    reveal_strlit("");
    let lines = token_expired(language);
    let a = lines[0]->Note_0;
    let b = lines[1]->Note_0;
    let c = lines[2]->Note_0;
    let d = lines[3]->Note_0;
    assert("\n   "@ =~= seq!['\n'] + "   "@);
    assert("\n\n   "@ =~= seq!['\n'] + ""@ + seq!['\n'] + "   "@);
    assert(token_expired_text(language) =~= a + seq!['\n'] + b + seq!['\n'] + c + seq!['\n'] + d);
}

/// An error is shown with its icon, and nothing else where it suggests nothing; otherwise an empty
/// line and the suggestions follow, in their order.
pub proof fn errors_are_shown(
    icon: Seq<char>,
    shown: Seq<char>,
    suggestions: Seq<Seq<char>>,
    i: int,
)
    ensures
        error_lines(icon, shown, suggestions)[0] == LineView::Note(icon + " "@ + shown),
        suggestions.len() == 0 ==> error_lines(icon, shown, suggestions).len() == 1,
        suggestions.len() > 0 ==> error_lines(icon, shown, suggestions).len() == suggestions.len()
            + 2 && error_lines(icon, shown, suggestions)[1] == LineView::Note(""@),
        0 <= i < suggestions.len() ==> error_lines(icon, shown, suggestions)[i + 2]
            == LineView::Note("  -> "@ + suggestions[i]),
{
}

/// A command that is not known is named; where none was given, the version and a hint are.
pub proof fn missing_commands_are_said(
    site: Seq<char>,
    command: Seq<char>,
    version: Seq<char>,
)
    ensures
        says_one(unknown_command(site, command), "Unknown command: "@ + site + " "@ + command),
        no_command(version).len() == 2,
        no_command(version)[0] == LineView::Note("opencli-rs v"@ + version),
        no_command(version)[1] == LineView::Note("No command specified. Use --help for usage."@),
{
}

} // verus!
