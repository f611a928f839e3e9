//! How the program gets a token: the user enters one, the server checks it, and it is saved.

use vstd::prelude::*;
use vstd::string::*;

use crate::json::{Json, JsonView};
use crate::language::Language;
use crate::report::{line_views, note, notes, Line, LineView, TOKEN_URL};
use crate::server::{
    one_field, write_one_field, RequestView, ServerRequest, LOOKUP_TIMEOUT_SECONDS,
};
use crate::text::{join2, same_text, trim, trimmed};

verus! {

/// Where a token is checked.
pub const VERIFY_URL: &'static str = "https://autocli.ai/api/auth/tokens/verify";

/// Where an authentication stands.
#[derive(Debug, PartialEq, Eq)]
pub enum AuthStage {
    /// The user enters a token.
    Entering,
    /// The server checks a token.
    Verifying(String),
    /// A token is saved.
    Saving,
}

/// What is asked for.
#[derive(Debug, PartialEq, Eq)]
pub enum AuthAction {
    /// Let the user enter a token.
    Prompt(String),
    /// Let the server check a token.
    Verify(String),
    /// Save a token.
    Save(String),
}

/// What comes of it.
#[derive(Debug, PartialEq, Eq)]
pub enum AuthEvent {
    /// The user has entered a text.
    Entered(String),
    /// The user has entered nothing.
    Cancelled,
    /// The server's answer, or nothing where it is no document.
    Answer(Json),
    /// The server cannot be reached.
    Unreachable,
    /// The token was saved to this file.
    Saved(String),
    /// The token could not be saved.
    NotSaved(String),
}

/// How an authentication goes on.
#[derive(Debug, PartialEq, Eq)]
pub enum AuthNext {
    Ask(AuthStage, AuthAction),
    /// It is over, and the program ends with this code.
    End(i32),
}

/// What is said, and how an authentication goes on then.
#[derive(Debug, PartialEq, Eq)]
pub struct AuthProgress {
    pub lines: Vec<Line>,
    pub next: AuthNext,
}

/// The mathematical value of an [`AuthStage`].
pub ghost enum AuthStageView {
    Entering,
    Verifying(Seq<char>),
    Saving,
}

/// The mathematical value of an [`AuthAction`].
pub ghost enum AuthActionView {
    Prompt(Seq<char>),
    Verify(Seq<char>),
    Save(Seq<char>),
}

/// The mathematical value of an [`AuthEvent`].
pub ghost enum AuthEventView {
    Entered(Seq<char>),
    Cancelled,
    Answer(JsonView),
    Unreachable,
    Saved(Seq<char>),
    NotSaved(Seq<char>),
}

/// The mathematical value of an [`AuthNext`].
pub ghost enum AuthNextView {
    Ask(AuthStageView, AuthActionView),
    End(i32),
}

/// The mathematical value of an [`AuthProgress`].
pub ghost struct AuthProgressView {
    pub lines: Seq<LineView>,
    pub next: AuthNextView,
}

impl View for AuthStage {
    type V = AuthStageView;

    open spec fn view(&self) -> AuthStageView {
        match self {
            AuthStage::Entering => AuthStageView::Entering,
            AuthStage::Verifying(token) => AuthStageView::Verifying(token@),
            AuthStage::Saving => AuthStageView::Saving,
        }
    }
}

impl View for AuthAction {
    type V = AuthActionView;

    open spec fn view(&self) -> AuthActionView {
        match self {
            AuthAction::Prompt(text) => AuthActionView::Prompt(text@),
            AuthAction::Verify(token) => AuthActionView::Verify(token@),
            AuthAction::Save(token) => AuthActionView::Save(token@),
        }
    }
}

impl View for AuthEvent {
    type V = AuthEventView;

    open spec fn view(&self) -> AuthEventView {
        match self {
            AuthEvent::Entered(text) => AuthEventView::Entered(text@),
            AuthEvent::Cancelled => AuthEventView::Cancelled,
            AuthEvent::Answer(reply) => AuthEventView::Answer(reply@),
            AuthEvent::Unreachable => AuthEventView::Unreachable,
            AuthEvent::Saved(path) => AuthEventView::Saved(path@),
            AuthEvent::NotSaved(e) => AuthEventView::NotSaved(e@),
        }
    }
}

impl View for AuthProgress {
    type V = AuthProgressView;

    open spec fn view(&self) -> AuthProgressView {
        AuthProgressView {
            lines: line_views(self.lines@),
            next: match self.next {
                AuthNext::Ask(stage, action) => AuthNextView::Ask(stage@, action@),
                AuthNext::End(code) => AuthNextView::End(code),
            },
        }
    }
}

impl AuthStageView {
    /// The events that can come at this stage.
    pub open spec fn accepts(self, event: AuthEventView) -> bool {
        match event {
            AuthEventView::Entered(_) | AuthEventView::Cancelled => self is Entering,
            AuthEventView::Answer(_) | AuthEventView::Unreachable => self is Verifying,
            AuthEventView::Saved(_) | AuthEventView::NotSaved(_) => self is Saving,
        }
    }
}

/// The events that can come of an action.
pub open spec fn auth_outcome_of(action: AuthActionView, event: AuthEventView) -> bool {
    match event {
        AuthEventView::Entered(_) | AuthEventView::Cancelled => action is Prompt,
        AuthEventView::Answer(_) | AuthEventView::Unreachable => action is Verify,
        AuthEventView::Saved(_) | AuthEventView::NotSaved(_) => action is Save,
    }
}

/// The user is asked for a token, once `lines` were said.
pub open spec fn asks_for_token(language: Language, lines: Seq<LineView>) -> AuthProgressView {
    AuthProgressView {
        lines,
        next: AuthNextView::Ask(
            AuthStageView::Entering,
            AuthActionView::Prompt(language.says("请输入 Token:"@, "Enter your token:"@)),
        ),
    }
}

pub open spec fn auth_first(language: Language) -> AuthProgressView {
    asks_for_token(
        language,
        notes(
            seq![
                language.says("🔑 请在浏览器中获取 Token:"@, "🔑 Get your token from the browser:"@),
                "   "@ + TOKEN_URL@,
                ""@,
            ],
        ),
    )
}

/// The server calls the token valid.
pub open spec fn says_valid(reply: JsonView) -> bool {
    reply.get_str("status"@) == Some("valid"@)
}

/// What an event makes of an authentication.
pub open spec fn auth_next(
    language: Language,
    stage: AuthStageView,
    event: AuthEventView,
) -> AuthProgressView {
    match event {
        AuthEventView::Entered(text) => if trim(text).len() == 0 {
            asks_for_token(
                language,
                notes(seq![language.says("❌ Token 不能为空"@, "❌ Token cannot be empty"@)]),
            )
        } else {
            AuthProgressView {
                lines: notes(seq![language.says("🔍 验证 Token..."@, "🔍 Verifying token..."@)]),
                next: AuthNextView::Ask(
                    AuthStageView::Verifying(trim(text)),
                    AuthActionView::Verify(trim(text)),
                ),
            }
        },
        AuthEventView::Cancelled => AuthProgressView {
            lines: notes(seq![language.says("已取消"@, "Cancelled"@)]),
            next: AuthNextView::End(0),
        },
        AuthEventView::Answer(reply) => if says_valid(reply) {
            AuthProgressView {
                lines: Seq::empty(),
                next: AuthNextView::Ask(
                    AuthStageView::Saving,
                    AuthActionView::Save(stage->Verifying_0),
                ),
            }
        } else {
            asks_for_token(
                language,
                notes(
                    seq![
                        language.says(
                            "❌ Token 无效，请重新输入"@,
                            "❌ Invalid token, please try again"@,
                        ),
                    ],
                ),
            )
        },
        AuthEventView::Unreachable => asks_for_token(
            language,
            notes(
                seq![
                    language.says(
                        "❌ 无法连接验证服务器，请检查网络后重试"@,
                        "❌ Cannot connect to verification server, please check your network and try again"@,
                    ),
                ],
            ),
        ),
        AuthEventView::Saved(path) => AuthProgressView {
            lines: notes(seq![language.says("✅ Token 已保存到 "@, "✅ Token saved to "@) + path]),
            next: AuthNextView::End(0),
        },
        AuthEventView::NotSaved(e) => AuthProgressView {
            lines: notes(
                seq![language.says("❌ Token 保存失败: "@, "❌ Failed to save token: "@) + e],
            ),
            next: AuthNextView::End(1),
        },
    }
}

/// The request that lets the server check a token.
pub open spec fn verify_view(user_agent: Seq<char>, token: Seq<char>) -> RequestView {
    RequestView {
        url: VERIFY_URL@,
        authorization: None,
        content_type: Some("application/json"@),
        user_agent,
        body: Some(one_field("token"@, token)),
        timeout_seconds: LOOKUP_TIMEOUT_SECONDS,
    }
}

pub fn verify_request(user_agent: &str, token: &str) -> (r: ServerRequest)
    ensures
        r@ == verify_view(user_agent@, token@),
{
    ServerRequest {
        url: VERIFY_URL.to_owned(),
        authorization: None,
        content_type: Some("application/json".to_owned()),
        user_agent: user_agent.to_owned(),
        body: Some(write_one_field("token", token)),
        timeout_seconds: LOOKUP_TIMEOUT_SECONDS,
    }
}

fn one_line(text: &str) -> (r: Vec<Line>)
    ensures
        line_views(r@) == notes(seq![text@]),
{
    let mut lines: Vec<Line> = Vec::new();
    note(&mut lines, text);
    proof {
        assert(line_views(lines@) =~= notes(seq![text@]));
    }
    lines
}

fn ask_for_token(language: Language, lines: Vec<Line>) -> (r: AuthProgress)
    ensures
        r@ == asks_for_token(language, line_views(lines@)),
{
    AuthProgress {
        lines,
        next: AuthNext::Ask(
            AuthStage::Entering,
            AuthAction::Prompt(language.t("请输入 Token:", "Enter your token:").to_owned()),
        ),
    }
}

/// Begins an authentication. The address for tokens is to be shown in a browser as well.
pub fn auth_start(language: Language) -> (r: AuthProgress)
    ensures
        r@ == auth_first(language),
{
    let mut lines: Vec<Line> = Vec::new();
    note(
        &mut lines,
        language.t("🔑 请在浏览器中获取 Token:", "🔑 Get your token from the browser:"),
    );
    note(&mut lines, join2("   ", TOKEN_URL).as_str());
    note(&mut lines, "");
    proof {
        assert(line_views(lines@) =~= auth_first(language).lines);
    }
    ask_for_token(language, lines)
}

/// Takes an authentication on by one event.
pub fn auth_resume(language: Language, stage: AuthStage, event: AuthEvent) -> (r: AuthProgress)
    requires
        stage@.accepts(event@),
    ensures
        r@ == auth_next(language, stage@, event@),
{
    match event {
        AuthEvent::Entered(text) => {
            let token = trimmed(text.as_str());
            if token.as_str().is_empty() {
                ask_for_token(
                    language,
                    one_line(language.t("❌ Token 不能为空", "❌ Token cannot be empty")),
                )
            } else {
                let copy = token.as_str().to_owned();
                AuthProgress {
                    lines: one_line(language.t("🔍 验证 Token...", "🔍 Verifying token...")),
                    next: AuthNext::Ask(AuthStage::Verifying(copy), AuthAction::Verify(token)),
                }
            }
        },
        AuthEvent::Cancelled => AuthProgress {
            lines: one_line(language.t("已取消", "Cancelled")),
            next: AuthNext::End(0),
        },
        AuthEvent::Answer(reply) => {
            let valid = match reply.get_str("status") {
                Some(status) => same_text(status, "valid"),
                None => false,
            };
            match (valid, stage) {
                (true, AuthStage::Verifying(token)) => {
                    let lines: Vec<Line> = Vec::new();
                    proof {
                        assert(line_views(lines@) =~= Seq::empty());
                    }
                    AuthProgress {
                        lines,
                        next: AuthNext::Ask(AuthStage::Saving, AuthAction::Save(token)),
                    }
                },
                _ => ask_for_token(
                    language,
                    one_line(
                        language.t(
                            "❌ Token 无效，请重新输入",
                            "❌ Invalid token, please try again",
                        ),
                    ),
                ),
            }
        },
        AuthEvent::Unreachable => ask_for_token(
            language,
            one_line(
                language.t(
                    "❌ 无法连接验证服务器，请检查网络后重试",
                    "❌ Cannot connect to verification server, please check your network and try again",
                ),
            ),
        ),
        AuthEvent::Saved(path) => AuthProgress {
            lines: one_line(
                join2(
                    language.t("✅ Token 已保存到 ", "✅ Token saved to "),
                    path.as_str(),
                ).as_str(),
            ),
            next: AuthNext::End(0),
        },
        AuthEvent::NotSaved(e) => AuthProgress {
            lines: one_line(
                join2(
                    language.t("❌ Token 保存失败: ", "❌ Failed to save token: "),
                    e.as_str(),
                ).as_str(),
            ),
            next: AuthNext::End(1),
        },
    }
}

/// Whatever comes of what an authentication asks for, it can go on with it.
pub proof fn auth_can_go_on(
    language: Language,
    before: AuthStageView,
    event: AuthEventView,
    stage: AuthStageView,
    action: AuthActionView,
    outcome: AuthEventView,
)
    requires
        before.accepts(event),
        auth_next(language, before, event).next == AuthNextView::Ask(stage, action),
        auth_outcome_of(action, outcome),
    ensures
        stage.accepts(outcome),
{
}

/// A token is saved when the server calls it valid, and never otherwise: the one that was checked.
pub proof fn only_valid_tokens_are_saved(
    language: Language,
    stage: AuthStageView,
    event: AuthEventView,
    token: Seq<char>,
)
    requires
        stage.accepts(event),
    ensures
        auth_next(language, stage, event).next == AuthNextView::Ask(
            AuthStageView::Saving,
            AuthActionView::Save(token),
        ) <==> (stage == AuthStageView::Verifying(token) && (event matches AuthEventView::Answer(
            reply,
        ) && says_valid(reply))),
{
}

/// The server is asked about a token when the user has entered one, and it is never empty nor has
/// white space around it.
pub proof fn checked_tokens_are_bare(
    language: Language,
    stage: AuthStageView,
    event: AuthEventView,
    token: Seq<char>,
)
    requires
        stage.accepts(event),
        auth_next(language, stage, event).next == AuthNextView::Ask(
            AuthStageView::Verifying(token),
            AuthActionView::Verify(token),
        ),
    ensures
        token.len() > 0,
        trim(token) == token,
        event matches AuthEventView::Entered(text) && token == trim(text),
{
    crate::text::trim_is_idempotent(event->Entered_0);
}

/// An authentication ends with success or because the user wants it to, unless the token cannot be
/// saved: everything else lets the user try again.
pub proof fn auth_lets_the_user_try_again(
    language: Language,
    stage: AuthStageView,
    event: AuthEventView,
)
    requires
        stage.accepts(event),
    ensures
        match auth_next(language, stage, event).next {
            AuthNextView::End(code) => {
                ||| event is Cancelled && code == 0
                ||| event is Saved && code == 0
                ||| event is NotSaved && code == 1
            },
            AuthNextView::Ask(_, _) => {
                &&& !(event is Cancelled)
                &&& !(event is Saved)
                &&& !(event is NotSaved)
            },
        },
{
}

} // verus!
