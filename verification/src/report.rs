//! What the program tells the user, line by line.

use vstd::prelude::*;
use vstd::string::*;

use crate::language::Language;
use crate::text::{join2, join3, views};

verus! {

/// Where a token is handed out.
pub const TOKEN_URL: &'static str = "https://autocli.ai/get-token";

/// A line of output.
#[derive(Debug, PartialEq, Eq)]
pub enum Line {
    /// For the user, beside the output.
    Note(String),
    /// Of the output itself.
    Output(String),
}

/// The mathematical value of a [`Line`].
pub ghost enum LineView {
    Note(Seq<char>),
    Output(Seq<char>),
}

impl View for Line {
    type V = LineView;

    open spec fn view(&self) -> LineView {
        match self {
            Line::Note(s) => LineView::Note(s@),
            Line::Output(s) => LineView::Output(s@),
        }
    }
}

pub open spec fn line_views(lines: Seq<Line>) -> Seq<LineView> {
    lines.map_values(|line: Line| line@)
}

/// Lines beside the output.
pub open spec fn notes(texts: Seq<Seq<char>>) -> Seq<LineView> {
    texts.map_values(|text: Seq<char>| LineView::Note(text))
}

pub(crate) fn note(lines: &mut Vec<Line>, text: &str)
    ensures
        line_views(final(lines)@) == line_views(old(lines)@).push(LineView::Note(text@)),
{
    lines.push(Line::Note(text.to_owned()));
    proof {
        assert(line_views(lines@) =~= line_views(old(lines)@).push(LineView::Note(text@)));
    }
}

fn output(lines: &mut Vec<Line>, text: &str)
    ensures
        line_views(final(lines)@) == line_views(old(lines)@).push(LineView::Output(text@)),
{
    lines.push(Line::Output(text.to_owned()));
    proof {
        assert(line_views(lines@) =~= line_views(old(lines)@).push(LineView::Output(text@)));
    }
}

/// What is said of an adapter that was saved to `path`.
pub open spec fn saved(
    language: Language,
    site: Seq<char>,
    name: Seq<char>,
    path: Seq<char>,
) -> Seq<LineView> {
    notes(
        seq![
            language.says("✅ 已生成配置:"@, "✅ Generated adapter:"@) + " "@ + site + " "@ + name,
            "   "@ + language.says("保存到: "@, "Saved to: "@) + path,
            ""@,
            "   "@ + language.says("运行命令:"@, "Run it now:"@),
            "   opencli-rs "@ + site + " "@ + name,
        ],
    )
}

pub fn report_saved(language: Language, site: &str, name: &str, path: &str) -> (r: Vec<Line>)
    ensures
        line_views(r@) == saved(language, site@, name@, path@),
{
    let mut head = join3(language.t("✅ 已生成配置:", "✅ Generated adapter:"), " ", site);
    head.append(" ");
    head.append(name);
    let place = join3("   ", language.t("保存到: ", "Saved to: "), path);
    let run = join2("   ", language.t("运行命令:", "Run it now:"));
    let mut call = join3("   opencli-rs ", site, " ");
    call.append(name);
    let mut lines: Vec<Line> = Vec::new();
    note(&mut lines, head.as_str());
    note(&mut lines, place.as_str());
    note(&mut lines, "");
    note(&mut lines, run.as_str());
    note(&mut lines, call.as_str());
    proof {
        assert(line_views(lines@) =~= saved(language, site@, name@, path@));
    }
    lines
}

/// What is said of an adapter that could not be saved: the adapter itself is the output.
pub open spec fn unsaved(language: Language, error: Seq<char>, yaml: Seq<char>) -> Seq<LineView> {
    seq![
        LineView::Note(
            language.says("生成成功但保存失败: "@, "Generated adapter but failed to save: "@) + error,
        ),
        LineView::Note(""@),
        LineView::Output(yaml),
    ]
}

pub fn report_unsaved(language: Language, error: &str, yaml: &str) -> (r: Vec<Line>)
    ensures
        line_views(r@) == unsaved(language, error@, yaml@),
{
    let head = join2(
        language.t("生成成功但保存失败: ", "Generated adapter but failed to save: "),
        error,
    );
    let mut lines: Vec<Line> = Vec::new();
    note(&mut lines, head.as_str());
    note(&mut lines, "");
    output(&mut lines, yaml);
    proof {
        assert(line_views(lines@) =~= unsaved(language, error@, yaml@));
    }
    lines
}

/// A line, the address for tokens, and what to do with one.
pub open spec fn token_advice(head: Seq<char>, advice: Seq<char>) -> Seq<LineView> {
    notes(seq![head, "   "@ + TOKEN_URL@, ""@, "   "@ + advice])
}

fn report_token(head: &str, advice: &str) -> (r: Vec<Line>)
    ensures
        line_views(r@) == token_advice(head@, advice@),
{
    let mut lines: Vec<Line> = Vec::new();
    note(&mut lines, head);
    note(&mut lines, join2("   ", TOKEN_URL).as_str());
    note(&mut lines, "");
    note(&mut lines, join2("   ", advice).as_str());
    proof {
        assert(line_views(lines@) =~= token_advice(head@, advice@));
    }
    lines
}

/// What is said where there is no token.
pub open spec fn token_missing(language: Language) -> Seq<LineView> {
    token_advice(
        language.says(
            "❌ 未认证，请先登录获取 Token"@,
            "❌ Not authenticated. Please login to get your token"@,
        ),
        language.says(
            "获取 Token 后运行: opencli-rs auth"@,
            "After getting your token, run: opencli-rs auth"@,
        ),
    )
}

pub fn report_token_missing(language: Language) -> (r: Vec<Line>)
    ensures
        line_views(r@) == token_missing(language),
{
    report_token(
        language.t(
            "❌ 未认证，请先登录获取 Token",
            "❌ Not authenticated. Please login to get your token",
        ),
        language.t(
            "获取 Token 后运行: opencli-rs auth",
            "After getting your token, run: opencli-rs auth",
        ),
    )
}

/// What is said where the server refuses the token.
pub open spec fn token_expired(language: Language) -> Seq<LineView> {
    token_advice(
        language.says(
            "❌ Token 无效或已过期，请重新获取"@,
            "❌ Token is invalid or expired. Please get a new one"@,
        ),
        language.says(
            "获取新 Token 后运行: opencli-rs auth"@,
            "After getting a new token, run: opencli-rs auth"@,
        ),
    )
}

pub fn report_token_expired(language: Language) -> (r: Vec<Line>)
    ensures
        line_views(r@) == token_expired(language),
{
    report_token(
        language.t(
            "❌ Token 无效或已过期，请重新获取",
            "❌ Token is invalid or expired. Please get a new one",
        ),
        language.t(
            "获取新 Token 后运行: opencli-rs auth",
            "After getting a new token, run: opencli-rs auth",
        ),
    )
}

/// The same as one text, with a line break between the lines.
pub open spec fn token_expired_text(language: Language) -> Seq<char> {
    language.says(
        "❌ Token 无效或已过期，请重新获取"@,
        "❌ Token is invalid or expired. Please get a new one"@,
    ) + "\n   "@ + TOKEN_URL@ + "\n\n   "@ + language.says(
        "获取新 Token 后运行: opencli-rs auth"@,
        "After getting a new token, run: opencli-rs auth"@,
    )
}

pub fn describe_token_expired(language: Language) -> (r: String)
    ensures
        r@ == token_expired_text(language),
{
    let head = language.t(
        "❌ Token 无效或已过期，请重新获取",
        "❌ Token is invalid or expired. Please get a new one",
    );
    let mut text = join3(head, "\n   ", TOKEN_URL);
    text.append("\n\n   ");
    text.append(
        language.t(
            "获取新 Token 后运行: opencli-rs auth",
            "After getting a new token, run: opencli-rs auth",
        ),
    );
    text
}

/// What is said of an error that is displayed as `shown`, and what the user may try.
pub open spec fn error_lines(
    icon: Seq<char>,
    shown: Seq<char>,
    suggestions: Seq<Seq<char>>,
) -> Seq<LineView> {
    let head = seq![LineView::Note(icon + " "@ + shown)];
    if suggestions.len() == 0 {
        head
    } else {
        head.push(LineView::Note(""@)) + notes(
            suggestions.map_values(|s: Seq<char>| "  -> "@ + s),
        )
    }
}

pub fn print_error(icon: &str, shown: &str, suggestions: &Vec<String>) -> (r: Vec<Line>)
    ensures
        line_views(r@) == error_lines(icon@, shown@, views(suggestions@)),
{
    let mut lines: Vec<Line> = Vec::new();
    note(&mut lines, join3(icon, " ", shown).as_str());
    proof {
        assert(line_views(lines@) =~= seq![LineView::Note(icon@ + " "@ + shown@)]);
    }
    if suggestions.len() == 0 {
        return lines;
    }
    note(&mut lines, "");
    let ghost head = line_views(lines@);
    let ghost advice = notes(views(suggestions@).map_values(|s: Seq<char>| "  -> "@ + s));
    let mut i: usize = 0;
    proof {
        assert(line_views(lines@) =~= head + advice.take(0));
    }
    while i < suggestions.len()
        invariant
            i <= suggestions@.len(),
            advice == notes(views(suggestions@).map_values(|s: Seq<char>| "  -> "@ + s)),
            line_views(lines@) == head + advice.take(i as int),
        decreases suggestions@.len() - i,
    {
        note(&mut lines, join2("  -> ", suggestions[i].as_str()).as_str());
        i += 1;
        proof {
            assert(line_views(lines@) =~= head + advice.take(i as int));
        }
    }
    proof {
        assert(advice.take(i as int) =~= advice);
    }
    lines
}

/// What is said of a command that a site does not have.
pub open spec fn unknown_command(site: Seq<char>, command: Seq<char>) -> Seq<LineView> {
    notes(seq!["Unknown command: "@ + site + " "@ + command])
}

pub fn report_unknown_command(site: &str, command: &str) -> (r: Vec<Line>)
    ensures
        line_views(r@) == unknown_command(site@, command@),
{
    let mut text = join3("Unknown command: ", site, " ");
    text.append(command);
    let mut lines: Vec<Line> = Vec::new();
    note(&mut lines, text.as_str());
    proof {
        assert(line_views(lines@) =~= unknown_command(site@, command@));
    }
    lines
}

/// What is said where no command was given.
pub open spec fn no_command(version: Seq<char>) -> Seq<LineView> {
    notes(
        seq![
            "opencli-rs v"@ + version,
            "No command specified. Use --help for usage."@,
        ],
    )
}

pub fn report_no_command(version: &str) -> (r: Vec<Line>)
    ensures
        line_views(r@) == no_command(version@),
{
    let mut lines: Vec<Line> = Vec::new();
    note(&mut lines, join2("opencli-rs v", version).as_str());
    note(&mut lines, "No command specified. Use --help for usage.");
    proof {
        assert(line_views(lines@) =~= no_command(version@));
    }
    lines
}

/// An adapter that could not be saved is not lost: it is the one line of output.
pub proof fn unsaved_adapter_is_printed(language: Language, error: Seq<char>, yaml: Seq<char>)
    ensures
        unsaved(language, error, yaml).last() == LineView::Output(yaml),
        forall|i: int|
            0 <= i < unsaved(language, error, yaml).len() - 1 ==> unsaved(
                language,
                error,
                yaml,
            )[i] is Note,
{
}

/// Every suggestion of an error is shown, in its place.
pub proof fn suggestions_are_shown(
    icon: Seq<char>,
    shown: Seq<char>,
    suggestions: Seq<Seq<char>>,
    i: int,
)
    requires
        0 <= i < suggestions.len(),
    ensures
        error_lines(icon, shown, suggestions).len() == suggestions.len() + 2,
        error_lines(icon, shown, suggestions)[i + 2] == LineView::Note("  -> "@ + suggestions[i]),
{
}

} // verus!
