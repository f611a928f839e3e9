//! What can come of what the library asks for: nothing that the outside can answer is shut out.

use vstd::prelude::*;
use vstd::utf8::encode_utf8;

use crate::auth::{auth_outcome_of, AuthActionView, AuthEventView};
use crate::bridge::{comes_of, ConnectAction, ConnectEvent};
use crate::error::ErrorView;
use crate::flow::{outcome_of, upload_means, FlowActionView, FlowEventView};
use crate::http::{CallEvent, CallStage};
use crate::json::{escaped, escaped_text, quoted, Json, JsonView};
use crate::page::{answers, fits_in_memory, ActionView, AutoScrollOptions, ReplyView};
use crate::report::LineView;
use crate::server::{
    can_be_cut, lookup_accepts, upload_accepts, upload_failure, UploadProgressView,
};
use crate::steps::{parse_requests, ProgressView, StageView};
use crate::text_laws::bytes_are_cut_behind_characters;

verus! {

/// A page can answer everything that it is asked in its own way, and can fail at everything.
pub proof fn pages_can_answer(
    text: Seq<char>,
    other: Seq<char>,
    ms: u64,
    scroll: AutoScrollOptions,
    value: JsonView,
    bytes: Seq<u8>,
    requests: Seq<serde_json::Value>,
    action: ActionView,
    error: ErrorView,
)
    requires
        bytes.len() <= isize::MAX,
    ensures
        answers(action, ReplyView::Failed(error)),
        answers(ActionView::Render(text), ReplyView::Value(value)),
        answers(ActionView::Evaluate(text), ReplyView::Value(value)),
        action is Snapshot ==> answers(action, ReplyView::Value(value)),
        action is Screenshot ==> answers(action, ReplyView::Bytes(bytes)),
        answers(ActionView::Goto(text), ReplyView::Unit),
        answers(ActionView::Click(text), ReplyView::Unit),
        answers(ActionView::TypeText { selector: text, text: other }, ReplyView::Unit),
        answers(ActionView::WaitForTimeout(ms), ReplyView::Unit),
        answers(ActionView::WaitForSelector(text), ReplyView::Unit),
        answers(ActionView::AutoScroll(scroll), ReplyView::Unit),
        answers(ActionView::InterceptedRequests, ReplyView::Requests(requests)),
        fits_in_memory(bytes),
{
}

/// Every question of a connection can be answered with yes and with no, a daemon can start or not,
/// and a clock can show any time.
pub proof fn connections_can_be_answered(
    yes: bool,
    ms: u128,
    pause: u64,
    child: tokio::process::Child,
    e: String,
)
    ensures
        comes_of(ConnectAction::IsRunning, ConnectEvent::Answer(yes)),
        comes_of(ConnectAction::IsOurs, ConnectEvent::Answer(yes)),
        comes_of(ConnectAction::IsExtensionConnected, ConnectEvent::Answer(yes)),
        comes_of(ConnectAction::KillOccupant, ConnectEvent::Done),
        comes_of(ConnectAction::StartTimer, ConnectEvent::Done),
        comes_of(ConnectAction::Sleep(pause), ConnectEvent::Done),
        comes_of(ConnectAction::ReadTimer, ConnectEvent::Elapsed(ms)),
        comes_of(ConnectAction::Spawn, ConnectEvent::Spawned(child)),
        comes_of(ConnectAction::Spawn, ConnectEvent::NoExecutable(e)),
        comes_of(ConnectAction::Spawn, ConnectEvent::NotSpawned(e)),
{
}

/// A call can fail before it is sent or on its way, can be answered with every status, and its
/// answer can be a document or not.
pub proof fn calls_can_be_answered(e: String, reply: Json, code: u16)
    requires
        100 <= code <= 999,
    ensures
        CallStage::Sent.fits(CallEvent::NoClient(e)),
        CallStage::Sent.fits(CallEvent::NotSent(e)),
        CallStage::Sent.fits(CallEvent::Status(code)),
        CallStage::ReadingError(code).fits(CallEvent::Body(e)),
        CallStage::ReadingReply.fits(CallEvent::Reply(reply)),
        CallStage::ReadingReply.fits(CallEvent::BadReply(e)),
        lookup_accepts(CallStage::Sent, CallEvent::NoClient(e)),
        lookup_accepts(CallStage::Sent, CallEvent::NotSent(e)),
        lookup_accepts(CallStage::Sent, CallEvent::Status(code)),
        lookup_accepts(CallStage::ReadingReply, CallEvent::Reply(reply)),
        lookup_accepts(CallStage::ReadingReply, CallEvent::BadReply(e)),
        upload_accepts(CallStage::Sent, CallEvent::NoClient(e)),
        upload_accepts(CallStage::Sent, CallEvent::NotSent(e)),
        upload_accepts(CallStage::Sent, CallEvent::Status(code)),
{
}

/// The text of a failed upload can be anything but one whose first 200 bytes end inside a
/// character.
pub proof fn upload_errors_can_be_read(body: String, code: u16, k: int)
    requires
        100 <= code <= 999,
        0 <= k <= body@.len(),
        encode_utf8(body@).len() <= 200 || encode_utf8(body@.take(k)).len() == 200,
    ensures
        can_be_cut(body@),
        upload_accepts(CallStage::ReadingError(code), CallEvent::Body(body)),
{
    bytes_are_cut_behind_characters(body@, k, 200);
}

/// What is shown of such a text are those bytes: all of it where it is no longer, and otherwise the
/// characters that take 200 bytes.
pub proof fn upload_errors_are_shown(
    language: crate::language::Language,
    status: Seq<char>,
    body: Seq<char>,
    k: int,
)
    requires
        0 <= k <= body.len(),
    ensures
        ({
            let head = language.says("❌ 上传失败 "@, "❌ Upload failed "@) + status + ": "@;
            &&& encode_utf8(body).len() <= 200 ==> upload_failure(language, status, body) == head
                + body
            &&& encode_utf8(body.take(k)).len() == 200 ==> upload_failure(language, status, body)
                == head + body.take(k)
        }),
{
    bytes_are_cut_behind_characters(body, k, 200);
}

/// Everything that a flow asks for can end in each of its ways.
pub proof fn flows_can_be_answered(action: FlowActionView, event: FlowEventView)
    ensures
        action is Search && event is Found ==> outcome_of(action, event),
        action is Select && (event is Chosen || event is Cancelled) ==> outcome_of(action, event),
        action is Fetch && (event is Config || event is Expired) ==> outcome_of(action, event),
        action is Generate && (event is Adapter || event is Failed) ==> outcome_of(action, event),
        action is Upload && (event is NoToken || event is Expired || event is Uploaded)
            ==> outcome_of(action, event),
{
}

/// Everything that an authentication asks for can end in each of its ways.
pub proof fn authentications_can_be_answered(action: AuthActionView, event: AuthEventView)
    ensures
        action is Prompt && (event is Entered || event is Cancelled) ==> auth_outcome_of(
            action,
            event,
        ),
        action is Verify && (event is Answer || event is Unreachable) ==> auth_outcome_of(
            action,
            event,
        ),
        action is Save && (event is Saved || event is NotSaved) ==> auth_outcome_of(action, event),
{
}

/// An upload means for its flow what came of it.
pub proof fn uploads_mean_what_came_of_them(stage: CallStage, lines: Seq<LineView>)
    ensures
        upload_means(UploadProgressView::ReadBody(stage)) is None,
        upload_means(UploadProgressView::Expired) == Some(FlowEventView::Expired),
        upload_means(UploadProgressView::Done(lines)) == Some(FlowEventView::Uploaded(lines)),
{
}

/// The requests are parsed by the function, as they were written; where they were not, the step
/// fails.
pub proof fn written_requests_are_parsed(parse: Seq<char>, written: Seq<char>)
    ensures
        parse_requests(parse, Ok(written)) == ProgressView::Ask(
            StageView::Take,
            ActionView::Evaluate(
                "(() => { const parseFn = "@ + parse + "; const requests = "@ + written
                    + "; return parseFn(requests); })()"@,
            ),
        ),
        parse_requests(parse, Err(written)) matches ProgressView::Done(Err(e)) && e.message
            == "Failed to serialize intercepted requests: "@ + written,
{
}

/// A text in quotation marks is written character by character, one after the other.
pub proof fn quoting_goes_character_by_character(a: Seq<char>, b: Seq<char>, c: char)
    ensures
        quoted(a) == seq!['"'] + escaped_text(a) + seq!['"'],
        escaped_text(Seq::<char>::empty()).len() == 0,
        escaped_text(a + b) == escaped_text(a) + escaped_text(b),
        escaped_text(seq![c]) == escaped(c),
    decreases a.len(),
{
    assert(seq![c].drop_first() =~= Seq::<char>::empty());
    assert(escaped(c) + escaped_text(Seq::<char>::empty()) =~= escaped(c));
    if a.len() == 0 {
        assert(a + b =~= b);
        assert(escaped_text(a) + escaped_text(b) =~= escaped_text(b));
    } else {
        quoting_goes_character_by_character(a.drop_first(), b, c);
        assert((a + b).drop_first() =~= a.drop_first() + b);
        assert(escaped_text(a + b) =~= escaped_text(a) + escaped_text(b));
    }
}

/// Only the quotation mark, the backslash and the characters below the space are written in another
/// way; each of those begins with a backslash.
pub proof fn few_characters_are_escaped(c: char)
    ensures
        (c as u32) >= 0x20 && c != '"' && c != '\\' ==> escaped(c) == seq![c],
        (c as u32) < 0x20 || c == '"' || c == '\\' ==> escaped(c).len() >= 2 && escaped(c)[0]
            == '\\',
        c == '"' || c == '\\' ==> escaped(c) == seq!['\\', c],
        escaped('\n') == seq!['\\', 'n'],
        escaped('\r') == seq!['\\', 'r'],
        escaped('\t') == seq!['\\', 't'],
        escaped('\x08') == seq!['\\', 'b'],
        escaped('\x0c') == seq!['\\', 'f'],
{
}

/// The other characters below the space are written by their number, in two digits of base 16.
pub proof fn other_characters_are_numbered(c: char, high: int, low: int)
    requires
        (c as u32) < 0x20,
        c != '\x08' && c != '\t' && c != '\n' && c != '\x0c' && c != '\r',
        0 <= high < 16,
        0 <= low < 16,
        c as int == high * 16 + low,
    ensures
        escaped(c) == seq![
            '\\',
            'u',
            '0',
            '0',
            "0123456789abcdef"@[high],
            "0123456789abcdef"@[low],
        ],
{
    reveal_strlit("0123456789abcdef");
}

} // verus!
