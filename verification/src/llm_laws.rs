//! What holds of a call of the model: what is asked, and what is taken from the reply.

use vstd::prelude::*;

use crate::error::{plain_error, ErrorKind, ErrorView};
use crate::http::{is_status, CallEvent, CallStage};
use crate::json::{compact_json, pretty_json, JsonView};
use crate::json_laws::first_entry_is_read;
use crate::llm::{
    chat_body, llm_next, message_text, reply_content, reply_outcome, shown, status_error,
    LlmProgressView,
};
use crate::text::{contains, strip_prefix, strip_suffix, trim, trim_is_idempotent};
use crate::text_laws::prefix_and_suffix_are_put_back;
use crate::thinking::{
    open_block_takes_the_rest, text_without_opening_tags_is_kept, thinking_is_marked_by_tags,
    thinking_is_removed, thoughts_are_removed, unwoven, without_thinking, woven,
};

verus! {

/// The reply says `text` in its first choice.
pub open spec fn says_text(reply: JsonView, text: Seq<char>) -> bool {
    &&& reply.get("choices"@) matches Some(JsonView::Array(choices))
    &&& choices.len() > 0
    &&& choices[0].get("message"@) matches Some(message)
    &&& message.get("content"@) == Some(JsonView::String(text))
}

/// The text holds no thinking.
pub open spec fn says_plainly(text: Seq<char>) -> bool {
    !contains(text, "<think>"@) && !contains(text, "<thinking>"@)
}

proof fn lemma_plain_reply(reply: JsonView, text: Seq<char>)
    requires
        says_text(reply, text),
        says_plainly(text),
    ensures
        reply_outcome(reply) == crate::llm::yaml_outcome(text),
{
    text_without_opening_tags_is_kept(text);
}

/// A reply without thinking and fences is taken whole, but for the white space around it, however
/// long it is.
pub proof fn plain_reply_is_taken_whole(reply: JsonView, text: Seq<char>)
    requires
        says_text(reply, text),
        says_plainly(text),
        !"```"@.is_prefix_of(trim(text)),
        !"```"@.is_suffix_of(trim(text)),
    ensures
        trim(text).len() > 0 ==> reply_outcome(reply) == Ok::<Seq<char>, ErrorView>(trim(text)),
        trim(text).len() == 0 ==> reply_outcome(reply) == Err::<Seq<char>, ErrorView>(
            plain_error(ErrorKind::Http, "LLM returned empty content"@),
        ),
{
    lemma_plain_reply(reply, text);
    trim_is_idempotent(text);
    reveal_strlit("```yaml");
    reveal_strlit("```");
    if "```yaml"@.is_prefix_of(trim(text)) {
        assert(trim(text).subrange(0, 3) =~= "```"@) by {
            let head = trim(text).subrange(0, 7);
            assert(head =~= "```yaml"@);
            assert(head[0] == trim(text)[0] && head[1] == trim(text)[1] && head[2] == trim(
                text,
            )[2]);
        }
        assert(false);
    }
}

/// What stands between a fence for YAML and a closing fence is taken whole, whatever white space
/// stands around the fences, and however long it is.
pub proof fn fenced_reply_is_taken_whole(reply: JsonView, text: Seq<char>, body: Seq<char>)
    requires
        says_text(reply, text),
        says_plainly(text),
        trim(text) == "```yaml"@ + body + "```"@,
    ensures
        trim(body).len() > 0 ==> reply_outcome(reply) == Ok::<Seq<char>, ErrorView>(trim(body)),
        trim(body).len() == 0 ==> reply_outcome(reply) is Err,
{
    lemma_plain_reply(reply, text);
    prefix_and_suffix_are_put_back(trim(text), "```yaml"@, body + "```"@);
    assert("```yaml"@ + body + "```"@ =~= "```yaml"@ + (body + "```"@));
    prefix_and_suffix_are_put_back(body + "```"@, "```"@, body);
}

/// The same holds of a fence that names no language.
pub proof fn bare_fence_is_taken_off(reply: JsonView, text: Seq<char>, body: Seq<char>)
    requires
        says_text(reply, text),
        says_plainly(text),
        trim(text) == "```"@ + body + "```"@,
        !"yaml"@.is_prefix_of(body),
    ensures
        trim(body).len() > 0 ==> reply_outcome(reply) == Ok::<Seq<char>, ErrorView>(trim(body)),
        trim(body).len() == 0 ==> reply_outcome(reply) is Err,
{
    lemma_plain_reply(reply, text);
    let t = trim(text);
    reveal_strlit("```yaml");
    reveal_strlit("```");
    reveal_strlit("yaml");
    if "```yaml"@.is_prefix_of(t) {
        let head = t.subrange(0, 7);
        assert(head =~= "```yaml"@);
        let b = body + "```"@;
        assert(b.subrange(0, 4) =~= "yaml"@) by {
            assert(head[3] == t[3] && head[4] == t[4] && head[5] == t[5] && head[6] == t[6]);
            assert(b[0] == t[3] && b[1] == t[4] && b[2] == t[5] && b[3] == t[6]);
        }
        if body.len() < 4 {
            assert(b[body.len() as int] == '`');
            assert(b.subrange(0, 4)[body.len() as int] == '`');
            assert(false);
        }
        assert(body.subrange(0, 4) =~= b.subrange(0, 4));
        assert(false);
    }
    prefix_and_suffix_are_put_back(t, "```"@, body + "```"@);
    assert("```"@ + body + "```"@ =~= "```"@ + (body + "```"@));
    prefix_and_suffix_are_put_back(body + "```"@, "```"@, body);
}

/// A fence that is opened and not closed stays, with all that follows it.
pub proof fn open_fence_stays(reply: JsonView, text: Seq<char>, body: Seq<char>)
    requires
        says_text(reply, text),
        says_plainly(text),
        trim(text) == "```yaml"@ + body,
        !"```"@.is_suffix_of(body),
    ensures
        reply_outcome(reply) == Ok::<Seq<char>, ErrorView>(trim(text)),
{
    lemma_plain_reply(reply, text);
    trim_is_idempotent(text);
    reveal_strlit("```yaml");
    prefix_and_suffix_are_put_back(trim(text), "```yaml"@, body);
}

/// A closing fence that was never opened is taken off.
pub proof fn closing_fence_is_taken_off(reply: JsonView, text: Seq<char>, body: Seq<char>)
    requires
        says_text(reply, text),
        says_plainly(text),
        trim(text) == body + "```"@,
        !"```"@.is_prefix_of(trim(text)),
        trim(body).len() > 0,
    ensures
        reply_outcome(reply) == Ok::<Seq<char>, ErrorView>(trim(body)),
{
    lemma_plain_reply(reply, text);
    let t = trim(text);
    reveal_strlit("```yaml");
    reveal_strlit("```");
    if "```yaml"@.is_prefix_of(t) {
        let head = t.subrange(0, 7);
        assert(head =~= "```yaml"@);
        assert(t.subrange(0, 3) =~= "```"@) by {
            assert(head[0] == t[0] && head[1] == t[1] && head[2] == t[2]);
        }
        assert(false);
    }
    prefix_and_suffix_are_put_back(t, "```"@, body);
}

/// Thinking makes no difference: a reply that thinks between the parts of its text gives what a
/// reply with the text alone gives.
pub proof fn thinking_makes_no_difference(
    thinks: JsonView,
    plain: JsonView,
    before: Seq<char>,
    pairs: Seq<(Seq<char>, Seq<char>)>,
)
    requires
        says_text(thinks, woven(before, pairs, "<think>"@, "</think>"@)),
        says_text(plain, unwoven(before, pairs)),
        says_plainly(unwoven(before, pairs)),
        forall|i: int| 0 <= i < pairs.len() ==> !contains((#[trigger] pairs[i]).0, "</think>"@),
    ensures
        reply_outcome(thinks) == reply_outcome(plain),
{
    thoughts_are_removed(before, pairs);
    text_without_opening_tags_is_kept(unwoven(before, pairs));
}

/// The same holds of the longer tags.
pub proof fn long_tags_make_no_difference(
    thinks: JsonView,
    plain: JsonView,
    before: Seq<char>,
    pairs: Seq<(Seq<char>, Seq<char>)>,
)
    requires
        says_text(thinks, woven(before, pairs, "<thinking>"@, "</thinking>"@)),
        says_text(plain, unwoven(before, pairs)),
        says_plainly(unwoven(before, pairs)),
        !contains(woven(before, pairs, "<thinking>"@, "</thinking>"@), "<think>"@),
        forall|i: int| 0 <= i < pairs.len() ==> !contains((#[trigger] pairs[i]).0, "</thinking>"@),
    ensures
        reply_outcome(thinks) == reply_outcome(plain),
{
    thoughts_are_removed(before, pairs);
    text_without_opening_tags_is_kept(unwoven(before, pairs));
}

/// Whatever is thought in a reply, in whichever order, it gives what a reply gives that says only
/// what is left of it.
pub proof fn only_the_rest_matters(thinks: JsonView, plain: JsonView, text: Seq<char>)
    requires
        says_text(thinks, text),
        says_text(plain, without_thinking(text)),
    ensures
        says_plainly(without_thinking(text)),
        reply_outcome(thinks) == reply_outcome(plain),
{
    thinking_is_removed(text);
    text_without_opening_tags_is_kept(without_thinking(text));
}

/// A thought that does not end leaves what was said before it.
pub proof fn endless_thought_is_dropped(
    thinks: JsonView,
    plain: JsonView,
    before: Seq<char>,
    rest: Seq<char>,
)
    requires
        says_text(thinks, before + "<think>"@ + rest),
        says_text(plain, before),
        says_plainly(before),
        !contains(rest, "</think>"@),
    ensures
        reply_outcome(thinks) == reply_outcome(plain),
{
    thinking_is_marked_by_tags();
    open_block_takes_the_rest(before, rest, "<think>"@, "</think>"@);
    text_without_opening_tags_is_kept(before);
}

/// A reply without choices is no reply of a model; one whose first choice has no text is empty.
pub proof fn replies_without_text_are_errors(reply: JsonView)
    ensures
        reply.get("choices"@) is None ==> reply_outcome(reply) == Err::<Seq<char>, ErrorView>(
            plain_error(ErrorKind::Http, "Unexpected LLM response format"@),
        ),
        reply.get("choices"@) is Some && (forall|text: Seq<char>| !says_text(reply, text))
            ==> reply_outcome(reply) == Err::<Seq<char>, ErrorView>(
            plain_error(ErrorKind::Http, "LLM returned empty content"@),
        ),
{
    if reply.get("choices"@) is Some {
        if forall|text: Seq<char>| !says_text(reply, text) {
            let content = reply_content(reply)->0;
            if content.len() > 0 {
                assert(says_text(reply, content));
            }
            let none = Seq::<char>::empty();
            assert(content =~= none);
            lemma_empty(none);
        }
    }
}

proof fn lemma_empty(none: Seq<char>)
    requires
        none.len() == 0,
    ensures
        crate::llm::yaml_outcome(without_thinking(none)) == Err::<Seq<char>, ErrorView>(
            plain_error(ErrorKind::Http, "LLM returned empty content"@),
        ),
{
    reveal_strlit("<think>");
    reveal_strlit("<thinking>");
    reveal_strlit("```");
    reveal_strlit("```yaml");
    assert(!contains(none, "<think>"@)) by {
        assert(forall|i: int| !crate::text::occurs_at(none, "<think>"@, i));
    }
    assert(!contains(none, "<thinking>"@)) by {
        assert(forall|i: int| !crate::text::occurs_at(none, "<thinking>"@, i));
    }
    text_without_opening_tags_is_kept(none);
    assert(trim(none) == none);
    assert(strip_prefix(none, "```yaml"@) is None);
    assert(strip_prefix(none, "```"@) is None);
    assert(strip_suffix(none, "```"@) is None);
}

/// The message names the site, the goal and the name of the adapter, in this order, and ends with
/// the data in a block of JSON and the wish for bare YAML.
pub proof fn message_names_what_is_wanted(site: Seq<char>, goal: Seq<char>, data: Seq<char>)
    ensures
        ({
            let start = "Generate an opencli-rs YAML adapter for site \""@ + site
                + "\" with goal \""@ + goal
                + "\".\n\nCRITICAL RULES:\n1. The `name` field MUST be exactly \""@ + goal + "\".\n"@;
            start.is_prefix_of(message_text(site, goal, data))
        }),
        ({
            let end = "```json\n"@ + data
                + "\n```\n\nReturn ONLY the YAML content, no explanation, no markdown fencing. Just the raw YAML."@;
            end.is_suffix_of(message_text(site, goal, data))
        }),
{
    reveal_strlit("\".\n");
    reveal_strlit("```json\n");
    reveal_strlit(
        "\".\n2. You MUST include a `tags` field with at least 3 English classification tags for the website (e.g. tags: [technology, programming, blog]).\n3. Choose the best extraction approach: DOM scraping OR API calls. If the HTML has structured data, use DOM scraping. If you use API calls, you MUST strictly replicate the original page's request — same HTTP method, same headers, same body, same URL (use Performance API to find it).\n4. Only add required args when the goal genuinely needs user input.\n\nHere is the captured data from the web page:\n\n```json\n",
    );
    let all = message_text(site, goal, data);
    let start = "Generate an opencli-rs YAML adapter for site \""@ + site + "\" with goal \""@ + goal
        + "\".\n\nCRITICAL RULES:\n1. The `name` field MUST be exactly \""@ + goal + "\".\n"@;
    let end = "```json\n"@ + data
        + "\n```\n\nReturn ONLY the YAML content, no explanation, no markdown fencing. Just the raw YAML."@;
    assert(all.subrange(0, start.len() as int) =~= start);
    assert(all.subrange(all.len() - end.len(), all.len() as int) =~= end);
}

/// Between the two, the message gives the rules that an adapter keeps, and nothing else.
pub proof fn message_gives_the_rules(site: Seq<char>, goal: Seq<char>, data: Seq<char>)
    ensures
        ({
            let start = "Generate an opencli-rs YAML adapter for site \""@ + site
                + "\" with goal \""@ + goal
                + "\".\n\nCRITICAL RULES:\n1. The `name` field MUST be exactly \""@ + goal + "\".\n"@;
            let end = "```json\n"@ + data
                + "\n```\n\nReturn ONLY the YAML content, no explanation, no markdown fencing. Just the raw YAML."@;
            let rules =
                "2. You MUST include a `tags` field with at least 3 English classification tags for the website (e.g. tags: [technology, programming, blog]).\n3. Choose the best extraction approach: DOM scraping OR API calls. If the HTML has structured data, use DOM scraping. If you use API calls, you MUST strictly replicate the original page's request — same HTTP method, same headers, same body, same URL (use Performance API to find it).\n4. Only add required args when the goal genuinely needs user input.\n\nHere is the captured data from the web page:\n\n"@;
            message_text(site, goal, data) == start + rules + end
        }),
{
    reveal_strlit("\".\n");
    reveal_strlit("```json\n");
    reveal_strlit(
        "\".\n2. You MUST include a `tags` field with at least 3 English classification tags for the website (e.g. tags: [technology, programming, blog]).\n3. Choose the best extraction approach: DOM scraping OR API calls. If the HTML has structured data, use DOM scraping. If you use API calls, you MUST strictly replicate the original page's request — same HTTP method, same headers, same body, same URL (use Performance API to find it).\n4. Only add required args when the goal genuinely needs user input.\n\nHere is the captured data from the web page:\n\n```json\n",
    );
    reveal_strlit(
        "2. You MUST include a `tags` field with at least 3 English classification tags for the website (e.g. tags: [technology, programming, blog]).\n3. Choose the best extraction approach: DOM scraping OR API calls. If the HTML has structured data, use DOM scraping. If you use API calls, you MUST strictly replicate the original page's request — same HTTP method, same headers, same body, same URL (use Performance API to find it).\n4. Only add required args when the goal genuinely needs user input.\n\nHere is the captured data from the web page:\n\n",
    );
    let rules =
        "2. You MUST include a `tags` field with at least 3 English classification tags for the website (e.g. tags: [technology, programming, blog]).\n3. Choose the best extraction approach: DOM scraping OR API calls. If the HTML has structured data, use DOM scraping. If you use API calls, you MUST strictly replicate the original page's request — same HTTP method, same headers, same body, same URL (use Performance API to find it).\n4. Only add required args when the goal genuinely needs user input.\n\nHere is the captured data from the web page:\n\n"@;
    assert("\".\n2. You MUST include a `tags` field with at least 3 English classification tags for the website (e.g. tags: [technology, programming, blog]).\n3. Choose the best extraction approach: DOM scraping OR API calls. If the HTML has structured data, use DOM scraping. If you use API calls, you MUST strictly replicate the original page's request — same HTTP method, same headers, same body, same URL (use Performance API to find it).\n4. Only add required args when the goal genuinely needs user input.\n\nHere is the captured data from the web page:\n\n```json\n"@
        =~= "\".\n"@ + rules + "```json\n"@);
}

/// The data are shown in indented lines wherever they can be.
pub proof fn data_are_shown_indented(captured: serde_json::Value, text: Seq<char>)
    ensures
        pretty_json(captured) == Some(text) ==> shown(captured) == text,
        pretty_json(captured) is None ==> shown(captured) == compact_json(captured),
{
}

/// A request carries two messages, the prompt as the system's and the question as the user's, and
/// asks for an answer in one piece.
pub proof fn request_carries_two_messages(prompt: Seq<char>, question: Seq<char>)
    ensures
        chat_body(prompt, question).get("stream"@) == Some(JsonView::Bool(false)),
        chat_body(prompt, question).get("messages"@) matches Some(JsonView::Array(messages)) && {
            &&& messages.len() == 2
            &&& messages[0].get_str("role"@) == Some("system"@)
            &&& messages[0].get_str("content"@) == Some(prompt)
            &&& messages[1].get_str("role"@) == Some("user"@)
            &&& messages[1].get_str("content"@) == Some(question)
        },
{
    reveal_strlit("stream");
    reveal_strlit("messages");
    reveal_strlit("role");
    reveal_strlit("content");
    assert("stream"@.len() != "messages"@.len());
    assert("role"@.len() != "content"@.len());
    let none = Seq::<(Seq<char>, JsonView)>::empty();
    let body = chat_body(prompt, question)->Object_0;
    let messages = body[0].1;
    assert(body =~= none + seq![("messages"@, messages)] + seq![("stream"@, JsonView::Bool(false))]);
    first_entry_is_read(none, "messages"@, messages, seq![("stream"@, JsonView::Bool(false))]);
    assert(body =~= seq![("messages"@, messages)] + seq![("stream"@, JsonView::Bool(false))] + none);
    first_entry_is_read(
        seq![("messages"@, messages)],
        "stream"@,
        JsonView::Bool(false),
        none,
    );
    lemma_message("system"@, prompt);
    lemma_message("user"@, question);
}

proof fn lemma_message(role: Seq<char>, content: Seq<char>)
    ensures
        crate::llm::chat_message(role, content).get_str("role"@) == Some(role),
        crate::llm::chat_message(role, content).get_str("content"@) == Some(content),
{
    reveal_strlit("role");
    reveal_strlit("content");
    assert("role"@.len() != "content"@.len());
    let none = Seq::<(Seq<char>, JsonView)>::empty();
    let r = ("role"@, JsonView::String(role));
    let c = ("content"@, JsonView::String(content));
    let entries = crate::llm::chat_message(role, content)->Object_0;
    assert(entries =~= none + seq![r] + seq![c]);
    first_entry_is_read(none, "role"@, JsonView::String(role), seq![c]);
    assert(entries =~= seq![r] + seq![c] + none);
    first_entry_is_read(seq![r], "content"@, JsonView::String(content), none);
}

/// A status is refused, reported or read: 403 comes with advice, every other status outside of 200
/// to 299 with the text that the server sends, and the rest with a document.
pub proof fn statuses_are_told_apart(code: u16)
    requires
        is_status(code),
    ensures
        match llm_next(CallStage::Sent, CallEvent::Status(code)) {
            LlmProgressView::Done(Err(e)) => {
                &&& code == 403
                &&& e.kind == ErrorKind::Http
                &&& e.message == "Token invalid or expired"@
                &&& e.suggestions == seq![
                    "Get a new token: https://autocli.ai/get-token"@,
                    "Then run: opencli-rs auth"@,
                ]
            },
            LlmProgressView::Done(Ok(_)) => false,
            LlmProgressView::ReadBody(stage) => code != 403 && !(200 <= code <= 299) && stage
                == CallStage::ReadingError(code),
            LlmProgressView::ReadReply(stage) => 200 <= code <= 299 && stage
                == CallStage::ReadingReply,
        },
{
}

/// An error shows the status and the text that came with it, of which no more than 500 characters
/// are kept, the first ones.
pub proof fn error_shows_status_and_text(status: Seq<char>, body: Seq<char>)
    ensures
        body.len() <= 500 ==> status_error(status, body) == plain_error(
            ErrorKind::Http,
            "LLM API error "@ + status + ": "@ + body,
        ),
        body.len() > 500 ==> status_error(status, body) == plain_error(
            ErrorKind::Http,
            "LLM API error "@ + status + ": "@ + body.subrange(0, 500),
        ),
{
    if body.len() <= 500 {
        assert(body.take(body.len() as int) =~= body);
    } else {
        assert(body.take(500) =~= body.subrange(0, 500));
    }
}

/// Calls that fail say why, and a document that comes is read.
pub proof fn calls_end_as_they_went(e: String, reply: crate::json::Json, body: String, code: u16)
    ensures
        llm_next(CallStage::Sent, CallEvent::NoClient(e)) == LlmProgressView::Done(
            Err(plain_error(ErrorKind::Http, "Failed to create HTTP client: "@ + e@)),
        ),
        llm_next(CallStage::Sent, CallEvent::NotSent(e)) == LlmProgressView::Done(
            Err(plain_error(ErrorKind::Http, "LLM request failed: "@ + e@)),
        ),
        llm_next(CallStage::ReadingReply, CallEvent::BadReply(e)) == LlmProgressView::Done(
            Err(plain_error(ErrorKind::Http, "Failed to parse LLM response: "@ + e@)),
        ),
        llm_next(CallStage::ReadingReply, CallEvent::Reply(reply)) == LlmProgressView::Done(
            reply_outcome(reply@),
        ),
        llm_next(CallStage::ReadingError(code), CallEvent::Body(body)) == LlmProgressView::Done(
            Err(status_error(crate::http::status_text(code), body@)),
        ),
{
}

/// An error says its message, is of its kind, and suggests nothing.
pub proof fn plain_errors_suggest_nothing(kind: ErrorKind, message: Seq<char>)
    ensures
        plain_error(kind, message).kind == kind,
        plain_error(kind, message).message == message,
        plain_error(kind, message).suggestions.len() == 0,
{
}

} // verus!
