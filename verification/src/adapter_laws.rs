//! What holds of the adapters that the server knows.

use vstd::prelude::*;

use crate::adapters::{
    content_of, field_in, field_or, first_named, full_address, label_of, match_of, matches_in,
    matches_of, regenerate_label, MatchView,
};
use crate::json::JsonView;
use crate::language::Language;
use crate::text::{contains, lines, strip_prefix, trim, trim_quotes};
use crate::text_laws::prefix_and_suffix_are_put_back;

verus! {

/// An address with one of the two schemes is kept; any other is taken for one without a scheme.
pub proof fn addresses_are_completed(rest: Seq<char>, raw: Seq<char>)
    ensures
        full_address("http://"@ + rest) == "http://"@ + rest,
        full_address("https://"@ + rest) == "https://"@ + rest,
        !"http://"@.is_prefix_of(raw) && !"https://"@.is_prefix_of(raw) ==> full_address(raw)
            == "https://"@ + raw,
{
    prefix_and_suffix_are_put_back("http://"@ + rest, "http://"@, rest);
    prefix_and_suffix_are_put_back("https://"@ + rest, "https://"@, rest);
}

/// The text at the end of two keys.
pub open spec fn text_at(document: JsonView, outer: Seq<char>, inner: Seq<char>) -> Option<
    Seq<char>,
> {
    match document.get(outer) {
        Some(part) => match part.get(inner) {
            Some(JsonView::String(text)) => Some(text),
            _ => None,
        },
        None => None,
    }
}

/// Every part of an adapter is read from its own place, and is empty where that place holds no
/// text.
pub proof fn matches_are_read_from_their_places(entry: JsonView)
    ensures
        match entry.get("match_type"@) {
            Some(JsonView::String(text)) => match_of(entry).match_type == text,
            _ => match_of(entry).match_type.len() == 0,
        },
        match text_at(entry, "site"@, "name"@) {
            Some(text) => match_of(entry).site_name == text,
            None => match_of(entry).site_name.len() == 0,
        },
        match text_at(entry, "command"@, "cmd_name"@) {
            Some(text) => match_of(entry).cmd_name == text,
            None => match_of(entry).cmd_name.len() == 0,
        },
        match text_at(entry, "command"@, "description"@) {
            Some(text) => match_of(entry).description == text,
            None => match_of(entry).description.len() == 0,
        },
        match text_at(entry, "command"@, "uuid"@) {
            Some(text) => match_of(entry).command_uuid == text,
            None => match_of(entry).command_uuid.len() == 0,
        },
{
}

/// The author of the command is the author; the author of the entry stands in where the command
/// names none.
pub proof fn authors_are_read(entry: JsonView)
    ensures
        match (text_at(entry, "command"@, "author"@), entry.get("author"@)) {
            (Some(text), _) => match_of(entry).author == text,
            (None, Some(JsonView::String(text))) => match_of(entry).author == text,
            _ => match_of(entry).author.len() == 0,
        },
{
}

/// The adapters of two lists are those of the one and then those of the other.
pub proof fn entries_are_read_one_after_the_other(a: Seq<JsonView>, b: Seq<JsonView>)
    ensures
        matches_in(a + b) == matches_in(a) + matches_in(b),
    decreases b.len(),
{
    if b.len() == 0 {
        assert(a + b =~= a);
        assert(matches_in(a) + matches_in(b) =~= matches_in(a));
    } else {
        entries_are_read_one_after_the_other(a, b.drop_last());
        assert((a + b).drop_last() =~= a + b.drop_last());
        assert((a + b).last() == b.last());
        assert(matches_in(a + b) =~= matches_in(a) + matches_in(b));
    }
}

/// An entry is an adapter exactly if it has an id.
pub proof fn entries_with_an_id_are_adapters(entry: JsonView)
    ensures
        match text_at(entry, "command"@, "uuid"@) {
            Some(text) => if text.len() > 0 {
                matches_in(seq![entry]) == seq![match_of(entry)]
            } else {
                matches_in(seq![entry]).len() == 0
            },
            None => matches_in(seq![entry]).len() == 0,
        },
{
    assert(seq![entry].drop_last() =~= Seq::<JsonView>::empty());
    assert(matches_in(Seq::<JsonView>::empty()) =~= Seq::<MatchView>::empty());
    if match_of(entry).command_uuid.len() > 0 {
        assert(matches_in(seq![entry]) =~= seq![match_of(entry)]);
    }
}

/// The adapters stand under one key of the answer; where no list stands there, there are none.
pub proof fn adapters_stand_under_their_key(reply: JsonView)
    ensures
        match reply.get("matches"@) {
            Some(JsonView::Array(entries)) => matches_of(reply) == matches_in(entries),
            _ => matches_of(reply).len() == 0,
        },
        content_of(reply) == text_at(reply, "config"@, "content"@),
{
}

/// The line of an adapter shows how well it fits in a column of nine characters, then the site and
/// the command.
pub proof fn labels_show_the_fit(m: MatchView)
    ensures
        m.match_type == "exact"@ ==> ("[exact]   "@ + m.site_name + " "@ + m.cmd_name).is_prefix_of(
            label_of(m),
        ),
        m.match_type == "partial"@ ==> ("[partial] "@ + m.site_name + " "@
            + m.cmd_name).is_prefix_of(label_of(m)),
        m.match_type == "domain"@ ==> ("[domain]  "@ + m.site_name + " "@
            + m.cmd_name).is_prefix_of(label_of(m)),
        m.match_type != "exact"@ && m.match_type != "partial"@ && m.match_type != "domain"@ ==> (
        "[other]   "@ + m.site_name + " "@ + m.cmd_name).is_prefix_of(label_of(m)),
{
    reveal_strlit("exact");
    reveal_strlit("partial");
    reveal_strlit("domain");
    assert("exact"@.len() == 5 && "partial"@.len() == 7 && "domain"@.len() == 6);
    reveal_strlit("[exact]  ");
    reveal_strlit("[partial]");
    reveal_strlit("[domain] ");
    reveal_strlit("[other]  ");
    reveal_strlit("[exact]   ");
    reveal_strlit("[partial] ");
    reveal_strlit("[domain]  ");
    reveal_strlit("[other]   ");
    reveal_strlit(" ");
    assert("[exact]  "@ + " "@ =~= "[exact]   "@);
    assert("[partial]"@ + " "@ =~= "[partial] "@);
    assert("[domain] "@ + " "@ =~= "[domain]  "@);
    assert("[other]  "@ + " "@ =~= "[other]   "@);
    let label = label_of(m);
    let head = crate::adapters::tag_of(m.match_type) + " "@ + m.site_name + " "@ + m.cmd_name;
    assert(label.subrange(0, head.len() as int) =~= head);
}

/// Behind the names stand the author and the description, each only if there is one.
pub proof fn labels_show_author_and_description(m: MatchView)
    ensures
        ({
            let names = m.site_name + " "@ + m.cmd_name;
            let tail = if m.author.len() > 0 && m.description.len() > 0 {
                names + " (by "@ + m.author + ") - "@ + m.description
            } else if m.author.len() > 0 {
                names + " (by "@ + m.author + ")"@
            } else if m.description.len() > 0 {
                names + " - "@ + m.description
            } else {
                names
            };
            &&& tail.is_suffix_of(label_of(m))
            &&& label_of(m).len() == tail.len() + 10
        }),
{
    reveal_strlit("[exact]  ");
    reveal_strlit("[partial]");
    reveal_strlit("[domain] ");
    reveal_strlit("[other]  ");
    reveal_strlit(" ");
    reveal_strlit(")");
    reveal_strlit(" - ");
    reveal_strlit(") - ");
    assert(")"@ + " - "@ =~= ") - "@);
    let names = m.site_name + " "@ + m.cmd_name;
    let tail = if m.author.len() > 0 && m.description.len() > 0 {
        names + " (by "@ + m.author + ") - "@ + m.description
    } else if m.author.len() > 0 {
        names + " (by "@ + m.author + ")"@
    } else if m.description.len() > 0 {
        names + " - "@ + m.description
    } else {
        names
    };
    let tag = crate::adapters::tag_of(m.match_type);
    assert(tag.len() == 9);
    let label = label_of(m);
    assert(label =~= tag + " "@ + tail);
    assert(label.subrange(10, label.len() as int) =~= tail);
}

/// The adapter that a line names first is named by it, with its site and its command, and none
/// before it is; where none is named, none is found.
pub proof fn first_named_adapter_is_found(list: Seq<MatchView>, line: Seq<char>)
    ensures
        match first_named(list, line) {
            Some(i) => {
                &&& 0 <= i < list.len()
                &&& contains(line, list[i].site_name) && contains(line, list[i].cmd_name)
                &&& forall|j: int|
                    0 <= j < i ==> !contains(line, (#[trigger] list[j]).site_name) || !contains(
                        line,
                        list[j].cmd_name,
                    )
            },
            None => forall|j: int|
                0 <= j < list.len() ==> !contains(line, (#[trigger] list[j]).site_name)
                    || !contains(line, list[j].cmd_name),
        },
{
    crate::adapters::lemma_first_named(list, line);
    match first_named(list, line) {
        Some(i) => {
            assert(crate::adapters::names(line, list[i]));
            assert forall|j: int| 0 <= j < i implies !contains(line, (#[trigger] list[j]).site_name)
                || !contains(line, list[j].cmd_name) by {
                assert(!crate::adapters::names(line, list[j]));
            }
        },
        None => {
            assert forall|j: int| 0 <= j < list.len() implies !contains(
                line,
                (#[trigger] list[j]).site_name,
            ) || !contains(line, list[j].cmd_name) by {
                assert(!crate::adapters::names(line, list[j]));
            }
        },
    }
}

/// A field is read from the first line that begins with its key: what follows the key, without
/// white space and then without quotation marks around it.
pub proof fn fields_are_read_from_their_line(
    before: Seq<Seq<char>>,
    key: Seq<char>,
    value: Seq<char>,
    after: Seq<Seq<char>>,
)
    requires
        forall|i: int| 0 <= i < before.len() ==> !key.is_prefix_of(#[trigger] before[i]),
    ensures
        field_in(before + seq![key + value] + after, key) == Some(trim_quotes(trim(value))),
    decreases before.len(),
{
    let all = before + seq![key + value] + after;
    if before.len() == 0 {
        assert(all.first() == key + value);
        prefix_and_suffix_are_put_back(key + value, key, value);
    } else {
        let rest = before.drop_first();
        assert(all.first() == before[0]);
        assert(all.drop_first() =~= rest + seq![key + value] + after);
        assert forall|i: int| 0 <= i < rest.len() implies !key.is_prefix_of(#[trigger] rest[i]) by {
            assert(rest[i] == before[i + 1]);
        }
        fields_are_read_from_their_line(rest, key, value, after);
    }
}

/// Where no line begins with the key, there is no field, and what stands in for it is taken.
pub proof fn missing_fields_are_replaced(yaml: Seq<char>, key: Seq<char>, other: Seq<char>)
    ensures
        (forall|i: int| 0 <= i < lines(yaml).len() ==> !key.is_prefix_of(#[trigger] lines(yaml)[i]))
            ==> field_or(yaml, key, other) == other,
        field_in(lines(yaml), key) matches Some(value) ==> field_or(yaml, key, other) == value,
{
    if forall|i: int| 0 <= i < lines(yaml).len() ==> !key.is_prefix_of(#[trigger] lines(yaml)[i]) {
        lemma_no_field(lines(yaml), key);
    }
}

proof fn lemma_no_field(text: Seq<Seq<char>>, key: Seq<char>)
    requires
        forall|i: int| 0 <= i < text.len() ==> !key.is_prefix_of(#[trigger] text[i]),
    ensures
        field_in(text, key) is None,
    decreases text.len(),
{
    if text.len() > 0 {
        let rest = text.drop_first();
        assert(text.first() == text[0]);
        assert(strip_prefix(text[0], key) is None);
        assert forall|i: int| 0 <= i < rest.len() implies !key.is_prefix_of(#[trigger] rest[i]) by {
            assert(rest[i] == text[i + 1]);
        }
        lemma_no_field(rest, key);
    }
}

/// Each language says its own text.
pub proof fn languages_say_their_own(zh: Seq<char>, en: Seq<char>)
    ensures
        Language::Chinese.says(zh, en) == zh,
        Language::English.says(zh, en) == en,
        regenerate_label(Language::Chinese) == "🔄 重新生成 (使用 AI 分析)"@,
        regenerate_label(Language::English) == "🔄 Regenerate (using AI)"@,
{
}

} // verus!
