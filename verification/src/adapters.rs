//! Adapters that the server knows: what it answers to a search, how the results are offered to the
//! user, and what is read from the adapter that the user has chosen.

use vstd::prelude::*;
use vstd::string::*;

use crate::json::{
    get_string_under, or_empty, owned_or_empty, string_under, Json, JsonView,
};
use crate::language::Language;
use crate::text::{
    after_prefix, contains, contains_text, join2, join3, lines, lines_of, occurs_at,
    same_text, starts_with, strip_prefix, trim, trim_quotes, trimmed, views, without_quotes,
};

verus! {

/// The address of a site: `https` is meant where no scheme is given.
pub open spec fn full_address(raw: Seq<char>) -> Seq<char> {
    if strip_prefix(raw, "http://"@) is Some || strip_prefix(raw, "https://"@) is Some {
        raw
    } else {
        "https://"@ + raw
    }
}

pub fn full_url(raw: &str) -> (r: String)
    ensures
        r@ == full_address(raw@),
{
    if starts_with(raw, "http://") || starts_with(raw, "https://") {
        raw.to_owned()
    } else {
        join2("https://", raw)
    }
}

/// An adapter that the server has found.
#[derive(Debug, PartialEq, Eq)]
pub struct AdapterMatch {
    pub match_type: String,
    pub site_name: String,
    pub cmd_name: String,
    pub description: String,
    pub author: String,
    pub command_uuid: String,
}

/// The mathematical value of an [`AdapterMatch`].
pub ghost struct MatchView {
    pub match_type: Seq<char>,
    pub site_name: Seq<char>,
    pub cmd_name: Seq<char>,
    pub description: Seq<char>,
    pub author: Seq<char>,
    pub command_uuid: Seq<char>,
}

impl View for AdapterMatch {
    type V = MatchView;

    open spec fn view(&self) -> MatchView {
        MatchView {
            match_type: self.match_type@,
            site_name: self.site_name@,
            cmd_name: self.cmd_name@,
            description: self.description@,
            author: self.author@,
            command_uuid: self.command_uuid@,
        }
    }
}

pub open spec fn match_views(list: Seq<AdapterMatch>) -> Seq<MatchView> {
    list.map_values(|m: AdapterMatch| m@)
}

/// The adapter that an entry of the server's list describes. What the entry leaves out is empty;
/// the author of the entry stands in for that of the command.
pub open spec fn match_of(entry: JsonView) -> MatchView {
    let command = entry.get("command"@);
    MatchView {
        match_type: or_empty(entry.get_str("match_type"@)),
        site_name: or_empty(string_under(entry.get("site"@), "name"@)),
        cmd_name: or_empty(string_under(command, "cmd_name"@)),
        description: or_empty(string_under(command, "description"@)),
        author: match string_under(command, "author"@) {
            Some(author) => author,
            None => or_empty(entry.get_str("author"@)),
        },
        command_uuid: or_empty(string_under(command, "uuid"@)),
    }
}

/// The adapters that a list describes: those that can be fetched.
pub open spec fn matches_in(entries: Seq<JsonView>) -> Seq<MatchView>
    decreases entries.len(),
{
    if entries.len() == 0 {
        Seq::empty()
    } else {
        let rest = matches_in(entries.drop_last());
        let last = match_of(entries.last());
        if last.command_uuid.len() == 0 {
            rest
        } else {
            rest.push(last)
        }
    }
}

/// The adapters that an answer to a search lists.
pub open spec fn matches_of(reply: JsonView) -> Seq<MatchView> {
    match reply.get("matches"@) {
        Some(JsonView::Array(entries)) => matches_in(entries),
        _ => Seq::empty(),
    }
}

fn read_match(entry: &Json) -> (r: AdapterMatch)
    ensures
        r@ == match_of(entry@),
{
    let command = entry.get("command");
    let author = match get_string_under(command, "author") {
        Some(author) => author.to_owned(),
        None => owned_or_empty(entry.get_str("author")),
    };
    AdapterMatch {
        match_type: owned_or_empty(entry.get_str("match_type")),
        site_name: owned_or_empty(get_string_under(entry.get("site"), "name")),
        cmd_name: owned_or_empty(get_string_under(command, "cmd_name")),
        description: owned_or_empty(get_string_under(command, "description")),
        author,
        command_uuid: owned_or_empty(get_string_under(command, "uuid")),
    }
}

pub fn read_matches(reply: &Json) -> (r: Vec<AdapterMatch>)
    ensures
        match_views(r@) == matches_of(reply@),
{
    let mut found: Vec<AdapterMatch> = Vec::new();
    proof {
        reveal_with_fuel(<Json as View>::view, 2);
        assert(match_views(found@) =~= Seq::empty());
    }
    let entries = match reply.get("matches") {
        Some(Json::Array(entries)) => entries,
        _ => {
            return found;
        },
    };
    let ghost all = Json::Array(*entries)@->Array_0;
    let mut i: usize = 0;
    proof {
        assert(all.take(0) =~= Seq::empty());
    }
    while i < entries.len()
        invariant
            i <= entries@.len(),
            all.len() == entries@.len(),
            forall|j: int| 0 <= j < entries@.len() ==> (#[trigger] entries@[j])@ == all[j],
            match_views(found@) == matches_in(all.take(i as int)),
        decreases entries@.len() - i,
    {
        let m = read_match(&entries[i]);
        let ghost before = found@;
        proof {
            assert(all.take(i + 1).drop_last() =~= all.take(i as int));
            assert(all.take(i + 1).last() == entries@[i as int]@);
        }
        if !m.command_uuid.as_str().is_empty() {
            found.push(m);
            proof {
                assert(match_views(found@) =~= match_views(before).push(found@.last()@));
            }
        }
        i += 1;
    }
    proof {
        assert(all.take(i as int) =~= all);
    }
    found
}

/// How well an adapter fits, in one column.
pub open spec fn tag_of(match_type: Seq<char>) -> Seq<char> {
    if match_type == "exact"@ {
        "[exact]  "@
    } else if match_type == "partial"@ {
        "[partial]"@
    } else if match_type == "domain"@ {
        "[domain] "@
    } else {
        "[other]  "@
    }
}

/// `text` between two others, or nothing at all where there is no text.
pub open spec fn framed(head: Seq<char>, text: Seq<char>, tail: Seq<char>) -> Seq<char> {
    if text.len() == 0 {
        Seq::empty()
    } else {
        head + text + tail
    }
}

/// The line by which an adapter is offered.
pub open spec fn label_of(m: MatchView) -> Seq<char> {
    tag_of(m.match_type) + " "@ + m.site_name + " "@ + m.cmd_name + framed(" (by "@, m.author, ")"@)
        + framed(" - "@, m.description, Seq::empty())
}

pub open spec fn labels_of(list: Seq<MatchView>) -> Seq<Seq<char>> {
    list.map_values(|m: MatchView| label_of(m))
}

fn write_tag(match_type: &str) -> (r: &'static str)
    ensures
        r@ == tag_of(match_type@),
{
    if same_text(match_type, "exact") {
        "[exact]  "
    } else if same_text(match_type, "partial") {
        "[partial]"
    } else if same_text(match_type, "domain") {
        "[domain] "
    } else {
        "[other]  "
    }
}

pub fn option_label(m: &AdapterMatch) -> (r: String)
    ensures
        r@ == label_of(m@),
{
    let mut label = join3(write_tag(m.match_type.as_str()), " ", m.site_name.as_str());
    label.append(" ");
    label.append(m.cmd_name.as_str());
    if !m.author.as_str().is_empty() {
        label.append(join3(" (by ", m.author.as_str(), ")").as_str());
    }
    if !m.description.as_str().is_empty() {
        label.append(join2(" - ", m.description.as_str()).as_str());
    }
    proof {
        assert(label@ =~= label_of(m@));
    }
    label
}

pub fn option_labels(list: &Vec<AdapterMatch>) -> (r: Vec<String>)
    ensures
        views(r@) == labels_of(match_views(list@)),
{
    let mut labels: Vec<String> = Vec::new();
    let mut i: usize = 0;
    while i < list.len()
        invariant
            i <= list@.len(),
            views(labels@) == labels_of(match_views(list@)).take(i as int),
        decreases list@.len() - i,
    {
        let ghost before = labels@;
        labels.push(option_label(&list[i]));
        proof {
            assert(views(labels@) =~= views(before).push(label_of(list@[i as int]@)));
            let all = labels_of(match_views(list@));
            assert(all.take(i + 1) =~= all.take(i as int).push(label_of(list@[i as int]@)));
        }
        i += 1;
    }
    proof {
        assert(labels_of(match_views(list@)).take(i as int) =~= labels_of(match_views(list@)));
    }
    labels
}

/// A line names an adapter if both names of the adapter occur in it.
pub open spec fn names(line: Seq<char>, m: MatchView) -> bool {
    contains(line, m.cmd_name) && contains(line, m.site_name)
}

/// The first of the adapters that the chosen line names.
pub open spec fn first_named(list: Seq<MatchView>, chosen: Seq<char>) -> Option<int>
    decreases list.len(),
{
    if list.len() == 0 {
        None
    } else {
        match first_named(list.drop_last(), chosen) {
            Some(i) => Some(i),
            None => if names(chosen, list.last()) {
                Some(list.len() - 1)
            } else {
                None
            },
        }
    }
}

pub fn chosen_match(list: &Vec<AdapterMatch>, chosen: &str) -> (r: Option<usize>)
    ensures
        match r {
            Some(i) => first_named(match_views(list@), chosen@) == Some(i as int) && i < list@.len(),
            None => first_named(match_views(list@), chosen@) is None,
        },
{
    let ghost all = match_views(list@);
    let mut i: usize = 0;
    proof {
        assert(all.take(0) =~= Seq::empty());
    }
    while i < list.len()
        invariant
            i <= list@.len(),
            all == match_views(list@),
            first_named(all.take(i as int), chosen@) is None,
        decreases list@.len() - i,
    {
        proof {
            assert(all.take(i + 1).drop_last() =~= all.take(i as int));
        }
        if contains_text(chosen, list[i].cmd_name.as_str()) && contains_text(
            chosen,
            list[i].site_name.as_str(),
        ) {
            proof {
                lemma_first_named_stays(all, chosen@, i + 1);
            }
            return Some(i);
        }
        i += 1;
    }
    proof {
        assert(all.take(i as int) =~= all);
    }
    None
}

/// What is named by the first adapters of a list is what the list names.
proof fn lemma_first_named_stays(list: Seq<MatchView>, chosen: Seq<char>, n: int)
    requires
        0 <= n <= list.len(),
        first_named(list.take(n), chosen) is Some,
    ensures
        first_named(list, chosen) == first_named(list.take(n), chosen),
    decreases list.len() - n,
{
    if n == list.len() {
        assert(list.take(n) =~= list);
    } else {
        assert(list.take(n + 1).drop_last() =~= list.take(n));
        lemma_first_named_stays(list, chosen, n + 1);
    }
}

/// The value of the field that `key` begins, in the first line that it begins: without white space
/// and quotation marks around it.
pub open spec fn field_in(text: Seq<Seq<char>>, key: Seq<char>) -> Option<Seq<char>>
    decreases text.len(),
{
    if text.len() == 0 {
        None
    } else {
        match strip_prefix(text.first(), key) {
            Some(value) => Some(trim_quotes(trim(value))),
            None => field_in(text.drop_first(), key),
        }
    }
}

/// A field of an adapter, or `other` where the adapter has no such field.
pub open spec fn field_or(yaml: Seq<char>, key: Seq<char>, other: Seq<char>) -> Seq<char> {
    match field_in(lines(yaml), key) {
        Some(value) => value,
        None => other,
    }
}

pub fn yaml_field(yaml: &str, key: &str, other: &str) -> (r: String)
    ensures
        r@ == field_or(yaml@, key@, other@),
{
    let all = lines_of(yaml);
    let ghost text = lines(yaml@);
    let mut i: usize = 0;
    proof {
        assert(text.skip(0) =~= text);
    }
    while i < all.len()
        invariant
            i <= all@.len(),
            text == lines(yaml@),
            views(all@) == text,
            field_in(text, key@) == field_in(text.skip(i as int), key@),
        decreases all@.len() - i,
    {
        proof {
            assert(text.skip(i as int).first() == all@[i as int]@);
            assert(text.skip(i as int).drop_first() =~= text.skip(i + 1));
        }
        match after_prefix(all[i].as_str(), key) {
            Some(value) => {
                return without_quotes(trimmed(value.as_str()).as_str());
            },
            None => {},
        }
        i += 1;
    }
    other.to_owned()
}

/// The text of an adapter, in the server's answer.
pub open spec fn content_of(reply: JsonView) -> Option<Seq<char>> {
    string_under(reply.get("config"@), "content"@)
}

pub fn config_content(reply: &Json) -> (r: Option<String>)
    ensures
        match r {
            Some(s) => content_of(reply@) == Some(s@),
            None => content_of(reply@) is None,
        },
{
    match get_string_under(reply.get("config"), "content") {
        Some(s) => Some(s.to_owned()),
        None => None,
    }
}

/// An address that is complete is left as it is, and every address ends up complete.
pub proof fn full_address_is_idempotent(raw: Seq<char>)
    ensures
        full_address(full_address(raw)) == full_address(raw),
        strip_prefix(full_address(raw), "http://"@) is Some || strip_prefix(
            full_address(raw),
            "https://"@,
        ) is Some,
{
    let full = "https://"@ + raw;
    assert("https://"@.is_prefix_of(full)) by {
        assert(full.subrange(0, "https://"@.len() as int) =~= "https://"@);
    }
}

/// Only adapters that can be fetched are offered.
pub proof fn every_match_can_be_fetched(entries: Seq<JsonView>, i: int)
    requires
        0 <= i < matches_in(entries).len(),
    ensures
        matches_in(entries)[i].command_uuid.len() > 0,
    decreases entries.len(),
{
    let rest = matches_in(entries.drop_last());
    if i < rest.len() {
        every_match_can_be_fetched(entries.drop_last(), i);
    }
}

/// Every entry that can be fetched is offered.
pub proof fn every_entry_with_an_id_is_offered(entries: Seq<JsonView>, i: int)
    requires
        0 <= i < entries.len(),
        match_of(entries[i]).command_uuid.len() > 0,
    ensures
        matches_in(entries).contains(match_of(entries[i])),
    decreases entries.len(),
{
    let rest = matches_in(entries.drop_last());
    if i < entries.len() - 1 {
        every_entry_with_an_id_is_offered(entries.drop_last(), i);
        let k = choose|k: int| 0 <= k < rest.len() && rest[k] == match_of(entries[i]);
        assert(matches_in(entries)[k] == match_of(entries[i]));
    } else {
        assert(matches_in(entries)[rest.len() as int] == match_of(entries[i]));
    }
}

/// What is named first is named, and nothing before it is.
pub(crate) proof fn lemma_first_named(list: Seq<MatchView>, chosen: Seq<char>)
    ensures
        match first_named(list, chosen) {
            Some(i) => {
                &&& 0 <= i < list.len()
                &&& names(chosen, list[i])
                &&& forall|j: int| 0 <= j < i ==> !names(chosen, #[trigger] list[j])
            },
            None => forall|j: int| 0 <= j < list.len() ==> !names(chosen, #[trigger] list[j]),
        },
    decreases list.len(),
{
    if list.len() > 0 {
        let rest = list.drop_last();
        lemma_first_named(rest, chosen);
        assert forall|j: int| 0 <= j < rest.len() implies rest[j] == #[trigger] list[j] by {}
        if first_named(rest, chosen) is None {
            assert forall|j: int| 0 <= j < list.len() - 1 implies !names(
                chosen,
                #[trigger] list[j],
            ) by {
                assert(rest[j] == list[j]);
            }
        } else {
            assert forall|j: int| 0 <= j < first_named(rest, chosen)->0 implies !names(
                chosen,
                #[trigger] list[j],
            ) by {
                assert(rest[j] == list[j]);
            }
        }
    }
}

/// The line that offers an adapter names it.
pub proof fn label_names_its_adapter(m: MatchView)
    ensures
        names(label_of(m), m),
{
    let label = label_of(m);
    let before_site = tag_of(m.match_type) + " "@;
    let before_command = before_site + m.site_name + " "@;
    assert(occurs_at(label, m.site_name, before_site.len() as int)) by {
        let i = before_site.len() as int;
        assert(label.subrange(i, i + m.site_name.len()) =~= m.site_name);
    }
    assert(occurs_at(label, m.cmd_name, before_command.len() as int)) by {
        let i = before_command.len() as int;
        assert(label.subrange(i, i + m.cmd_name.len()) =~= m.cmd_name);
    }
}

/// Whoever chooses an offered line gets an adapter: one that the line names, and none that was
/// offered after it.
pub proof fn chosen_label_is_found(list: Seq<MatchView>, i: int)
    requires
        0 <= i < list.len(),
    ensures
        first_named(list, label_of(list[i])) matches Some(j) && 0 <= j <= i && names(
            label_of(list[i]),
            list[j],
        ),
{
    label_names_its_adapter(list[i]);
    lemma_first_named(list, label_of(list[i]));
}

/// Where no offered line names an earlier adapter, whoever chooses a line gets the very adapter
/// that it offers.
pub proof fn chosen_label_is_exact(list: Seq<MatchView>, i: int)
    requires
        0 <= i < list.len(),
        forall|j: int| 0 <= j < i ==> !names(label_of(list[i]), #[trigger] list[j]),
    ensures
        first_named(list, label_of(list[i])) == Some(i),
{
    chosen_label_is_found(list, i);
}

/// The mark of the line that asks for a new adapter.
pub const REGENERATE_MARK: &'static str = "🔄";

/// The line that asks for a new adapter in place of those that were found.
pub open spec fn regenerate_label(language: Language) -> Seq<char> {
    language.says("🔄 重新生成 (使用 AI 分析)"@, "🔄 Regenerate (using AI)"@)
}

/// The line that asks for a new adapter has its mark, and no line that offers an adapter has it.
pub proof fn regenerate_label_stands_out(language: Language, m: MatchView)
    ensures
        strip_prefix(regenerate_label(language), REGENERATE_MARK@) is Some,
        strip_prefix(label_of(m), REGENERATE_MARK@) is None,
{
    reveal_strlit("🔄 重新生成 (使用 AI 分析)");
    reveal_strlit("🔄 Regenerate (using AI)");
    reveal_strlit("🔄");
    reveal_strlit("[exact]  ");
    reveal_strlit("[partial]");
    reveal_strlit("[domain] ");
    reveal_strlit("[other]  ");
    assert(regenerate_label(language).subrange(0, 1) =~= REGENERATE_MARK@);
    assert(label_of(m)[0] == '[');
    assert(label_of(m).subrange(0, 1)[0] == '[');
}

} // verus!
