//! What holds of reading a document.

use vstd::prelude::*;

use crate::json::{lookup, or_empty, string_under, Json, JsonNumber, JsonView};

verus! {

proof fn lemma_lookup(
    before: Seq<(Seq<char>, JsonView)>,
    key: Seq<char>,
    value: JsonView,
    after: Seq<(Seq<char>, JsonView)>,
)
    requires
        forall|i: int| 0 <= i < before.len() ==> (#[trigger] before[i]).0 != key,
    ensures
        lookup(before + seq![(key, value)] + after, key) == Some(value),
    decreases before.len(),
{
    let all = before + seq![(key, value)] + after;
    if before.len() > 0 {
        let rest = before.drop_first();
        assert(all[0] == before[0]);
        assert(all.drop_first() =~= rest + seq![(key, value)] + after);
        assert forall|i: int| 0 <= i < rest.len() implies (#[trigger] rest[i]).0 != key by {
            assert(rest[i] == before[i + 1]);
        }
        lemma_lookup(rest, key, value, after);
    }
}

proof fn lemma_lookup_misses(entries: Seq<(Seq<char>, JsonView)>, key: Seq<char>)
    requires
        forall|i: int| 0 <= i < entries.len() ==> (#[trigger] entries[i]).0 != key,
    ensures
        lookup(entries, key) is None,
    decreases entries.len(),
{
    if entries.len() > 0 {
        let rest = entries.drop_first();
        assert forall|i: int| 0 <= i < rest.len() implies (#[trigger] rest[i]).0 != key by {
            assert(rest[i] == entries[i + 1]);
        }
        lemma_lookup_misses(rest, key);
    }
}

/// An object gives the value of the first entry with the key, whatever stands around it.
pub proof fn first_entry_is_read(
    before: Seq<(Seq<char>, JsonView)>,
    key: Seq<char>,
    value: JsonView,
    after: Seq<(Seq<char>, JsonView)>,
)
    requires
        forall|i: int| 0 <= i < before.len() ==> (#[trigger] before[i]).0 != key,
    ensures
        JsonView::Object(before + seq![(key, value)] + after).get(key) == Some(value),
{
    lemma_lookup(before, key, value, after);
}

/// An object without the key gives nothing, and neither does anything that is no object.
pub proof fn missing_entries_are_not_read(document: JsonView, key: Seq<char>)
    requires
        document matches JsonView::Object(entries) ==> forall|i: int|
            0 <= i < entries.len() ==> (#[trigger] entries[i]).0 != key,
    ensures
        document.get(key) is None,
        document.get_str(key) is None,
{
    if let JsonView::Object(entries) = document {
        lemma_lookup_misses(entries, key);
    }
}

/// A value is read as what it is, and as nothing else.
pub proof fn values_are_read_as_what_they_are(
    document: JsonView,
    text: Seq<char>,
    truth: bool,
    item: JsonView,
)
    ensures
        document.as_str() == Some(text) <==> document == JsonView::String(text),
        document.as_bool() == Some(truth) <==> document == JsonView::Bool(truth),
        document.first() == Some(item) <==> (document matches JsonView::Array(items) && items.len()
            > 0 && items[0] == item),
        document.as_u64() is Some ==> document is Number,
{
}

/// A natural number is read, and a negative one is not.
pub proof fn natural_numbers_are_read(n: u64, m: i64)
    ensures
        JsonView::Number(JsonNumber::Natural(n)).as_u64() == Some(n),
        m < 0 ==> JsonView::Number(JsonNumber::Negative(m)).as_u64() is None,
        m >= 0 ==> (JsonView::Number(JsonNumber::Negative(m)).as_u64() matches Some(k) && k == m),
{
}

/// A string under a key is read, also of an object that may be missing; another value is not.
pub proof fn strings_are_read_under_keys(document: JsonView, key: Seq<char>, text: Seq<char>)
    ensures
        document.get_str(key) == Some(text) <==> document.get(key) == Some(JsonView::String(text)),
        string_under(Some(document), key) == document.get_str(key),
        string_under(None, key) is None,
        or_empty(Some(text)) == text,
        or_empty(None).len() == 0,
{
}

/// The value of a document is what it holds, item by item.
pub proof fn documents_hold_their_parts(
    truth: bool,
    number: JsonNumber,
    text: String,
    items: Vec<Json>,
    entries: Vec<(String, Json)>,
    i: int,
)
    ensures
        Json::Null@ == JsonView::Null,
        Json::Bool(truth)@ == JsonView::Bool(truth),
        Json::Number(number)@ == JsonView::Number(number),
        Json::String(text)@ == JsonView::String(text@),
        Json::Array(items)@ matches JsonView::Array(list) && list.len() == items@.len() && (0 <= i
            < items@.len() ==> list[i] == items@[i]@),
        Json::Object(entries)@ matches JsonView::Object(list) && list.len() == entries@.len() && (0
            <= i < entries@.len() ==> list[i] == (entries@[i].0@, entries@[i].1@)),
{
    reveal_with_fuel(<Json as View>::view, 2);
}

} // verus!
