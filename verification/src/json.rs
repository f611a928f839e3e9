//! JSON documents as the library reads them, and the JSON text that it has from `serde_json`.

use vstd::prelude::*;
use vstd::string::*;

use crate::text::same_text;

verus! {

/// A number of a document. The library reads natural numbers, however they are held; every other
/// number is carried through as it came.
#[derive(Debug, PartialEq, Eq)]
pub enum JsonNumber {
    Natural(u64),
    Negative(i64),
    Real(serde_json::Number),
}

/// A document. The keys of an object differ from each other; where one is repeated all the same,
/// its first entry is the one that is read.
#[derive(Debug, PartialEq, Eq)]
pub enum Json {
    Null,
    Bool(bool),
    Number(JsonNumber),
    String(String),
    Array(Vec<Json>),
    Object(Vec<(String, Json)>),
}

/// The mathematical value of a [`Json`].
pub ghost enum JsonView {
    Null,
    Bool(bool),
    Number(JsonNumber),
    String(Seq<char>),
    Array(Seq<JsonView>),
    Object(Seq<(Seq<char>, JsonView)>),
}

impl View for Json {
    type V = JsonView;

    open spec fn view(&self) -> JsonView
        decreases self,
    {
        match self {
            Json::Null => JsonView::Null,
            Json::Bool(b) => JsonView::Bool(*b),
            Json::Number(n) => JsonView::Number(*n),
            Json::String(s) => JsonView::String(s@),
            Json::Array(a) => JsonView::Array(
                Seq::new(
                    a@.len(),
                    |i: int|
                        if 0 <= i < a@.len() {
                            a@[i].view()
                        } else {
                            JsonView::Null
                        },
                ),
            ),
            Json::Object(o) => JsonView::Object(
                Seq::new(
                    o@.len(),
                    |i: int|
                        if 0 <= i < o@.len() {
                            (o@[i].0@, o@[i].1.view())
                        } else {
                            (Seq::empty(), JsonView::Null)
                        },
                ),
            ),
        }
    }
}

/// The value of the first entry whose key is `key`.
pub open spec fn lookup(entries: Seq<(Seq<char>, JsonView)>, key: Seq<char>) -> Option<JsonView>
    decreases entries.len(),
{
    if entries.len() == 0 {
        None
    } else if entries[0].0 == key {
        Some(entries[0].1)
    } else {
        lookup(entries.drop_first(), key)
    }
}

impl JsonView {
    pub open spec fn as_str(self) -> Option<Seq<char>> {
        match self {
            JsonView::String(s) => Some(s),
            _ => None,
        }
    }

    pub open spec fn as_u64(self) -> Option<u64> {
        match self {
            JsonView::Number(JsonNumber::Natural(n)) => Some(n),
            JsonView::Number(JsonNumber::Negative(n)) => if n >= 0 {
                Some(n as u64)
            } else {
                None
            },
            JsonView::Number(JsonNumber::Real(n)) => number_u64(n),
            _ => None,
        }
    }

    pub open spec fn as_bool(self) -> Option<bool> {
        match self {
            JsonView::Bool(b) => Some(b),
            _ => None,
        }
    }

    /// The value under `key`, of an object.
    pub open spec fn get(self, key: Seq<char>) -> Option<JsonView> {
        match self {
            JsonView::Object(entries) => lookup(entries, key),
            _ => None,
        }
    }

    /// The string under `key`, of an object.
    pub open spec fn get_str(self, key: Seq<char>) -> Option<Seq<char>> {
        match self.get(key) {
            Some(v) => v.as_str(),
            None => None,
        }
    }

    /// The first item, of an array.
    pub open spec fn first(self) -> Option<JsonView> {
        match self {
            JsonView::Array(items) => if items.len() > 0 {
                Some(items[0])
            } else {
                None
            },
            _ => None,
        }
    }
}

/// The string under `key`, of an object that may not be there.
pub open spec fn string_under(v: Option<JsonView>, key: Seq<char>) -> Option<Seq<char>> {
    match v {
        Some(o) => o.get_str(key),
        None => None,
    }
}

/// What may be missing, read as an empty text.
pub open spec fn or_empty(s: Option<Seq<char>>) -> Seq<char> {
    match s {
        Some(t) => t,
        None => Seq::empty(),
    }
}

/// The view of a reference to a document that may be missing.
pub open spec fn opt_json(v: Option<&Json>) -> Option<JsonView> {
    match v {
        Some(j) => Some(j@),
        None => None,
    }
}

/// The view of a text or a message.
pub open spec fn text_view(r: Result<String, String>) -> Result<Seq<char>, Seq<char>> {
    match r {
        Ok(s) => Ok(s@),
        Err(e) => Err(e@),
    }
}

/// The view of a reference to a text that may be missing.
pub open spec fn opt_str(v: Option<&str>) -> Option<Seq<char>> {
    match v {
        Some(s) => Some(s@),
        None => None,
    }
}

impl JsonNumber {
    fn duplicate(&self) -> (r: JsonNumber)
        ensures
            r == *self,
    {
        match self {
            JsonNumber::Natural(n) => JsonNumber::Natural(*n),
            JsonNumber::Negative(n) => JsonNumber::Negative(*n),
            JsonNumber::Real(n) => JsonNumber::Real(n.clone()),
        }
    }
}

impl Json {
    /// A copy of the whole document.
    pub fn duplicate(&self) -> (r: Json)
        ensures
            r@ == self@,
        decreases self,
    {
        match self {
            Json::Null => Json::Null,
            Json::Bool(b) => Json::Bool(*b),
            Json::Number(n) => Json::Number(n.duplicate()),
            Json::String(s) => Json::String(s.clone()),
            Json::Array(a) => {
                let mut out: Vec<Json> = Vec::new();
                let mut i: usize = 0;
                while i < a.len()
                    invariant
                        i <= a@.len(),
                        out@.len() == i,
                        self is Array,
                        self->Array_0 == a,
                        forall|j: int| 0 <= j < i ==> (#[trigger] out@[j])@ == a@[j]@,
                    decreases a@.len() - i,
                {
                    out.push(a[i].duplicate());
                    i += 1;
                }
                let r = Json::Array(out);
                proof {
                    reveal_with_fuel(<Json as View>::view, 2);
                    assert(r@->Array_0 =~= self@->Array_0);
                }
                r
            },
            Json::Object(o) => {
                let mut out: Vec<(String, Json)> = Vec::new();
                let mut i: usize = 0;
                while i < o.len()
                    invariant
                        i <= o@.len(),
                        out@.len() == i,
                        self is Object,
                        self->Object_0 == o,
                        forall|j: int|
                            0 <= j < i ==> (#[trigger] out@[j]).0@ == o@[j].0@ && out@[j].1@
                                == o@[j].1@,
                    decreases o@.len() - i,
                {
                    out.push((o[i].0.clone(), o[i].1.duplicate()));
                    i += 1;
                }
                let r = Json::Object(out);
                proof {
                    reveal_with_fuel(<Json as View>::view, 2);
                    assert(r@->Object_0 =~= self@->Object_0);
                }
                r
            },
        }
    }

    pub fn is_null(&self) -> (r: bool)
        ensures
            r == (self@ == JsonView::Null),
    {
        match self {
            Json::Null => true,
            _ => false,
        }
    }

    pub fn as_str(&self) -> (r: Option<&str>)
        ensures
            opt_str(r) == self@.as_str(),
    {
        match self {
            Json::String(s) => Some(s.as_str()),
            _ => None,
        }
    }

    pub fn as_u64(&self) -> (r: Option<u64>)
        ensures
            r == self@.as_u64(),
    {
        match self {
            Json::Number(JsonNumber::Natural(n)) => Some(*n),
            Json::Number(JsonNumber::Negative(n)) => if *n >= 0 {
                Some(*n as u64)
            } else {
                None
            },
            Json::Number(JsonNumber::Real(n)) => n.as_u64(),
            _ => None,
        }
    }

    pub fn as_bool(&self) -> (r: Option<bool>)
        ensures
            r == self@.as_bool(),
    {
        match self {
            Json::Bool(b) => Some(*b),
            _ => None,
        }
    }

    /// The value under `key`, of an object.
    pub fn get(&self, key: &str) -> (r: Option<&Json>)
        ensures
            opt_json(r) == self@.get(key@),
    {
        match self {
            Json::Object(o) => {
                let ghost entries = self@->Object_0;
                let mut i: usize = 0;
                proof {
                    reveal_with_fuel(<Json as View>::view, 2);
                    assert(entries.skip(0) =~= entries);
                }
                while i < o.len()
                    invariant
                        i <= o@.len(),
                        self is Object,
                        self->Object_0 == o,
                        entries == self@->Object_0,
                        entries.len() == o@.len(),
                        self@.get(key@) == lookup(entries.skip(i as int), key@),
                    decreases o@.len() - i,
                {
                    proof {
                        reveal_with_fuel(<Json as View>::view, 2);
                        assert(entries.skip(i as int)[0] == (o@[i as int].0@, o@[i as int].1@));
                        assert(entries.skip(i as int).drop_first() =~= entries.skip(i + 1));
                    }
                    if same_text(o[i].0.as_str(), key) {
                        return Some(&o[i].1);
                    }
                    i += 1;
                }
                None
            },
            _ => None,
        }
    }

    /// The string under `key`, of an object.
    pub fn get_str(&self, key: &str) -> (r: Option<&str>)
        ensures
            opt_str(r) == self@.get_str(key@),
    {
        match self.get(key) {
            Some(v) => v.as_str(),
            None => None,
        }
    }

    /// The first item, of an array.
    pub fn first(&self) -> (r: Option<&Json>)
        ensures
            opt_json(r) == self@.first(),
    {
        match self {
            Json::Array(a) => {
                proof {
                    reveal_with_fuel(<Json as View>::view, 2);
                }
                if a.len() > 0 {
                    Some(&a[0])
                } else {
                    None
                }
            },
            _ => None,
        }
    }
}

/// The string under `key`, of an object that may not be there.
pub(crate) fn get_string_under<'a>(v: Option<&'a Json>, key: &str) -> (r: Option<&'a str>)
    ensures
        opt_str(r) == string_under(opt_json(v), key@),
{
    match v {
        Some(o) => o.get_str(key),
        None => None,
    }
}

/// What may be missing, read as an empty text.
pub(crate) fn owned_or_empty(s: Option<&str>) -> (r: String)
    ensures
        r@ == or_empty(opt_str(s)),
{
    match s {
        Some(t) => t.to_owned(),
        None => String::new(),
    }
}

pub open spec fn hex_digit(n: int) -> char {
    if n < 10 {
        ('0' as u32 + n) as char
    } else {
        ('a' as u32 + (n - 10)) as char
    }
}

/// How a character is written inside a JSON string.
pub open spec fn escaped(c: char) -> Seq<char> {
    if c == '"' {
        seq!['\\', '"']
    } else if c == '\\' {
        seq!['\\', '\\']
    } else if c == '\x08' {
        seq!['\\', 'b']
    } else if c == '\t' {
        seq!['\\', 't']
    } else if c == '\n' {
        seq!['\\', 'n']
    } else if c == '\x0c' {
        seq!['\\', 'f']
    } else if c == '\r' {
        seq!['\\', 'r']
    } else if (c as u32) < 0x20 {
        seq!['\\', 'u', '0', '0', hex_digit(c as int / 16), hex_digit(c as int % 16)]
    } else {
        seq![c]
    }
}

pub open spec fn escaped_text(s: Seq<char>) -> Seq<char>
    decreases s.len(),
{
    if s.len() == 0 {
        Seq::empty()
    } else {
        escaped(s[0]) + escaped_text(s.drop_first())
    }
}

/// `s` as a JSON string.
pub open spec fn quoted(s: Seq<char>) -> Seq<char> {
    seq!['"'] + escaped_text(s) + seq!['"']
}

proof fn lemma_escaped_starts(c: char)
    ensures
        escaped(c).len() > 0,
        escaped(c)[0] != '"',
{
}

/// Whatever follows, the first character that was escaped can be read off.
proof fn lemma_escaped_is_prefix_free(a: char, b: char, x: Seq<char>, y: Seq<char>)
    requires
        escaped(a) + x == escaped(b) + y,
    ensures
        a == b,
        x == y,
{
    let l = escaped(a) + x;
    let r = escaped(b) + y;
    assert(l[0] == escaped(a)[0] && r[0] == escaped(b)[0]);
    if l[0] == '\\' {
        assert(l[1] == escaped(a)[1] && r[1] == escaped(b)[1]);
        if l[1] == 'u' {
            assert(l[4] == escaped(a)[4] && r[4] == escaped(b)[4]);
            assert(l[5] == escaped(a)[5] && r[5] == escaped(b)[5]);
            assert((a as int) < 0x20 && (b as int) < 0x20);
            lemma_hex(a as int / 16, b as int / 16);
            lemma_hex(a as int % 16, b as int % 16);
            assert(a as int == b as int);
        }
    }
    assert(a == b);
    assert(x =~= l.skip(escaped(a).len() as int));
    assert(y =~= r.skip(escaped(b).len() as int));
}

proof fn lemma_hex(m: int, n: int)
    requires
        0 <= m < 16,
        0 <= n < 16,
        hex_digit(m) == hex_digit(n),
    ensures
        m == n,
{
    assert(hex_digit(m) as u32 == if m < 10 {
        '0' as u32 + m
    } else {
        'a' as u32 + (m - 10)
    });
    assert(hex_digit(n) as u32 == if n < 10 {
        '0' as u32 + n
    } else {
        'a' as u32 + (n - 10)
    });
}

proof fn lemma_escaped_text_ends(a: Seq<char>, b: Seq<char>, x: Seq<char>, y: Seq<char>)
    requires
        escaped_text(a) + seq!['"'] + x == escaped_text(b) + seq!['"'] + y,
    ensures
        a == b,
        x == y,
    decreases a.len(),
{
    let l = escaped_text(a) + seq!['"'] + x;
    let r = escaped_text(b) + seq!['"'] + y;
    if a.len() == 0 || b.len() == 0 {
        if a.len() > 0 {
            lemma_escaped_starts(a[0]);
            assert(l[0] == escaped(a[0])[0]);
            assert(r[0] == '"');
        }
        if b.len() > 0 {
            lemma_escaped_starts(b[0]);
            assert(r[0] == escaped(b[0])[0]);
            assert(l[0] == '"');
        }
        assert(a =~= b);
        assert(x =~= l.skip(1));
        assert(y =~= r.skip(1));
    } else {
        let u = escaped_text(a.drop_first()) + seq!['"'] + x;
        let v = escaped_text(b.drop_first()) + seq!['"'] + y;
        assert(l =~= escaped(a[0]) + u);
        assert(r =~= escaped(b[0]) + v);
        lemma_escaped_is_prefix_free(a[0], b[0], u, v);
        lemma_escaped_text_ends(a.drop_first(), b.drop_first(), x, y);
        assert(a =~= seq![a[0]] + a.drop_first());
        assert(b =~= seq![b[0]] + b.drop_first());
    }
}

/// A quoted text ends where its own closing mark stands, whatever it holds and whatever follows
/// it: from the whole, the text and what follows can be read back.
pub proof fn quoted_text_is_read_back(a: Seq<char>, b: Seq<char>, x: Seq<char>, y: Seq<char>)
    requires
        quoted(a) + x == quoted(b) + y,
    ensures
        a == b,
        x == y,
{
    let l = quoted(a) + x;
    let r = quoted(b) + y;
    assert(l.skip(1) =~= escaped_text(a) + seq!['"'] + x);
    assert(r.skip(1) =~= escaped_text(b) + seq!['"'] + y);
    lemma_escaped_text_ends(a, b, x, y);
}

/// Calls `serde_json::to_string` on a string. Its result is the text between quotation marks, in
/// which the quotation mark, the backslash and the control characters below the space are
/// escaped and nothing else is. Writing a string into memory never fails.
#[verifier::external_body]
pub(crate) fn quote(s: &str) -> (r: String)
    ensures
        r@ == quoted(s@),
{
    serde_json::to_string(s).unwrap_or_default()
}

#[verifier::external_type_specification]
#[verifier::external_body]
pub struct ExNumber(serde_json::Number);

#[verifier::external_type_specification]
#[verifier::external_body]
pub struct ExDocument(serde_json::Value);

/// `serde_json::Number::clone` gives the same number.
pub assume_specification[ <serde_json::Number as Clone>::clone ](
    n: &serde_json::Number,
) -> (r: serde_json::Number)
    ensures
        r == *n,
;

/// What `serde_json::Number::as_u64` reads from a number.
pub uninterp spec fn number_u64(n: serde_json::Number) -> Option<u64>;

/// `serde_json::Number::as_u64`: the number, where it is a natural number of 64 bits.
pub assume_specification[ serde_json::Number::as_u64 ](n: &serde_json::Number) -> (r: Option<u64>)
    ensures
        r == number_u64(*n),
;

/// The text that `serde_json::Value::as_str` finds in a document: what a string holds.
pub uninterp spec fn json_text(document: serde_json::Value) -> Option<Seq<char>>;

/// Calls `serde_json::Value::as_str`: the text of a document that is a string.
#[verifier::external_body]
pub(crate) fn text_of(document: &serde_json::Value) -> (r: Option<&str>)
    ensures
        opt_str(r) == json_text(*document),
{
    document.as_str()
}

/// The text that `serde_json` displays a document as.
pub uninterp spec fn compact_json(document: serde_json::Value) -> Seq<char>;

/// The indented text that `serde_json::to_string_pretty` writes for a document, where it does.
pub uninterp spec fn pretty_json(document: serde_json::Value) -> Option<Seq<char>>;

/// Displays a `serde_json::Value`: the document on one line.
#[verifier::external_body]
pub(crate) fn compact(document: &serde_json::Value) -> (r: String)
    ensures
        r@ == compact_json(*document),
{
    document.to_string()
}

/// Calls `serde_json::to_string_pretty`: the document in indented lines.
#[verifier::external_body]
pub(crate) fn pretty(document: &serde_json::Value) -> (r: Option<String>)
    ensures
        match r {
            Some(text) => pretty_json(*document) == Some(text@),
            None => pretty_json(*document) is None,
        },
{
    serde_json::to_string_pretty(document).ok()
}

/// The text that `serde_json::to_string` writes for a list of documents, or the error that it
/// reports.
pub uninterp spec fn list_json(documents: Seq<serde_json::Value>) -> Result<Seq<char>, Seq<char>>;

/// Calls `serde_json::to_string` on a list of documents: the list on one line, or the error
/// displayed.
#[verifier::external_body]
pub(crate) fn write_list(documents: &Vec<serde_json::Value>) -> (r: Result<String, String>)
    ensures
        text_view(r) == list_json(documents@),
{
    match serde_json::to_string(documents) {
        Ok(text) => Ok(text),
        Err(error) => Err(error.to_string()),
    }
}

/// A document in indented lines, or nothing where it cannot be written so.
pub fn document_text(document: &serde_json::Value) -> (r: String)
    ensures
        r@ == or_empty(pretty_json(*document)),
{
    match pretty(document) {
        Some(text) => text,
        None => String::new(),
    }
}

} // verus!
