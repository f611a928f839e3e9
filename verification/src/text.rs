//! Text as sequences of characters: what the rest of the library says about strings, and the
//! scanning that it needs.

use vstd::prelude::*;
use vstd::string::*;
use vstd::utf8::{encode_scalar, encode_utf8};

verus! {

/// `pattern` stands in `s` at index `i`.
pub open spec fn occurs_at(s: Seq<char>, pattern: Seq<char>, i: int) -> bool {
    0 <= i && i + pattern.len() <= s.len() && s.subrange(i, i + pattern.len()) == pattern
}

/// `i` is the least index at which `pattern` stands in `s`.
pub open spec fn occurs_first_at(s: Seq<char>, pattern: Seq<char>, i: int) -> bool {
    occurs_at(s, pattern, i) && forall|j: int| 0 <= j < i ==> !occurs_at(s, pattern, j)
}

pub open spec fn contains(s: Seq<char>, pattern: Seq<char>) -> bool {
    exists|i: int| occurs_at(s, pattern, i)
}

/// The least index at which `pattern` stands in `s`.
pub open spec fn find(s: Seq<char>, pattern: Seq<char>) -> Option<int> {
    if contains(s, pattern) {
        Some(choose|i: int| occurs_first_at(s, pattern, i))
    } else {
        None
    }
}

/// The characters with the Unicode property White_Space.
pub open spec fn is_white(c: char) -> bool {
    let n = c as u32;
    ||| 0x09 <= n <= 0x0d
    ||| n == 0x20
    ||| n == 0x85
    ||| n == 0xa0
    ||| n == 0x1680
    ||| 0x2000 <= n <= 0x200a
    ||| n == 0x2028
    ||| n == 0x2029
    ||| n == 0x202f
    ||| n == 0x205f
    ||| n == 0x3000
}

/// What a trim takes off the ends of a text.
#[derive(Clone, Copy, PartialEq, Eq, Structural)]
pub enum Edge {
    White,
    Quote,
}

pub open spec fn drops(edge: Edge, c: char) -> bool {
    match edge {
        Edge::White => is_white(c),
        Edge::Quote => c == '"',
    }
}

/// `s` without the leading characters that `edge` drops.
pub open spec fn trim_start(s: Seq<char>, edge: Edge) -> Seq<char>
    decreases s.len(),
{
    if s.len() > 0 && drops(edge, s[0]) {
        trim_start(s.drop_first(), edge)
    } else {
        s
    }
}

/// `s` without the trailing characters that `edge` drops.
pub open spec fn trim_end(s: Seq<char>, edge: Edge) -> Seq<char>
    decreases s.len(),
{
    if s.len() > 0 && drops(edge, s.last()) {
        trim_end(s.drop_last(), edge)
    } else {
        s
    }
}

/// `s` without white space at its ends.
pub open spec fn trim(s: Seq<char>) -> Seq<char> {
    trim_end(trim_start(s, Edge::White), Edge::White)
}

/// `s` without quotation marks at its ends.
pub open spec fn trim_quotes(s: Seq<char>) -> Seq<char> {
    trim_end(trim_start(s, Edge::Quote), Edge::Quote)
}

/// What follows `prefix` in `s`, where `s` starts with it.
pub open spec fn strip_prefix(s: Seq<char>, prefix: Seq<char>) -> Option<Seq<char>> {
    if prefix.is_prefix_of(s) {
        Some(s.skip(prefix.len() as int))
    } else {
        None
    }
}

/// What stands before `suffix` in `s`, where `s` ends with it.
pub open spec fn strip_suffix(s: Seq<char>, suffix: Seq<char>) -> Option<Seq<char>> {
    if suffix.is_suffix_of(s) {
        Some(s.take(s.len() - suffix.len()))
    } else {
        None
    }
}

/// The index of the first `mark` in `s` at or behind `from`, or the length of `s`.
pub open spec fn next_mark(s: Seq<char>, mark: char, from: int) -> int
    decreases s.len() - from,
{
    if from >= s.len() || s[from] == mark {
        from
    } else {
        next_mark(s, mark, from + 1)
    }
}

/// The pieces of `s` between the marks.
pub open spec fn split(s: Seq<char>, mark: char) -> Seq<Seq<char>>
    decreases s.len(),
{
    let end = next_mark(s, mark, 0);
    if 0 <= end < s.len() {
        seq![s.take(end)] + split(s.skip(end + 1), mark)
    } else {
        seq![s]
    }
}

/// A line that ended in a line feed, without the carriage return that may stand before it.
pub open spec fn without_return(line: Seq<char>) -> Seq<char> {
    if line.len() > 0 && line.last() == '\r' {
        line.drop_last()
    } else {
        line
    }
}

/// The lines of `s`. A line feed at the very end of `s` starts no further line.
pub open spec fn lines(s: Seq<char>) -> Seq<Seq<char>>
    decreases s.len(),
{
    let end = next_mark(s, '\n', 0);
    if s.len() == 0 {
        Seq::empty()
    } else if 0 <= end < s.len() {
        seq![without_return(s.take(end))] + lines(s.skip(end + 1))
    } else {
        seq![s]
    }
}

pub open spec fn is_digit(c: char) -> bool {
    '0' <= c && c <= '9'
}

pub open spec fn all_digits(s: Seq<char>) -> bool {
    forall|i: int| 0 <= i < s.len() ==> is_digit(#[trigger] s[i])
}

/// The number that the digits of `s` write in base ten.
pub open spec fn digits_value(s: Seq<char>) -> nat
    decreases s.len(),
{
    if s.len() == 0 {
        0
    } else {
        digits_value(s.drop_last()) * 10 + (s.last() as u32 - '0' as u32) as nat
    }
}

/// The number that `s` writes: an optional plus sign, then at least one digit and nothing else.
pub open spec fn parse_natural(s: Seq<char>) -> Option<nat> {
    let digits = if s.len() > 0 && s[0] == '+' {
        s.skip(1)
    } else {
        s
    };
    if digits.len() > 0 && all_digits(digits) {
        Some(digits_value(digits))
    } else {
        None
    }
}

/// What `parse_natural` reads from `s`, where it is no more than `max`.
pub open spec fn parse_up_to(s: Seq<char>, max: nat) -> Option<nat> {
    match parse_natural(s) {
        Some(n) if n <= max => Some(n),
        _ => None,
    }
}

pub open spec fn digit(n: nat) -> char {
    ('0' as u32 + n % 10) as char
}

/// `n` in base ten.
pub open spec fn decimal(n: nat) -> Seq<char>
    decreases n,
{
    if n < 10 {
        seq![digit(n)]
    } else {
        decimal(n / 10).push(digit(n))
    }
}

/// The views of a list of strings.
pub open spec fn views(list: Seq<String>) -> Seq<Seq<char>> {
    list.map_values(|s: String| s@)
}

pub(crate) proof fn lemma_find(s: Seq<char>, pattern: Seq<char>)
    ensures
        match find(s, pattern) {
            Some(i) => occurs_first_at(s, pattern, i),
            None => !contains(s, pattern),
        },
{
    if contains(s, pattern) {
        let i = choose|i: int| occurs_at(s, pattern, i);
        lemma_least(s, pattern, i);
    }
}

proof fn lemma_least(s: Seq<char>, pattern: Seq<char>, i: int)
    requires
        occurs_at(s, pattern, i),
    ensures
        exists|k: int| occurs_first_at(s, pattern, k),
    decreases i,
{
    if exists|j: int| 0 <= j < i && occurs_at(s, pattern, j) {
        let j = choose|j: int| 0 <= j < i && occurs_at(s, pattern, j);
        lemma_least(s, pattern, j);
    } else {
        assert(occurs_first_at(s, pattern, i));
    }
}

pub(crate) proof fn lemma_found(s: Seq<char>, pattern: Seq<char>, i: int)
    requires
        occurs_first_at(s, pattern, i),
    ensures
        find(s, pattern) == Some(i),
{
    lemma_find(s, pattern);
    assert(contains(s, pattern));
    let k = find(s, pattern)->0;
    if k < i {
        assert(!occurs_at(s, pattern, k));
    }
    if i < k {
        assert(!occurs_at(s, pattern, i));
    }
}

/// The characters of `s`.
pub(crate) fn chars_of(s: &str) -> (r: Vec<char>)
    ensures
        r@ == s@,
{
    let mut out: Vec<char> = Vec::new();
    for c in it: s.chars()
        invariant
            it.seq() == s@,
            out@ == s@.take(it.index()),
    {
        proof {
            assert(s@.take(it.index() + 1) =~= s@.take(it.index()).push(s@[it.index()]));
        }
        out.push(c);
    }
    proof {
        assert(s@.take(s@.len() as int) =~= s@);
    }
    out
}

/// Whether two texts hold the same characters.
pub(crate) fn same_text(a: &str, b: &str) -> (r: bool)
    ensures
        r == (a@ == b@),
{
    a.to_owned() == b.to_owned()
}

/// `a` followed by `b`.
pub(crate) fn join2(a: &str, b: &str) -> (r: String)
    ensures
        r@ == a@ + b@,
{
    let mut out = a.to_owned();
    out.append(b);
    out
}

/// `a` followed by `b` and `c`.
pub(crate) fn join3(a: &str, b: &str, c: &str) -> (r: String)
    ensures
        r@ == a@ + b@ + c@,
{
    let mut out = a.to_owned();
    out.append(b);
    out.append(c);
    out
}

/// Whether `pattern` stands in `s` at index `i`.
pub(crate) fn stands_at(s: &Vec<char>, pattern: &Vec<char>, i: usize) -> (r: bool)
    requires
        i <= s@.len(),
    ensures
        r == occurs_at(s@, pattern@, i as int),
{
    let n = s.len();
    if n - i < pattern.len() {
        return false;
    }
    let mut j: usize = 0;
    while j < pattern.len()
        invariant
            j <= pattern@.len(),
            n == s@.len(),
            i + pattern@.len() <= n,
            forall|k: int| 0 <= k < j ==> s@[i + k] == pattern@[k],
        decreases pattern@.len() - j,
    {
        if s[i + j] != pattern[j] {
            proof {
                assert(s@.subrange(i as int, i + pattern@.len())[j as int] != pattern@[j as int]);
            }
            return false;
        }
        j += 1;
    }
    proof {
        assert(s@.subrange(i as int, i + pattern@.len()) =~= pattern@);
    }
    true
}

/// The least index at which `pattern` stands in `s`.
pub(crate) fn find_text(s: &Vec<char>, pattern: &Vec<char>) -> (r: Option<usize>)
    ensures
        match r {
            Some(i) => find(s@, pattern@) == Some(i as int) && occurs_first_at(
                s@,
                pattern@,
                i as int,
            ),
            None => find(s@, pattern@) is None && !contains(s@, pattern@),
        },
{
    let mut i: usize = 0;
    loop
        invariant
            i <= s@.len(),
            forall|j: int| 0 <= j < i ==> !occurs_at(s@, pattern@, j),
        decreases s@.len() - i,
    {
        if stands_at(s, pattern, i) {
            proof {
                lemma_found(s@, pattern@, i as int);
            }
            return Some(i);
        }
        if i == s.len() {
            proof {
                assert forall|j: int| !occurs_at(s@, pattern@, j) by {
                    if 0 <= j < i {
                        assert(!occurs_at(s@, pattern@, j));
                    }
                }
                lemma_find(s@, pattern@);
            }
            return None;
        }
        i += 1;
    }
}

pub(crate) fn contains_text(s: &str, pattern: &str) -> (r: bool)
    ensures
        r == contains(s@, pattern@),
{
    let s = chars_of(s);
    let pattern = chars_of(pattern);
    match find_text(&s, &pattern) {
        Some(i) => {
            proof {
                assert(occurs_at(s@, pattern@, i as int));
            }
            true
        },
        None => false,
    }
}

pub(crate) fn starts_with(s: &str, prefix: &str) -> (r: bool)
    ensures
        r == prefix@.is_prefix_of(s@),
{
    let s = chars_of(s);
    let prefix = chars_of(prefix);
    stands_at(&s, &prefix, 0)
}

/// What follows `prefix` in `s`, where `s` starts with it.
pub(crate) fn after_prefix(s: &str, prefix: &str) -> (r: Option<String>)
    ensures
        match r {
            Some(t) => strip_prefix(s@, prefix@) == Some(t@),
            None => strip_prefix(s@, prefix@) is None,
        },
{
    if starts_with(s, prefix) {
        let n = s.unicode_len();
        let rest = s.substring_char(prefix.unicode_len(), n);
        proof {
            assert(rest@ =~= s@.skip(prefix@.len() as int));
        }
        Some(rest.to_owned())
    } else {
        None
    }
}

/// What stands before `suffix` in `s`, where `s` ends with it.
pub(crate) fn before_suffix(s: &str, suffix: &str) -> (r: Option<String>)
    ensures
        match r {
            Some(t) => strip_suffix(s@, suffix@) == Some(t@),
            None => strip_suffix(s@, suffix@) is None,
        },
{
    let all = chars_of(s);
    let end = chars_of(suffix);
    if end.len() <= all.len() && stands_at(&all, &end, all.len() - end.len()) {
        let rest = s.substring_char(0, all.len() - end.len());
        proof {
            assert(rest@ =~= s@.take(s@.len() - suffix@.len()));
        }
        Some(rest.to_owned())
    } else {
        None
    }
}

/// The first `n` characters of `s`, or all of them where there are fewer.
pub(crate) fn first_chars(s: &str, n: usize) -> (r: String)
    ensures
        r@ == s@.take(if n <= s@.len() {
            n as int
        } else {
            s@.len() as int
        }),
{
    let len = s.unicode_len();
    let kept: usize = if n <= len {
        n
    } else {
        len
    };
    let part = s.substring_char(0, kept);
    proof {
        assert(part@ =~= s@.take(kept as int));
    }
    part.to_owned()
}

/// The text whose UTF-8 encoding is the first `n` bytes of that of `s`, or all of `s` where there
/// are fewer bytes. There is none where the `n` bytes end inside a character.
pub open spec fn byte_prefix(s: Seq<char>, n: nat) -> Option<Seq<char>>
    decreases s.len(),
{
    if n == 0 || s.len() == 0 {
        Some(Seq::empty())
    } else {
        let width = encode_scalar(s[0] as u32).len();
        if width > n {
            None
        } else {
            match byte_prefix(s.drop_first(), (n - width) as nat) {
                Some(rest) => Some(seq![s[0]] + rest),
                None => None,
            }
        }
    }
}

/// The length of the encoding of a character.
fn width(c: char) -> (r: usize)
    ensures
        r == encode_scalar(c as u32).len(),
        1 <= r <= 4,
{
    let n = c as u32;
    if n <= 0x7f {
        1
    } else if n <= 0x7ff {
        2
    } else if n <= 0xffff {
        3
    } else {
        4
    }
}

/// The text that the first `n` bytes of `s` encode.
pub(crate) fn first_bytes(s: &str, n: usize) -> (r: Option<String>)
    ensures
        match r {
            Some(kept) => byte_prefix(s@, n as nat) == Some(kept@),
            None => byte_prefix(s@, n as nat) is None,
        },
{
    let all = chars_of(s);
    let mut kept: usize = 0;
    let mut left: usize = n;
    proof {
        assert(s@.skip(0) =~= s@);
        if let Some(rest) = byte_prefix(s@, n as nat) {
            assert(s@.take(0) + rest =~= rest);
        }
    }
    while left > 0 && kept < all.len()
        invariant
            all@ == s@,
            kept <= s@.len(),
            match byte_prefix(s@.skip(kept as int), left as nat) {
                Some(rest) => byte_prefix(s@, n as nat) == Some(s@.take(kept as int) + rest),
                None => byte_prefix(s@, n as nat) is None,
            },
        decreases s@.len() - kept,
    {
        let w = width(all[kept]);
        if w > left {
            return None;
        }
        proof {
            assert(s@.skip(kept as int).drop_first() =~= s@.skip(kept + 1));
            if let Some(rest) = byte_prefix(s@.skip(kept + 1), (left - w) as nat) {
                assert(s@.take(kept as int) + (seq![s@[kept as int]] + rest) =~= s@.take(kept + 1)
                    + rest);
            }
        }
        left -= w;
        kept += 1;
    }
    let part = s.substring_char(0, kept);
    proof {
        assert(part@ =~= s@.take(kept as int) + Seq::<char>::empty());
    }
    Some(part.to_owned())
}

/// A prefix that was cut off by bytes has as many as it should: `n`, or as many as there are.
pub proof fn byte_prefix_has_its_length(s: Seq<char>, n: nat)
    ensures
        byte_prefix(s, n) matches Some(kept) ==> {
            &&& kept.is_prefix_of(s)
            &&& encode_utf8(kept).len() == if encode_utf8(s).len() <= n {
                encode_utf8(s).len()
            } else {
                n
            }
        },
    decreases s.len(),
{
    if n > 0 && s.len() > 0 {
        let width = encode_scalar(s[0] as u32).len();
        if width <= n {
            let rest = s.drop_first();
            byte_prefix_has_its_length(rest, (n - width) as nat);
            if let Some(kept) = byte_prefix(rest, (n - width) as nat) {
                let all = seq![s[0]] + kept;
                assert(all.drop_first() =~= kept);
                assert(s =~= seq![s[0]] + rest);
                assert(all =~= s.subrange(0, all.len() as int));
            }
        }
    } else {
        assert(Seq::<char>::empty() =~= s.subrange(0, 0));
        assert(encode_utf8(Seq::<char>::empty()).len() == 0);
    }
}

fn dropped(edge: Edge, c: char) -> (r: bool)
    ensures
        r == drops(edge, c),
{
    match edge {
        Edge::White => {
            let n = c as u32;
            (0x09 <= n && n <= 0x0d) || n == 0x20 || n == 0x85 || n == 0xa0 || n == 0x1680 || (0x2000
                <= n && n <= 0x200a) || n == 0x2028 || n == 0x2029 || n == 0x202f || n == 0x205f || n
                == 0x3000
        },
        Edge::Quote => c == '"',
    }
}

fn trimmed_by(s: &str, edge: Edge) -> (r: String)
    ensures
        r@ == trim_end(trim_start(s@, edge), edge),
{
    let all = chars_of(s);
    let mut from: usize = 0;
    proof {
        assert(s@.skip(0) =~= s@);
    }
    while from < all.len() && dropped(edge, all[from])
        invariant
            all@ == s@,
            from <= s@.len(),
            trim_start(s@, edge) == trim_start(s@.skip(from as int), edge),
        decreases s@.len() - from,
    {
        proof {
            assert(s@.skip(from as int).drop_first() =~= s@.skip(from + 1));
        }
        from += 1;
    }
    proof {
        assert(trim_start(s@, edge) == s@.skip(from as int));
        assert(s@.subrange(from as int, s@.len() as int) =~= s@.skip(from as int));
    }
    let mut to: usize = all.len();
    while from < to && dropped(edge, all[to - 1])
        invariant
            all@ == s@,
            from <= to <= s@.len(),
            trim_end(trim_start(s@, edge), edge) == trim_end(
                s@.subrange(from as int, to as int),
                edge,
            ),
        decreases to - from,
    {
        proof {
            assert(s@.subrange(from as int, to as int).drop_last() =~= s@.subrange(
                from as int,
                to - 1,
            ));
        }
        to -= 1;
    }
    s.substring_char(from, to).to_owned()
}

/// `s` without white space at its ends.
pub(crate) fn trimmed(s: &str) -> (r: String)
    ensures
        r@ == trim(s@),
{
    trimmed_by(s, Edge::White)
}

/// `s` without quotation marks at its ends.
pub(crate) fn without_quotes(s: &str) -> (r: String)
    ensures
        r@ == trim_quotes(s@),
{
    trimmed_by(s, Edge::Quote)
}

proof fn lemma_next_mark(s: Seq<char>, mark: char, from: int)
    requires
        0 <= from <= s.len(),
    ensures
        from <= next_mark(s, mark, from) <= s.len(),
    decreases s.len() - from,
{
    if from < s.len() && s[from] != mark {
        lemma_next_mark(s, mark, from + 1);
    }
}

proof fn lemma_next_mark_skip(s: Seq<char>, mark: char, start: int, from: int)
    requires
        0 <= start <= from <= s.len(),
    ensures
        next_mark(s.skip(start), mark, from - start) == next_mark(s, mark, from) - start,
    decreases s.len() - from,
{
    if from < s.len() && s[from] != mark {
        lemma_next_mark_skip(s, mark, start, from + 1);
    }
}

/// The index of the first `mark` in `s` at or behind `from`, or the length of `s`.
fn find_mark(s: &Vec<char>, mark: char, from: usize) -> (r: usize)
    requires
        from <= s@.len(),
    ensures
        r == next_mark(s@, mark, from as int),
        from <= r <= s@.len(),
        r < s@.len() ==> s@[r as int] == mark,
{
    let mut i: usize = from;
    while i < s.len() && s[i] != mark
        invariant
            from <= i <= s@.len(),
            next_mark(s@, mark, from as int) == next_mark(s@, mark, i as int),
        decreases s@.len() - i,
    {
        i += 1;
    }
    i
}

/// The pieces of `s` between the marks.
pub(crate) fn split_text(s: &str, mark: char) -> (r: Vec<String>)
    ensures
        views(r@) == split(s@, mark),
{
    let all = chars_of(s);
    let mut out: Vec<String> = Vec::new();
    let mut from: usize = 0;
    proof {
        assert(s@.skip(0) =~= s@);
        assert(views(out@) + split(s@, mark) =~= split(s@, mark));
    }
    loop
        invariant
            all@ == s@,
            from <= s@.len(),
            views(out@) + split(s@.skip(from as int), mark) == split(s@, mark),
        decreases s@.len() - from,
    {
        let end = find_mark(&all, mark, from);
        let piece = s.substring_char(from, end);
        let ghost rest = s@.skip(from as int);
        let ghost before = out@;
        proof {
            lemma_next_mark_skip(s@, mark, from as int, from as int);
            assert(piece@ =~= rest.take(end - from));
        }
        out.push(piece.to_owned());
        proof {
            assert(views(out@) =~= views(before).push(piece@));
        }
        if end == all.len() {
            proof {
                assert(rest.take(end - from) =~= rest);
                assert(split(rest, mark) == seq![rest]);
                assert(views(out@) =~= views(before) + split(rest, mark));
            }
            return out;
        }
        proof {
            assert(rest.skip(end - from + 1) =~= s@.skip(end + 1));
            assert(views(out@) + split(s@.skip(end + 1), mark) =~= views(before) + split(
                rest,
                mark,
            ));
        }
        from = end + 1;
    }
}

/// The lines of `s`.
pub(crate) fn lines_of(s: &str) -> (r: Vec<String>)
    ensures
        views(r@) == lines(s@),
{
    let all = chars_of(s);
    let mut out: Vec<String> = Vec::new();
    let mut from: usize = 0;
    proof {
        assert(s@.skip(0) =~= s@);
        assert(views(out@) + lines(s@) =~= lines(s@));
    }
    while from < all.len()
        invariant
            all@ == s@,
            from <= s@.len(),
            views(out@) + lines(s@.skip(from as int)) == lines(s@),
        decreases s@.len() - from,
    {
        let end = find_mark(&all, '\n', from);
        let ghost rest = s@.skip(from as int);
        let ghost before = out@;
        proof {
            lemma_next_mark_skip(s@, '\n', from as int, from as int);
        }
        if end == all.len() {
            let line = s.substring_char(from, end);
            out.push(line.to_owned());
            proof {
                assert(line@ =~= rest);
                assert(s@.skip(end as int) =~= Seq::<char>::empty());
                assert(views(out@) =~= views(before).push(line@));
                assert(views(out@) + lines(s@.skip(end as int)) =~= views(before) + lines(rest));
            }
            from = end;
        } else {
            let to: usize = if from < end && all[end - 1] == '\r' {
                end - 1
            } else {
                end
            };
            let line = s.substring_char(from, to);
            out.push(line.to_owned());
            proof {
                assert(rest.take(end - from) =~= s@.subrange(from as int, end as int));
                assert(line@ =~= without_return(rest.take(end - from)));
                assert(views(out@) =~= views(before).push(line@));
                assert(rest.skip(end - from + 1) =~= s@.skip(end + 1));
                assert(views(out@) + lines(s@.skip(end + 1)) =~= views(before) + lines(rest));
            }
            from = end + 1;
        }
    }
    proof {
        assert(lines(s@.skip(from as int)) =~= Seq::<Seq<char>>::empty());
        assert(views(out@) + lines(s@.skip(from as int)) =~= views(out@));
    }
    out
}

/// The number that `s` writes in base ten, where it is no more than `max`.
pub(crate) fn parse_number(s: &str, max: u64) -> (r: Option<u64>)
    ensures
        match r {
            Some(n) => parse_up_to(s@, max as nat) == Some(n as nat),
            None => parse_up_to(s@, max as nat) is None,
        },
{
    let all = chars_of(s);
    let from: usize = if all.len() > 0 && all[0] == '+' {
        1
    } else {
        0
    };
    let ghost digits = s@.skip(from as int);
    proof {
        assert(s@.skip(0) =~= s@);
    }
    if from == all.len() {
        return None;
    }
    let mut value: Option<u64> = Some(0);
    let mut i: usize = from;
    while i < all.len()
        invariant
            all@ == s@,
            from <= i <= s@.len(),
            digits == s@.skip(from as int),
            digits == (if s@.len() > 0 && s@[0] == '+' {
                s@.skip(1)
            } else {
                s@
            }),
            forall|k: int| 0 <= k < i - from ==> is_digit(#[trigger] digits[k]),
            match value {
                Some(n) => n == digits_value(digits.take(i - from)) && n <= max,
                None => digits_value(digits.take(i - from)) > max,
            },
        decreases s@.len() - i,
    {
        let c = all[i];
        if !('0' <= c && c <= '9') {
            proof {
                assert(!is_digit(digits[i - from]));
                assert(!all_digits(digits));
            }
            return None;
        }
        let d: u64 = (c as u32 - '0' as u32) as u64;
        proof {
            assert(digits.take(i + 1 - from).drop_last() =~= digits.take(i - from));
            assert(digits.take(i + 1 - from).last() == c);
        }
        value = match value {
            Some(n) => match n.checked_mul(10) {
                Some(t) => match t.checked_add(d) {
                    Some(m) => if m <= max {
                        Some(m)
                    } else {
                        None
                    },
                    None => None,
                },
                None => None,
            },
            None => None,
        };
        i += 1;
    }
    proof {
        assert(digits.take(digits.len() as int) =~= digits);
        assert(all_digits(digits));
    }
    value
}

fn digit_text(d: u64) -> (r: &'static str)
    ensures
        r@ == seq![digit(d as nat)],
{
    proof {
        reveal_strlit("0");
        reveal_strlit("1");
        reveal_strlit("2");
        reveal_strlit("3");
        reveal_strlit("4");
        reveal_strlit("5");
        reveal_strlit("6");
        reveal_strlit("7");
        reveal_strlit("8");
        reveal_strlit("9");
    }
    let text = match d % 10 {
        0 => "0",
        1 => "1",
        2 => "2",
        3 => "3",
        4 => "4",
        5 => "5",
        6 => "6",
        7 => "7",
        8 => "8",
        _ => "9",
    };
    proof {
        assert(text@ =~= seq![digit(d as nat)]);
    }
    text
}

/// `n` in base ten.
pub(crate) fn decimal_text(n: u64) -> (r: String)
    ensures
        r@ == decimal(n as nat),
    decreases n,
{
    if n < 10 {
        digit_text(n).to_owned()
    } else {
        let mut out = decimal_text(n / 10);
        out.append(digit_text(n));
        proof {
            assert(out@ =~= decimal((n / 10) as nat).push(digit(n as nat)));
        }
        out
    }
}

/// A number that is written out is read back as it was.
pub proof fn decimal_is_read_back(n: nat)
    ensures
        parse_natural(decimal(n)) == Some(n),
{
    lemma_decimal(n);
    assert(is_digit(decimal(n)[0]));
}

proof fn lemma_decimal(n: nat)
    ensures
        decimal(n).len() > 0,
        all_digits(decimal(n)),
        digits_value(decimal(n)) == n,
    decreases n,
{
    reveal_with_fuel(digits_value, 2);
    let d = digit(n);
    assert(d as u32 == '0' as u32 + n % 10);
    if n >= 10 {
        lemma_decimal(n / 10);
        assert(decimal(n).drop_last() =~= decimal(n / 10));
    } else {
        assert(decimal(n).drop_last() =~= Seq::<char>::empty());
    }
}

proof fn lemma_trim_start(s: Seq<char>, edge: Edge)
    ensures
        trim_start(s, edge).len() <= s.len(),
        trim_start(s, edge).len() > 0 ==> !drops(edge, trim_start(s, edge)[0]),
    decreases s.len(),
{
    if s.len() > 0 && drops(edge, s[0]) {
        lemma_trim_start(s.drop_first(), edge);
    }
}

proof fn lemma_trim_end(s: Seq<char>, edge: Edge)
    ensures
        trim_end(s, edge).is_prefix_of(s),
        trim_end(s, edge).len() > 0 ==> !drops(edge, trim_end(s, edge).last()),
    decreases s.len(),
{
    if s.len() > 0 && drops(edge, s.last()) {
        lemma_trim_end(s.drop_last(), edge);
        assert(trim_end(s, edge) =~= s.subrange(0, trim_end(s, edge).len() as int));
    } else {
        assert(s =~= s.subrange(0, s.len() as int));
    }
}

/// What occurs in a part of a text occurs in the text.
pub(crate) proof fn lemma_contains(s: Seq<char>, part: Seq<char>, pattern: Seq<char>)
    requires
        contains(s, part),
        contains(part, pattern),
    ensures
        contains(s, pattern),
{
    let i = choose|i: int| occurs_at(s, part, i);
    let j = choose|j: int| occurs_at(part, pattern, j);
    assert(s.subrange(i + j, i + j + pattern.len()) =~= part.subrange(j, j + pattern.len()));
    assert(occurs_at(s, pattern, i + j));
}

proof fn lemma_trim_start_part(s: Seq<char>, edge: Edge)
    ensures
        contains(s, trim_start(s, edge)),
    decreases s.len(),
{
    if s.len() > 0 && drops(edge, s[0]) {
        let rest = s.drop_first();
        lemma_trim_start_part(rest, edge);
        assert(occurs_at(s, rest, 1));
        lemma_contains(s, rest, trim_start(rest, edge));
    } else {
        assert(s.subrange(0, s.len() as int) =~= s);
        assert(occurs_at(s, s, 0));
    }
}

/// Trimming a text only cuts at its ends.
pub proof fn trimmed_text_is_part(s: Seq<char>)
    ensures
        contains(s, trim(s)),
{
    let rest = trim_start(s, Edge::White);
    lemma_trim_start_part(s, Edge::White);
    lemma_trim_end(rest, Edge::White);
    assert(occurs_at(rest, trim(s), 0));
    lemma_contains(s, rest, trim(s));
}

/// A trimmed text has no white space at its ends.
pub proof fn trimmed_text_has_bare_ends(s: Seq<char>)
    ensures
        trim(s).len() > 0 ==> !is_white(trim(s)[0]) && !is_white(trim(s).last()),
{
    lemma_trim_start(s, Edge::White);
    lemma_trim_end(trim_start(s, Edge::White), Edge::White);
}

/// There is nothing left to trim from a trimmed text.
pub proof fn trim_is_idempotent(s: Seq<char>)
    ensures
        trim(trim(s)) == trim(s),
{
    trimmed_text_has_bare_ends(s);
}

} // verus!
