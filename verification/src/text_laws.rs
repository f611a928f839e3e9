//! What holds of the functions on text.

use vstd::prelude::*;
use vstd::utf8::{encode_scalar, encode_utf8};

use crate::text::{
    all_digits, byte_prefix, contains, decimal, digits_value, find, is_digit, is_white, lemma_find,
    lines, next_mark, occurs_at, parse_up_to, split, strip_prefix, strip_suffix, trim, trim_end,
    trim_quotes, trim_start, without_return, Edge,
};

verus! {

/// The white space of ASCII is the space, the tab, the line feed, the vertical tab, the form feed
/// and the carriage return. Letters, digits and marks of ASCII are not white.
pub proof fn ascii_white_space(c: char)
    requires
        (c as u32) < 0x80,
    ensures
        is_white(c) <==> (c == ' ' || c == '\t' || c == '\n' || c == '\x0b' || c == '\x0c' || c
            == '\r'),
{
}

/// Beyond ASCII the white space is the next line, the spaces of all widths, and the separators of
/// lines and paragraphs.
pub proof fn other_white_space(c: char)
    requires
        (c as u32) >= 0x80,
    ensures
        is_white(c) <==> (c == '\u{85}' || c == '\u{a0}' || c == '\u{1680}' || ('\u{2000}' <= c && c
            <= '\u{200a}') || c == '\u{2028}' || c == '\u{2029}' || c == '\u{202f}' || c
            == '\u{205f}' || c == '\u{3000}'),
{
}

proof fn lemma_start_cuts(s: Seq<char>, edge: Edge) -> (i: int)
    ensures
        0 <= i <= s.len(),
        trim_start(s, edge) == s.skip(i),
        forall|k: int| 0 <= k < i ==> crate::text::drops(edge, #[trigger] s[k]),
        i < s.len() ==> !crate::text::drops(edge, s[i]),
    decreases s.len(),
{
    if s.len() > 0 && crate::text::drops(edge, s[0]) {
        let rest = s.drop_first();
        let j = lemma_start_cuts(rest, edge);
        assert(rest.skip(j) =~= s.skip(j + 1));
        assert forall|k: int| 0 <= k < j + 1 implies crate::text::drops(edge, #[trigger] s[k]) by {
            if k > 0 {
                assert(rest[k - 1] == s[k]);
            }
        }
        j + 1
    } else {
        assert(s.skip(0) =~= s);
        0
    }
}

proof fn lemma_end_cuts(s: Seq<char>, edge: Edge) -> (j: int)
    ensures
        0 <= j <= s.len(),
        trim_end(s, edge) == s.take(j),
        forall|k: int| j <= k < s.len() ==> crate::text::drops(edge, #[trigger] s[k]),
        j > 0 ==> !crate::text::drops(edge, s[j - 1]),
    decreases s.len(),
{
    if s.len() > 0 && crate::text::drops(edge, s.last()) {
        let rest = s.drop_last();
        let j = lemma_end_cuts(rest, edge);
        assert(rest.take(j) =~= s.take(j));
        assert forall|k: int| j <= k < s.len() implies crate::text::drops(
            edge,
            #[trigger] s[k],
        ) by {
            if k < rest.len() {
                assert(rest[k] == s[k]);
            }
        }
        j
    } else {
        assert(s.take(s.len() as int) =~= s);
        s.len() as int
    }
}

/// Trimming cuts off white space at both ends and nothing else, and leaves none there.
pub proof fn trim_cuts_white_space_only(s: Seq<char>)
    ensures
        exists|i: int, j: int|
            {
                &&& 0 <= i <= j <= s.len()
                &&& trim(s) == #[trigger] s.subrange(i, j)
                &&& forall|k: int| 0 <= k < i ==> is_white(#[trigger] s[k])
                &&& forall|k: int| j <= k < s.len() ==> is_white(#[trigger] s[k])
                &&& i < j ==> !is_white(s[i]) && !is_white(s[j - 1])
            },
{
    let i = lemma_start_cuts(s, Edge::White);
    let rest = s.skip(i);
    let n = lemma_end_cuts(rest, Edge::White);
    let j = i + n;
    assert(trim(s) =~= s.subrange(i, j));
    assert forall|k: int| j <= k < s.len() implies is_white(#[trigger] s[k]) by {
        assert(rest[k - i] == s[k]);
    }
    if i < j {
        assert(rest[n - 1] == s[j - 1]);
    }
}

/// A text with white space around it is trimmed to the text, if that has none at its ends.
pub proof fn surrounding_white_space_is_cut(a: Seq<char>, s: Seq<char>, b: Seq<char>)
    requires
        forall|k: int| 0 <= k < a.len() ==> is_white(#[trigger] a[k]),
        forall|k: int| 0 <= k < b.len() ==> is_white(#[trigger] b[k]),
        s.len() > 0,
        !is_white(s[0]),
        !is_white(s.last()),
    ensures
        trim(a + s + b) == s,
{
    let all = a + s + b;
    trim_cuts_white_space_only(all);
    let (i, j) = choose|i: int, j: int|
        {
            &&& 0 <= i <= j <= all.len()
            &&& trim(all) == #[trigger] all.subrange(i, j)
            &&& forall|k: int| 0 <= k < i ==> is_white(#[trigger] all[k])
            &&& forall|k: int| j <= k < all.len() ==> is_white(#[trigger] all[k])
            &&& i < j ==> !is_white(all[i]) && !is_white(all[j - 1])
        };
    let first = a.len() as int;
    let last = a.len() + s.len() - 1;
    assert(all[first] == s[0] && all[last] == s.last());
    assert(i <= first && last < j);
    if i < first {
        assert(all[i] == a[i]);
    }
    if last < j - 1 {
        assert(all[j - 1] == b[j - 1 - last - 1]);
    }
    assert(all.subrange(i, j) =~= s);
}

/// Only quotation marks are taken off the ends of a text, and all of them are.
pub proof fn quotes_are_cut_only(s: Seq<char>)
    ensures
        exists|i: int, j: int|
            {
                &&& 0 <= i <= j <= s.len()
                &&& trim_quotes(s) == #[trigger] s.subrange(i, j)
                &&& forall|k: int| 0 <= k < i ==> #[trigger] s[k] == '"'
                &&& forall|k: int| j <= k < s.len() ==> #[trigger] s[k] == '"'
                &&& i < j ==> s[i] != '"' && s[j - 1] != '"'
            },
{
    let i = lemma_start_cuts(s, Edge::Quote);
    let rest = s.skip(i);
    let n = lemma_end_cuts(rest, Edge::Quote);
    let j = i + n;
    assert(trim_quotes(s) =~= s.subrange(i, j));
    assert forall|k: int| j <= k < s.len() implies #[trigger] s[k] == '"' by {
        assert(rest[k - i] == s[k]);
    }
    if i < j {
        assert(rest[n - 1] == s[j - 1]);
    }
}

/// A prefix is taken off exactly where a text starts with it, a suffix where it ends with it, and
/// with what was taken off the text is complete again.
pub proof fn prefix_and_suffix_are_put_back(s: Seq<char>, part: Seq<char>, rest: Seq<char>)
    ensures
        strip_prefix(s, part) == Some(rest) <==> s == part + rest,
        strip_suffix(s, part) == Some(rest) <==> s == rest + part,
{
    if part.is_prefix_of(s) {
        assert(s =~= part + s.skip(part.len() as int));
    }
    if s == part + rest {
        assert(s.subrange(0, part.len() as int) =~= part);
        assert(s.skip(part.len() as int) =~= rest);
    }
    if part.is_suffix_of(s) {
        assert(s =~= s.take(s.len() - part.len()) + part);
    }
    if s == rest + part {
        assert(s.subrange(rest.len() as int, s.len() as int) =~= part);
        assert(s.take(s.len() - part.len()) =~= rest);
    }
}

/// What is found stands there, and nowhere before; what is not found stands nowhere.
pub proof fn find_gives_the_first_place(s: Seq<char>, pattern: Seq<char>)
    ensures
        match find(s, pattern) {
            Some(i) => {
                &&& 0 <= i && i + pattern.len() <= s.len()
                &&& s.subrange(i, i + pattern.len()) == pattern
                &&& forall|j: int|
                    0 <= j < i ==> #[trigger] s.subrange(j, j + pattern.len()) != pattern
            },
            None => forall|j: int|
                0 <= j && j + pattern.len() <= s.len() ==> #[trigger] s.subrange(
                    j,
                    j + pattern.len(),
                ) != pattern,
        },
{
    lemma_find(s, pattern);
    match find(s, pattern) {
        Some(i) => {
            assert forall|j: int| 0 <= j < i implies #[trigger] s.subrange(j, j + pattern.len())
                != pattern by {
                assert(!occurs_at(s, pattern, j));
            }
        },
        None => {
            assert forall|j: int| 0 <= j && j + pattern.len() <= s.len() implies #[trigger] s.subrange(
                j,
                j + pattern.len(),
            ) != pattern by {
                assert(!occurs_at(s, pattern, j));
            }
        },
    }
}

/// A text occurs in every text that has it between two others.
pub proof fn contained_text_has_surroundings(a: Seq<char>, s: Seq<char>, b: Seq<char>)
    ensures
        contains(a + s + b, s),
{
    let all = a + s + b;
    assert(all.subrange(a.len() as int, (a.len() + s.len()) as int) =~= s);
    assert(occurs_at(all, s, a.len() as int));
}

/// Pieces with a mark between each two of them.
pub open spec fn joined(pieces: Seq<Seq<char>>, mark: char) -> Seq<char>
    decreases pieces.len(),
{
    if pieces.len() == 0 {
        Seq::empty()
    } else if pieces.len() == 1 {
        pieces[0]
    } else {
        pieces[0] + seq![mark] + joined(pieces.drop_first(), mark)
    }
}

proof fn lemma_mark(s: Seq<char>, mark: char, from: int)
    requires
        0 <= from <= s.len(),
    ensures
        ({
            let end = next_mark(s, mark, from);
            &&& from <= end <= s.len()
            &&& end < s.len() ==> s[end] == mark
            &&& forall|k: int| from <= k < end ==> #[trigger] s[k] != mark
        }),
    decreases s.len() - from,
{
    if from < s.len() && s[from] != mark {
        lemma_mark(s, mark, from + 1);
    }
}

/// The pieces of a text hold no mark, there is always one, and with marks between them they are
/// the text.
pub proof fn pieces_are_put_together(s: Seq<char>, mark: char)
    ensures
        split(s, mark).len() > 0,
        joined(split(s, mark), mark) == s,
        forall|i: int|
            0 <= i < split(s, mark).len() ==> !(#[trigger] split(s, mark)[i]).contains(mark),
    decreases s.len(),
{
    lemma_mark(s, mark, 0);
    let end = next_mark(s, mark, 0);
    if end < s.len() {
        let head = s.take(end);
        let tail = s.skip(end + 1);
        pieces_are_put_together(tail, mark);
        let all = split(s, mark);
        assert(all =~= seq![head] + split(tail, mark));
        assert(all.drop_first() =~= split(tail, mark));
        assert(s =~= head + seq![mark] + tail);
        assert forall|i: int| 0 <= i < all.len() implies !(#[trigger] all[i]).contains(mark) by {
            if i == 0 {
                assert forall|k: int| 0 <= k < head.len() implies head[k] != mark by {
                    assert(head[k] == s[k]);
                }
            } else {
                assert(all[i] == split(tail, mark)[i - 1]);
            }
        }
    }
}

/// Lines without their carriage returns.
pub open spec fn without_returns(pieces: Seq<Seq<char>>) -> Seq<Seq<char>> {
    pieces.map_values(|piece: Seq<char>| without_return(piece))
}

/// The lines of a text are its pieces between line feeds. The last piece is no line if it is
/// empty, and keeps its carriage return; the others lose theirs.
pub proof fn lines_are_pieces(s: Seq<char>)
    ensures
        ({
            let pieces = split(s, '\n');
            let ended = without_returns(pieces.drop_last());
            lines(s) == if pieces.last().len() == 0 {
                ended
            } else {
                ended.push(pieces.last())
            }
        }),
    decreases s.len(),
{
    lemma_mark(s, '\n', 0);
    let end = next_mark(s, '\n', 0);
    let pieces = split(s, '\n');
    let ended = without_returns(pieces.drop_last());
    if end < s.len() {
        let head = s.take(end);
        let tail = s.skip(end + 1);
        lines_are_pieces(tail);
        pieces_are_put_together(tail, '\n');
        let rest = split(tail, '\n');
        assert(pieces =~= seq![head] + rest);
        assert(pieces.last() == rest.last());
        assert(pieces.drop_last() =~= seq![head] + rest.drop_last());
        assert(ended =~= seq![without_return(head)] + without_returns(rest.drop_last()));
        let wanted = if pieces.last().len() == 0 {
            ended
        } else {
            ended.push(pieces.last())
        };
        assert(lines(s) =~= wanted);
    } else {
        assert(pieces =~= seq![s]);
        assert(pieces.drop_last() =~= Seq::<Seq<char>>::empty());
        assert(ended =~= Seq::<Seq<char>>::empty());
    }
}

/// A carriage return at the end of a line is dropped, one of them, and nothing else is.
pub proof fn one_return_is_dropped(line: Seq<char>)
    ensures
        without_return(line.push('\r')) == line,
        line.len() == 0 || line.last() != '\r' ==> without_return(line) == line,
{
    assert(line.push('\r').drop_last() =~= line);
}

/// A number is read from one or more digits, before which a plus sign may stand, and from nothing
/// else. It is not read where it is larger than it may be.
pub proof fn numbers_are_read_from_digits(s: Seq<char>, max: nat, n: nat)
    ensures
        parse_up_to(s, max) == Some(n) <==> n <= max && exists|digits: Seq<char>|
            {
                &&& digits.len() > 0
                &&& #[trigger] all_digits(digits)
                &&& digits_value(digits) == n
                &&& (s == digits || s == seq!['+'] + digits)
            },
{
    if parse_up_to(s, max) == Some(n) {
        let digits = if s.len() > 0 && s[0] == '+' {
            s.skip(1)
        } else {
            s
        };
        assert(all_digits(digits));
        if s.len() > 0 && s[0] == '+' {
            assert(s =~= seq!['+'] + digits);
        }
    }
    if n <= max && exists|digits: Seq<char>|
        {
            &&& digits.len() > 0
            &&& #[trigger] all_digits(digits)
            &&& digits_value(digits) == n
            &&& (s == digits || s == seq!['+'] + digits)
        } {
        let digits = choose|digits: Seq<char>|
            {
                &&& digits.len() > 0
                &&& #[trigger] all_digits(digits)
                &&& digits_value(digits) == n
                &&& (s == digits || s == seq!['+'] + digits)
            };
        assert(is_digit(digits[0]));
        if s == seq!['+'] + digits {
            assert(s[0] == '+');
            assert(s.skip(1) =~= digits);
        }
    }
}

/// Digits write a number in base ten: one more digit makes ten of each one.
pub proof fn digits_write_base_ten(digits: Seq<char>, d: nat)
    requires
        d < 10,
    ensures
        digits_value(Seq::empty()) == 0,
        digits_value(digits.push(('0' as u32 + d) as char)) == 10 * digits_value(digits) + d,
{
    let c = ('0' as u32 + d) as char;
    assert(digits.push(c).drop_last() =~= digits);
    assert(c as u32 == '0' as u32 + d);
}

/// A number is written in digits that write it, without zeros before it.
pub proof fn decimal_writes_the_number(n: nat)
    ensures
        all_digits(decimal(n)),
        digits_value(decimal(n)) == n,
        decimal(n).len() > 0,
        decimal(n)[0] == '0' <==> n == 0,
    decreases n,
{
    let c = ('0' as u32 + n % 10) as char;
    assert(c as u32 == '0' as u32 + n % 10);
    if n < 10 {
        assert(decimal(n).drop_last() =~= Seq::<char>::empty());
        assert(digits_value(Seq::<char>::empty()) == 0);
    } else {
        decimal_writes_the_number(n / 10);
        let head = decimal(n / 10);
        assert(decimal(n).drop_last() =~= head);
        assert forall|i: int| 0 <= i < decimal(n).len() implies is_digit(
            #[trigger] decimal(n)[i],
        ) by {
            if i < head.len() {
                assert(decimal(n)[i] == head[i]);
            }
        }
        assert(decimal(n)[0] == head[0]);
    }
}

/// A text can be cut behind every character: where the first `k` characters take `n` bytes, they
/// are what the first `n` bytes hold. A text that takes no more than `n` bytes is not cut.
pub proof fn bytes_are_cut_behind_characters(s: Seq<char>, k: int, n: nat)
    requires
        0 <= k <= s.len(),
    ensures
        encode_utf8(s.take(k)).len() == n ==> byte_prefix(s, n) == Some(s.take(k)),
        encode_utf8(s).len() <= n ==> byte_prefix(s, n) == Some(s),
    decreases s.len(),
{
    if s.len() == 0 {
        assert(s.take(k) =~= s);
        assert(s =~= Seq::empty());
    } else {
        let width = encode_scalar(s[0] as u32).len();
        let rest = s.drop_first();
        assert(width > 0);
        if encode_utf8(s).len() <= n {
            bytes_are_cut_behind_characters(rest, 0, (n - width) as nat);
            assert(seq![s[0]] + rest =~= s);
        }
        if encode_utf8(s.take(k)).len() == n {
            if k == 0 {
                assert(s.take(0) =~= Seq::<char>::empty());
            } else {
                assert(s.take(k).drop_first() =~= rest.take(k - 1));
                assert(encode_utf8(s.take(k)).len() == width + encode_utf8(rest.take(k - 1)).len());
                bytes_are_cut_behind_characters(rest, k - 1, (n - width) as nat);
                assert(seq![s[0]] + rest.take(k - 1) =~= s.take(k));
            }
        }
    }
}

} // verus!
