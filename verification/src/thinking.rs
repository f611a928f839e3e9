//! Taking the thinking of a language model out of its answer, and the fence off what is left.

use vstd::prelude::*;
use vstd::string::*;

use crate::text::{
    after_prefix, before_suffix, chars_of, contains, contains_text, find, find_text, join2,
    lemma_contains, lemma_find, lemma_found, occurs_at, occurs_first_at, strip_prefix,
    strip_suffix, trim, trim_is_idempotent, trimmed, trimmed_text_is_part,
};

verus! {

/// `s` without the blocks between `open` and `close`. The first opening tag begins a block; the
/// first closing tag behind it ends the block. A block that nothing ends takes everything behind
/// its beginning along. A closing tag outside of blocks stays.
pub open spec fn without_blocks(s: Seq<char>, open: Seq<char>, close: Seq<char>) -> Seq<char>
    decreases s.len(),
{
    match find(s, open) {
        None => s,
        Some(start) => {
            let inside = s.skip(start + open.len());
            match find(inside, close) {
                None => s.take(start),
                Some(end) => {
                    let next = s.take(start) + inside.skip(end + close.len());
                    if next.len() < s.len() {
                        without_blocks(next, open, close)
                    } else {
                        next
                    }
                },
            }
        },
    }
}

pub const THINK_OPEN: &'static str = "<think>";

pub const THINK_CLOSE: &'static str = "</think>";

pub const THINKING_OPEN: &'static str = "<thinking>";

pub const THINKING_CLOSE: &'static str = "</thinking>";

/// An answer without the blocks of both kinds of thinking.
pub open spec fn without_both(s: Seq<char>) -> Seq<char> {
    without_blocks(
        without_blocks(s, THINK_OPEN@, THINK_CLOSE@),
        THINKING_OPEN@,
        THINKING_CLOSE@,
    )
}

/// An answer without its thinking. Where the removal of one block brings another to light, that
/// one is removed too.
pub open spec fn without_thinking(s: Seq<char>) -> Seq<char>
    decreases s.len(),
{
    let rest = without_both(s);
    if contains(rest, THINK_OPEN@) && rest.len() < s.len() {
        without_thinking(rest)
    } else {
        rest
    }
}

pub const YAML_FENCE: &'static str = "```yaml";

pub const FENCE: &'static str = "```";

/// What follows the opening fence, or everything where there is none.
pub open spec fn after_fence(s: Seq<char>) -> Seq<char> {
    match strip_prefix(s, YAML_FENCE@) {
        Some(body) => body,
        None => match strip_prefix(s, FENCE@) {
            Some(body) => body,
            None => s,
        },
    }
}

/// A text without the fence around it. A fence that is not closed stays.
pub open spec fn without_fence(s: Seq<char>) -> Seq<char> {
    let text = trim(s);
    match strip_suffix(after_fence(text), FENCE@) {
        Some(inner) => trim(inner),
        None => trim(text),
    }
}

/// Taking a block out makes the text shorter; there is nothing else to take out.
proof fn lemma_blocks_shrink(s: Seq<char>, open: Seq<char>, close: Seq<char>)
    requires
        open.len() > 0,
    ensures
        without_blocks(s, open, close).len() <= s.len(),
        contains(s, open) ==> without_blocks(s, open, close).len() < s.len(),
        !contains(s, open) ==> without_blocks(s, open, close) == s,
    decreases s.len(),
{
    lemma_find(s, open);
    if let Some(start) = find(s, open) {
        let inside = s.skip(start + open.len());
        lemma_find(inside, close);
        if let Some(end) = find(inside, close) {
            let next = s.take(start) + inside.skip(end + close.len());
            assert(next.len() < s.len());
            lemma_blocks_shrink(next, open, close);
        }
    }
}

fn remove_blocks(s: &str, open: &str, close: &str) -> (r: String)
    requires
        open@.len() > 0,
    ensures
        r@ == without_blocks(s@, open@, close@),
{
    let open_chars = chars_of(open);
    let close_chars = chars_of(close);
    let mut text: String = s.to_owned();
    loop
        invariant
            open@.len() > 0,
            open_chars@ == open@,
            close_chars@ == close@,
            without_blocks(s@, open@, close@) == without_blocks(text@, open@, close@),
        decreases text@.len(),
    {
        let all = chars_of(text.as_str());
        let len = all.len();
        let start = match find_text(&all, &open_chars) {
            None => {
                return text;
            },
            Some(start) => start,
        };
        let head = text.as_str().substring_char(0, start);
        let inside = text.as_str().substring_char(start + open_chars.len(), len);
        proof {
            lemma_find(text@, open@);
            assert(head@ =~= text@.take(start as int));
            assert(inside@ =~= text@.skip(start + open@.len()));
        }
        let inner = chars_of(inside);
        match find_text(&inner, &close_chars) {
            None => {
                return head.to_owned();
            },
            Some(end) => {
                let tail = inside.substring_char(end + close_chars.len(), inner.len());
                proof {
                    assert(tail@ =~= inside@.skip(end + close@.len()));
                }
                text = join2(head, tail);
            },
        }
    }
}

/// An answer without its thinking.
pub fn remove_thinking(s: &str) -> (r: String)
    ensures
        r@ == without_thinking(s@),
{
    let mut text: String = s.to_owned();
    proof {
        reveal_strlit("<think>");
        reveal_strlit("<thinking>");
    }
    loop
        invariant
            THINK_OPEN@.len() > 0,
            THINKING_OPEN@.len() > 0,
            without_thinking(s@) == without_thinking(text@),
        decreases text@.len(),
    {
        let part = remove_blocks(text.as_str(), THINK_OPEN, THINK_CLOSE);
        let rest = remove_blocks(part.as_str(), THINKING_OPEN, THINKING_CLOSE);
        proof {
            lemma_both_shrink(text@);
        }
        if !contains_text(rest.as_str(), THINK_OPEN) {
            return rest;
        }
        text = rest;
    }
}

/// A text without the fence around it.
pub fn remove_fence(s: &str) -> (r: String)
    ensures
        r@ == without_fence(s@),
{
    let text = trimmed(s);
    let body = match after_prefix(text.as_str(), YAML_FENCE) {
        Some(body) => body,
        None => match after_prefix(text.as_str(), FENCE) {
            Some(body) => body,
            None => text.clone(),
        },
    };
    match before_suffix(body.as_str(), FENCE) {
        Some(inner) => trimmed(inner.as_str()),
        None => trimmed(text.as_str()),
    }
}

proof fn lemma_occurs_in_part(s: Seq<char>, pattern: Seq<char>, n: int, i: int)
    requires
        0 <= n <= s.len(),
        i + pattern.len() <= n,
    ensures
        occurs_at(s.take(n), pattern, i) == occurs_at(s, pattern, i),
{
    if i >= 0 {
        assert(s.take(n).subrange(i, i + pattern.len()) =~= s.subrange(i, i + pattern.len()));
    }
}

/// What is left of a text holds no opening tag.
pub proof fn blocks_leave_no_opening_tag(s: Seq<char>, open: Seq<char>, close: Seq<char>)
    requires
        open.len() > 0,
    ensures
        !contains(without_blocks(s, open, close), open),
    decreases s.len(),
{
    lemma_find(s, open);
    if let Some(start) = find(s, open) {
        let inside = s.skip(start + open.len());
        lemma_find(inside, close);
        if let Some(end) = find(inside, close) {
            blocks_leave_no_opening_tag(
                s.take(start) + inside.skip(end + close.len()),
                open,
                close,
            );
        } else {
            assert forall|i: int| !occurs_at(s.take(start), open, i) by {
                if 0 <= i && i + open.len() <= start {
                    lemma_occurs_in_part(s, open, start, i);
                    assert(!occurs_at(s, open, i));
                }
            }
        }
    }
}

/// Where both kinds were removed and the first comes to light again, the text got shorter.
proof fn lemma_both_shrink(s: Seq<char>)
    ensures
        without_both(s).len() <= s.len(),
        contains(without_both(s), THINK_OPEN@) ==> without_both(s).len() < s.len(),
        !contains(without_both(s), THINKING_OPEN@),
{
    reveal_strlit("<think>");
    reveal_strlit("<thinking>");
    let part = without_blocks(s, THINK_OPEN@, THINK_CLOSE@);
    lemma_blocks_shrink(s, THINK_OPEN@, THINK_CLOSE@);
    lemma_blocks_shrink(part, THINKING_OPEN@, THINKING_CLOSE@);
    blocks_leave_no_opening_tag(s, THINK_OPEN@, THINK_CLOSE@);
    blocks_leave_no_opening_tag(part, THINKING_OPEN@, THINKING_CLOSE@);
}

/// Whatever an answer is, what is left of it holds no opening tag of either kind, and is no longer
/// than the answer.
pub proof fn thinking_is_removed(s: Seq<char>)
    ensures
        !contains(without_thinking(s), THINK_OPEN@),
        !contains(without_thinking(s), THINKING_OPEN@),
        without_thinking(s).len() <= s.len(),
    decreases s.len(),
{
    lemma_both_shrink(s);
    let rest = without_both(s);
    if contains(rest, THINK_OPEN@) {
        thinking_is_removed(rest);
    }
}

/// A text without opening tags stays as it is.
pub proof fn text_without_opening_tags_is_kept(s: Seq<char>)
    requires
        !contains(s, THINK_OPEN@),
        !contains(s, THINKING_OPEN@),
    ensures
        without_thinking(s) == s,
{
}

/// A tag: a text whose first character it holds nowhere else.
pub open spec fn is_tag(tag: Seq<char>) -> bool {
    tag.len() > 0 && forall|i: int| 0 < i < tag.len() ==> #[trigger] tag[i] != tag[0]
}

/// A tag that begins behind `part` does not begin in it.
proof fn lemma_no_earlier(
    s: Seq<char>,
    tag: Seq<char>,
    part: Seq<char>,
    from: int,
    to: int,
    j: int,
)
    requires
        is_tag(tag),
        0 <= from <= j < to < s.len(),
        part == s.subrange(from, to),
        !contains(part, tag),
        s[to] == tag[0],
    ensures
        !occurs_at(s, tag, j),
{
    if occurs_at(s, tag, j) {
        let here = s.subrange(j, j + tag.len());
        if j + tag.len() <= to {
            assert(part.subrange(j - from, j - from + tag.len()) =~= here);
            assert(occurs_at(part, tag, j - from));
        } else {
            assert(here[to - j] == s[to]);
        }
    }
}

/// A block is taken out of the text around it, whatever stands in the block but its end.
pub proof fn block_is_taken_out(
    before: Seq<char>,
    block: Seq<char>,
    after: Seq<char>,
    open: Seq<char>,
    close: Seq<char>,
)
    requires
        is_tag(open),
        is_tag(close),
        !contains(before, open),
        !contains(block, close),
    ensures
        without_blocks(before + open + block + close + after, open, close) == without_blocks(
            before + after,
            open,
            close,
        ),
{
    let s = before + open + block + close + after;
    let start = before.len() as int;
    lemma_first_tag(before, block + close + after, open);
    assert(s =~= before + open + (block + close + after));
    let inside = s.skip(start + open.len());
    assert(inside =~= block + close + after);
    lemma_first_tag(block, after, close);
    assert(s.take(start) =~= before);
    assert(inside.skip((block.len() + close.len()) as int) =~= after);
}

/// The first tag behind a text that holds none.
proof fn lemma_first_tag(before: Seq<char>, after: Seq<char>, tag: Seq<char>)
    requires
        is_tag(tag),
        !contains(before, tag),
    ensures
        find(before + tag + after, tag) == Some(before.len() as int),
{
    let s = before + tag + after;
    let start = before.len() as int;
    assert(s.subrange(0, start) =~= before);
    assert(s.subrange(start, start + tag.len()) =~= tag);
    assert(s[start] == tag[0]);
    assert forall|j: int| 0 <= j < start implies !occurs_at(s, tag, j) by {
        lemma_no_earlier(s, tag, before, 0, start, j);
    }
    assert(occurs_first_at(s, tag, start));
    lemma_found(s, tag, start);
}

/// A block that nothing ends takes everything behind its beginning along.
pub proof fn open_block_takes_the_rest(
    before: Seq<char>,
    rest: Seq<char>,
    open: Seq<char>,
    close: Seq<char>,
)
    requires
        is_tag(open),
        is_tag(close),
        !contains(before, open),
        !contains(rest, close),
    ensures
        without_blocks(before + open + rest, open, close) == before,
{
    let s = before + open + rest;
    lemma_first_tag(before, rest, open);
    assert(s.skip((before.len() + open.len()) as int) =~= rest);
    lemma_find(rest, close);
    assert(s.take(before.len() as int) =~= before);
}

/// Both kinds of thinking are marked by tags.
pub proof fn thinking_is_marked_by_tags()
    ensures
        is_tag(THINK_OPEN@),
        is_tag(THINK_CLOSE@),
        is_tag(THINKING_OPEN@),
        is_tag(THINKING_CLOSE@),
{
    reveal_strlit("<think>");
    reveal_strlit("</think>");
    reveal_strlit("<thinking>");
    reveal_strlit("</thinking>");
}

/// A text with blocks in it: `before`, and then for each pair a block and the text behind it.
pub open spec fn woven(
    before: Seq<char>,
    pairs: Seq<(Seq<char>, Seq<char>)>,
    open: Seq<char>,
    close: Seq<char>,
) -> Seq<char>
    decreases pairs.len(),
{
    if pairs.len() == 0 {
        before
    } else {
        before + open + pairs[0].0 + close + woven(pairs[0].1, pairs.drop_first(), open, close)
    }
}

/// The same text without the blocks.
pub open spec fn unwoven(before: Seq<char>, pairs: Seq<(Seq<char>, Seq<char>)>) -> Seq<char>
    decreases pairs.len(),
{
    if pairs.len() == 0 {
        before
    } else {
        before + unwoven(pairs[0].1, pairs.drop_first())
    }
}

/// What stands before the first block can be taken in front of the rest.
proof fn lemma_woven(
    a: Seq<char>,
    b: Seq<char>,
    pairs: Seq<(Seq<char>, Seq<char>)>,
    open: Seq<char>,
    close: Seq<char>,
)
    ensures
        a + woven(b, pairs, open, close) == woven(a + b, pairs, open, close),
        a + unwoven(b, pairs) == unwoven(a + b, pairs),
{
    assert(a + woven(b, pairs, open, close) =~= woven(a + b, pairs, open, close));
    assert(a + unwoven(b, pairs) =~= unwoven(a + b, pairs));
}

/// However many blocks there are, all of them are taken out, and nothing else is lost.
pub proof fn blocks_are_taken_out(
    before: Seq<char>,
    pairs: Seq<(Seq<char>, Seq<char>)>,
    open: Seq<char>,
    close: Seq<char>,
)
    requires
        is_tag(open),
        is_tag(close),
        !contains(unwoven(before, pairs), open),
        forall|i: int| 0 <= i < pairs.len() ==> !contains((#[trigger] pairs[i]).0, close),
    ensures
        without_blocks(woven(before, pairs, open, close), open, close) == unwoven(before, pairs),
    decreases pairs.len(),
{
    if pairs.len() > 0 {
        let (block, text) = pairs[0];
        let rest = pairs.drop_first();
        let plain = unwoven(before, pairs);
        if contains(before, open) {
            assert(plain.subrange(0, before.len() as int) =~= before);
            assert(occurs_at(plain, before, 0));
            lemma_contains(plain, before, open);
        }
        block_is_taken_out(before, block, woven(text, rest, open, close), open, close);
        lemma_woven(before, text, rest, open, close);
        assert forall|i: int| 0 <= i < rest.len() implies !contains(
            (#[trigger] rest[i]).0,
            close,
        ) by {
            assert(rest[i] == pairs[i + 1]);
        }
        blocks_are_taken_out(before + text, rest, open, close);
    }
}

/// However often an answer thinks, of either kind, it is reduced to what it says in between.
pub proof fn thoughts_are_removed(before: Seq<char>, pairs: Seq<(Seq<char>, Seq<char>)>)
    requires
        !contains(unwoven(before, pairs), THINK_OPEN@),
        !contains(unwoven(before, pairs), THINKING_OPEN@),
    ensures
        (forall|i: int| 0 <= i < pairs.len() ==> !contains((#[trigger] pairs[i]).0, THINK_CLOSE@))
            ==> without_thinking(woven(before, pairs, THINK_OPEN@, THINK_CLOSE@)) == unwoven(
            before,
            pairs,
        ),
        !contains(woven(before, pairs, THINKING_OPEN@, THINKING_CLOSE@), THINK_OPEN@) && (forall|
            i: int,
        |
            0 <= i < pairs.len() ==> !contains((#[trigger] pairs[i]).0, THINKING_CLOSE@))
            ==> without_thinking(woven(before, pairs, THINKING_OPEN@, THINKING_CLOSE@)) == unwoven(
            before,
            pairs,
        ),
{
    thinking_is_marked_by_tags();
    if forall|i: int| 0 <= i < pairs.len() ==> !contains((#[trigger] pairs[i]).0, THINK_CLOSE@) {
        blocks_are_taken_out(before, pairs, THINK_OPEN@, THINK_CLOSE@);
    }
    if forall|i: int| 0 <= i < pairs.len() ==> !contains((#[trigger] pairs[i]).0, THINKING_CLOSE@) {
        blocks_are_taken_out(before, pairs, THINKING_OPEN@, THINKING_CLOSE@);
    }
}

/// An answer that thinks first and then says `answer` is reduced to the answer.
pub proof fn leading_thought_is_removed(thought: Seq<char>, answer: Seq<char>)
    requires
        !contains(thought, THINK_CLOSE@),
        !contains(answer, THINK_OPEN@),
        !contains(answer, THINKING_OPEN@),
    ensures
        without_thinking(THINK_OPEN@ + thought + THINK_CLOSE@ + answer) == answer,
{
    thinking_is_marked_by_tags();
    let none = Seq::<char>::empty();
    block_is_taken_out(none, thought, answer, THINK_OPEN@, THINK_CLOSE@);
    assert(none + THINK_OPEN@ + thought + THINK_CLOSE@ + answer =~= THINK_OPEN@ + thought
        + THINK_CLOSE@ + answer);
    assert(none + answer =~= answer);
}

/// Taking the fence off a text only cuts at its ends.
pub proof fn unwrapped_text_is_part(s: Seq<char>)
    ensures
        contains(s, without_fence(s)),
{
    let text = trim(s);
    trimmed_text_is_part(s);
    let body = after_fence(text);
    assert(contains(text, body)) by {
        let i = text.len() - body.len();
        assert(occurs_at(text, body, i)) by {
            assert(text.subrange(i, i + body.len()) =~= body);
        }
    }
    match strip_suffix(body, FENCE@) {
        Some(inner) => {
            assert(occurs_at(body, inner, 0)) by {
                assert(body.subrange(0, inner.len() as int) =~= inner);
            }
            trimmed_text_is_part(inner);
            lemma_contains(body, inner, trim(inner));
            lemma_contains(text, body, trim(inner));
            lemma_contains(s, text, trim(inner));
        },
        None => {
            trim_is_idempotent(s);
        },
    }
}

/// A text between a fence for YAML and a closing fence is taken out of them.
pub proof fn fenced_text_is_unwrapped(body: Seq<char>)
    ensures
        without_fence(YAML_FENCE@ + body + FENCE@) == trim(body),
{
    reveal_strlit("```yaml");
    reveal_strlit("```");
    let s = YAML_FENCE@ + body + FENCE@;
    assert(s[0] == '`' && s.last() == '`');
    assert(trim(s) == s);
    assert(s.take(YAML_FENCE@.len() as int) =~= YAML_FENCE@);
    assert(YAML_FENCE@.is_prefix_of(s));
    let rest = body + FENCE@;
    assert(s.skip(YAML_FENCE@.len() as int) =~= rest);
    assert(FENCE@ =~= rest.subrange(body.len() as int, rest.len() as int));
    assert(FENCE@.is_suffix_of(rest));
    assert(rest.take(rest.len() - FENCE@.len()) =~= body);
}

/// White space around a text that was unwrapped is gone.
pub proof fn unwrapped_text_is_trimmed(s: Seq<char>)
    ensures
        trim(without_fence(s)) == without_fence(s),
{
    let text = trim(s);
    match strip_suffix(after_fence(text), FENCE@) {
        Some(inner) => {
            trim_is_idempotent(inner);
        },
        None => {
            trim_is_idempotent(text);
        },
    }
}

/// The blocks between the shorter tags are taken out first. Where there are none, those between
/// the longer tags are. Then it begins anew.
pub proof fn thoughts_are_removed_in_turn(s: Seq<char>)
    ensures
        without_thinking(s) == without_thinking(without_blocks(s, "<think>"@, "</think>"@)),
        !contains(s, "<think>"@) ==> without_thinking(s) == without_thinking(
            without_blocks(s, "<thinking>"@, "</thinking>"@),
        ),
{
    reveal_strlit("<think>");
    reveal_strlit("<thinking>");
    let part = without_blocks(s, "<think>"@, "</think>"@);
    lemma_both_shrink(s);
    lemma_both_shrink(part);
    blocks_leave_no_opening_tag(s, "<think>"@, "</think>"@);
    lemma_blocks_shrink(part, "<think>"@, "</think>"@);
    if !contains(s, "<think>"@) {
        lemma_blocks_shrink(s, "<think>"@, "</think>"@);
        let rest = without_blocks(s, "<thinking>"@, "</thinking>"@);
        blocks_leave_no_opening_tag(s, "<thinking>"@, "</thinking>"@);
        if !contains(rest, "<think>"@) {
            text_without_opening_tags_is_kept(rest);
        }
    }
}

} // verus!
