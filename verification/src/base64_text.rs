//! Bytes as text in base 64.

use vstd::prelude::*;

use crate::page::fits_in_memory;

verus! {

/// The character for a value of six bits.
pub open spec fn sextet(n: int) -> char {
    if n < 26 {
        ('A' as u32 + n) as char
    } else if n < 52 {
        ('a' as u32 + (n - 26)) as char
    } else if n < 62 {
        ('0' as u32 + (n - 52)) as char
    } else if n == 62 {
        '+'
    } else {
        '/'
    }
}

/// Byte `i` of `b`, or zero behind its end.
pub open spec fn byte_or_zero(b: Seq<u8>, i: int) -> int {
    if i < b.len() {
        b[i] as int
    } else {
        0
    }
}

/// The four characters for the first three bytes of `b`, the last of them `=` where bytes are
/// missing.
pub open spec fn first_group(b: Seq<u8>) -> Seq<char> {
    let (x, y, z) = (byte_or_zero(b, 0), byte_or_zero(b, 1), byte_or_zero(b, 2));
    seq![
        sextet(x / 4),
        sextet(x % 4 * 16 + y / 16),
        if b.len() > 1 {
            sextet(y % 16 * 4 + z / 64)
        } else {
            '='
        },
        if b.len() > 2 {
            sextet(z % 64)
        } else {
            '='
        },
    ]
}

/// `b` in the standard alphabet, four characters for every three bytes.
pub open spec fn base64(b: Seq<u8>) -> Seq<char>
    decreases b.len(),
{
    if b.len() == 0 {
        Seq::empty()
    } else if b.len() <= 3 {
        first_group(b)
    } else {
        first_group(b) + base64(b.skip(3))
    }
}

/// Calls `encode` of `base64::engine::general_purpose::STANDARD`: the standard alphabet, with
/// padding.
#[verifier::external_body]
pub(crate) fn encode_base64(bytes: &Vec<u8>) -> (r: String)
    requires
        fits_in_memory(bytes@),
    ensures
        r@ == base64(bytes@),
{
    base64::Engine::encode(&base64::engine::general_purpose::STANDARD, bytes)
}

/// Every three bytes, and what is left over, take four characters.
pub proof fn base64_length(b: Seq<u8>)
    ensures
        base64(b).len() == (b.len() + 2) / 3 * 4,
    decreases b.len(),
{
    if b.len() > 3 {
        base64_length(b.skip(3));
    }
}

proof fn lemma_sextet(m: int, n: int)
    requires
        0 <= m < 64,
        0 <= n < 64,
    ensures
        sextet(m) == sextet(n) ==> m == n,
        sextet(m) != '=',
{
    assert(sextet(m) as u32 == if m < 26 {
        'A' as u32 + m
    } else if m < 52 {
        'a' as u32 + (m - 26)
    } else if m < 62 {
        '0' as u32 + (m - 52)
    } else if m == 62 {
        '+' as u32 as int
    } else {
        '/' as u32 as int
    });
    assert(sextet(n) as u32 == if n < 26 {
        'A' as u32 + n
    } else if n < 52 {
        'a' as u32 + (n - 26)
    } else if n < 62 {
        '0' as u32 + (n - 52)
    } else if n == 62 {
        '+' as u32 as int
    } else {
        '/' as u32 as int
    });
}

proof fn lemma_first_group(a: Seq<u8>, b: Seq<u8>)
    requires
        a.len() > 0,
        b.len() > 0,
        first_group(a) == first_group(b),
    ensures
        (a.len() > 1) == (b.len() > 1),
        (a.len() > 2) == (b.len() > 2),
        byte_or_zero(a, 0) == byte_or_zero(b, 0),
        byte_or_zero(a, 1) == byte_or_zero(b, 1),
        byte_or_zero(a, 2) == byte_or_zero(b, 2),
{
    let (x, y, z) = (byte_or_zero(a, 0), byte_or_zero(a, 1), byte_or_zero(a, 2));
    let (u, v, w) = (byte_or_zero(b, 0), byte_or_zero(b, 1), byte_or_zero(b, 2));
    let l = first_group(a);
    let r = first_group(b);
    assert(l[0] == r[0] && l[1] == r[1] && l[2] == r[2] && l[3] == r[3]);
    lemma_sextet(x / 4, u / 4);
    lemma_sextet(x % 4 * 16 + y / 16, u % 4 * 16 + v / 16);
    lemma_sextet(y % 16 * 4 + z / 64, v % 16 * 4 + w / 64);
    lemma_sextet(v % 16 * 4 + w / 64, y % 16 * 4 + z / 64);
    lemma_sextet(z % 64, w % 64);
    lemma_sextet(w % 64, z % 64);
}

/// The text of bytes determines them: nothing of an image is lost.
pub proof fn base64_loses_nothing(a: Seq<u8>, b: Seq<u8>)
    requires
        base64(a) == base64(b),
    ensures
        a == b,
    decreases a.len(),
{
    base64_length(a);
    base64_length(b);
    if a.len() == 0 || b.len() == 0 {
        assert(a =~= b);
    } else {
        let l = base64(a);
        let r = base64(b);
        assert(l.take(4) =~= first_group(a));
        assert(r.take(4) =~= first_group(b));
        lemma_first_group(a, b);
        if a.len() > 3 {
            assert(b.len() > 3);
            assert(base64(a.skip(3)) =~= l.skip(4));
            assert(base64(b.skip(3)) =~= r.skip(4));
            base64_loses_nothing(a.skip(3), b.skip(3));
            assert(a =~= seq![a[0], a[1], a[2]] + a.skip(3));
            assert(b =~= seq![b[0], b[1], b[2]] + b.skip(3));
        } else {
            assert(a =~= b);
        }
    }
}

/// The 64 characters that bytes are written in, each standing for its place among them.
pub open spec fn alphabet() -> Seq<char> {
    "ABCDEFGHIJKLMNOPQRSTUVWXYZabcdefghijklmnopqrstuvwxyz0123456789+/"@
}

proof fn lemma_alphabet(n: int)
    requires
        0 <= n < 64,
    ensures
        alphabet().len() == 64,
        sextet(n) == alphabet()[n],
{
    reveal_strlit("ABCDEFGHIJKLMNOPQRSTUVWXYZabcdefghijklmnopqrstuvwxyz0123456789+/");
}

/// Three bytes and the four characters for them are the same number, written in base 256 and in
/// base 64; what follows is written behind them.
pub proof fn three_bytes_are_four_digits(
    bytes: (u8, u8, u8),
    digits: (int, int, int, int),
    rest: Seq<u8>,
)
    requires
        0 <= digits.0 < 64,
        0 <= digits.1 < 64,
        0 <= digits.2 < 64,
        0 <= digits.3 < 64,
        bytes.0 * 65536 + bytes.1 * 256 + bytes.2 == digits.0 * 262144 + digits.1 * 4096 + digits.2
            * 64 + digits.3,
    ensures
        base64(seq![bytes.0, bytes.1, bytes.2] + rest) == seq![
            alphabet()[digits.0],
            alphabet()[digits.1],
            alphabet()[digits.2],
            alphabet()[digits.3],
        ] + base64(rest),
{
    let all = seq![bytes.0, bytes.1, bytes.2] + rest;
    lemma_alphabet(digits.0);
    lemma_alphabet(digits.1);
    lemma_alphabet(digits.2);
    lemma_alphabet(digits.3);
    assert(all.skip(3) =~= rest);
    assert(first_group(all) =~= seq![
        sextet(digits.0),
        sextet(digits.1),
        sextet(digits.2),
        sextet(digits.3),
    ]);
    if rest.len() == 0 {
        assert(base64(all) =~= first_group(all) + base64(rest));
    }
}

/// Two bytes that are left over take three characters, and one takes two: zeros fill the last
/// character, and `=` the places of the others.
pub proof fn last_bytes_are_padded(x: u8, y: u8, digits: (int, int, int))
    requires
        0 <= digits.0 < 64,
        0 <= digits.1 < 64,
        0 <= digits.2 < 64,
    ensures
        (x * 256 + y) * 4 == digits.0 * 4096 + digits.1 * 64 + digits.2 ==> base64(seq![x, y])
            == seq![alphabet()[digits.0], alphabet()[digits.1], alphabet()[digits.2], '='],
        x * 16 == digits.0 * 64 + digits.1 ==> base64(seq![x]) == seq![
            alphabet()[digits.0],
            alphabet()[digits.1],
            '=',
            '=',
        ],
        base64(Seq::<u8>::empty()).len() == 0,
{
    lemma_alphabet(digits.0);
    lemma_alphabet(digits.1);
    lemma_alphabet(digits.2);
}

} // verus!
