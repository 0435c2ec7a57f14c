//! Text building blocks: decimal rendering of integers, substring search,
//! byte-bounded prefixes of UTF-8 text and single-character edits.

use vstd::prelude::*;
use vstd::utf8::{decode_utf8, decode_utf8_split, encode_utf8_decode_utf8, encode_utf8_valid_utf8};
pub use vstd::utf8::{encode_utf8, is_char_boundary};

verus! {

/// The character of the decimal digit `d` (`0 <= d < 10`).
pub open spec fn digit_char(d: int) -> char {
    ('0' as int + d) as char
}

/// The decimal rendering of `n`, without sign or leading zeros.
pub open spec fn decimal(n: nat) -> Seq<char>
    decreases n,
{
    if n < 10 {
        seq![digit_char(n as int)]
    } else {
        decimal(n / 10).push(digit_char((n % 10) as int))
    }
}

fn digit(d: u64) -> (c: char)
    requires
        d < 10,
    ensures
        c == digit_char(d as int),
{
    match d {
        0 => '0',
        1 => '1',
        2 => '2',
        3 => '3',
        4 => '4',
        5 => '5',
        6 => '6',
        7 => '7',
        8 => '8',
        _ => '9',
    }
}

/// Appends the decimal rendering of `n` to `s`.
pub fn push_decimal(s: &mut String, n: u64)
    ensures
        final(s)@ == old(s)@ + decimal(n as nat),
    decreases n,
{
    if n >= 10 {
        push_decimal(s, n / 10);
    }
    let c = digit(n % 10);
    s.push(c);
}

/// `needle` occurs in `hay` as a contiguous run of characters.
pub open spec fn occurs_in(needle: Seq<char>, hay: Seq<char>) -> bool {
    exists|i: int| 0 <= i && i + needle.len() <= hay.len() && #[trigger] hay.subrange(i, i + needle.len()) == needle
}

fn matches_at(hay: &str, hay_len: usize, needle: &str, needle_len: usize, at: usize) -> (b: bool)
    requires
        hay_len == hay@.len(),
        needle_len == needle@.len(),
        at + needle_len <= hay_len,
    ensures
        b == (hay@.subrange(at as int, at + needle_len) == needle@),
{
    let mut k: usize = 0;
    while k < needle_len
        invariant
            hay_len == hay@.len(),
            needle_len == needle@.len(),
            at + needle_len <= hay_len,
            k <= needle_len,
            forall|j: int| 0 <= j < k ==> hay@[at + j] == needle@[j],
        decreases needle_len - k,
    {
        if hay.get_char(at + k) != needle.get_char(k) {
            assert(hay@.subrange(at as int, at + needle_len)[k as int] != needle@[k as int]);
            return false;
        }
        k = k + 1;
    }
    assert(hay@.subrange(at as int, at + needle_len) =~= needle@);
    true
}

/// Whether `needle` occurs in `hay`.
pub fn text_contains(hay: &str, needle: &str) -> (b: bool)
    ensures
        b == occurs_in(needle@, hay@),
{
    let hay_len = hay.unicode_len();
    let needle_len = needle.unicode_len();
    if needle_len == 0 {
        assert(hay@.subrange(0int, 0int + needle@.len()) =~= needle@);
        return true;
    }
    if needle_len > hay_len {
        return false;
    }
    let last = hay_len - needle_len;
    let mut at: usize = 0;
    while at <= last
        invariant
            hay_len == hay@.len(),
            needle_len == needle@.len(),
            last + needle_len == hay_len,
            needle_len > 0,
            at <= last + 1,
            forall|i: int| 0 <= i < at ==> #[trigger] hay@.subrange(i, i + needle_len) != needle@,
        decreases last + 1 - at,
    {
        if matches_at(hay, hay_len, needle, needle_len, at) {
            return true;
        }
        at = at + 1;
    }
    false
}

/// The number of bytes in the UTF-8 encoding of `s`.
pub open spec fn utf8_len(s: Seq<char>) -> nat {
    encode_utf8(s).len()
}

/// A longer prefix of `s` takes more bytes: every character is encoded in at
/// least one byte.
pub proof fn utf8_len_grows_with_prefix(s: Seq<char>, j: int, k: int)
    requires
        0 <= j < k <= s.len(),
    ensures
        utf8_len(s.subrange(0, j)) < utf8_len(s.subrange(0, k)),
    decreases s.len(),
{
    let tk = s.subrange(0, k);
    assert(tk.drop_first() =~= s.drop_first().subrange(0, k - 1));
    if j == 0 {
        assert(s.subrange(0, 0) =~= Seq::<char>::empty());
    } else {
        let tj = s.subrange(0, j);
        assert(tj.drop_first() =~= s.drop_first().subrange(0, j - 1));
        utf8_len_grows_with_prefix(s.drop_first(), j - 1, k - 1);
    }
}

/// The smaller of `a` and `b`.
pub open spec fn min_nat(a: nat, b: nat) -> nat {
    if a < b { a } else { b }
}

/// The first `min(byte length, max_bytes)` bytes of `s`, as text. That cut must
/// fall on a character boundary.
pub fn byte_prefix(s: &str, max_bytes: usize) -> (r: String)
    requires
        utf8_len(s@) <= usize::MAX,
        is_char_boundary(encode_utf8(s@), min_nat(utf8_len(s@), max_bytes as nat) as int),
    ensures
        r@.len() <= s@.len(),
        r@ == s@.subrange(0, r@.len() as int),
        utf8_len(r@) == min_nat(utf8_len(s@), max_bytes as nat),
{
    let total = s.len();
    let cut = if total < max_bytes { total } else { max_bytes };
    proof {
        encode_utf8_valid_utf8(s@);
    }
    let (head, _tail) = s.split_at(cut);
    proof {
        let bytes = encode_utf8(s@);
        encode_utf8_decode_utf8(s@);
        encode_utf8_decode_utf8(head@);
        decode_utf8_split(bytes, cut as int);
        assert(head@ == decode_utf8(bytes.subrange(0, cut as int)));
        assert(s@ =~= head@ + decode_utf8(bytes.subrange(cut as int, bytes.len() as int)));
        assert(head@ =~= s@.subrange(0, head@.len() as int));
    }
    String::from_str(head)
}

/// `String::push` appends the character `ch` to the string.
pub assume_specification[ String::push ](s: &mut String, ch: char)
    ensures
        final(s)@ == old(s)@.push(ch),
;

/// `String::pop` removes the last character and returns it, or returns `None`
/// and leaves the string as it is when it is empty.
pub assume_specification[ String::pop ](s: &mut String) -> (c: Option<char>)
    ensures
        old(s)@.len() == 0 ==> c is None && final(s)@ == old(s)@,
        old(s)@.len() > 0 ==> c == Some(old(s)@.last()) && final(s)@ == old(s)@.drop_last(),
;

/// Appends `c` to `s`.
pub fn push_char(s: &mut String, c: char)
    ensures
        final(s)@ == old(s)@.push(c),
{
    s.push(c);
}

} // verus!
