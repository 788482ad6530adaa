//! Byte-level text helpers for the kernel accounting files.

use vstd::prelude::*;

verus! {

/// ASCII whitespace, as recognised by `split_whitespace` on ASCII input.
pub open spec fn is_space(b: u8) -> bool {
    b == 32 || (9 <= b && b <= 13)
}

pub open spec fn is_digit(b: u8) -> bool {
    48 <= b && b <= 57
}

pub open spec fn all_digits(s: Seq<u8>) -> bool {
    forall|i: int| 0 <= i < s.len() ==> is_digit(#[trigger] s[i])
}

/// The number written by a string of decimal digits.
pub open spec fn decimal_value(s: Seq<u8>) -> nat
    decreases s.len(),
{
    if s.len() == 0 {
        0
    } else {
        decimal_value(s.drop_last()) * 10 + (s.last() - 48) as nat
    }
}

/// What `parse::<u64>` accepts here: a non-empty run of digits whose value fits in 64 bits.
pub open spec fn parsed_u64(s: Seq<u8>) -> Option<u64> {
    if s.len() > 0 && all_digits(s) && decimal_value(s) <= u64::MAX {
        Some(decimal_value(s) as u64)
    } else {
        None
    }
}

proof fn lemma_decimal_prefix_monotone(s: Seq<u8>, k: int, j: int)
    requires
        all_digits(s),
        0 <= k <= j <= s.len(),
    ensures
        decimal_value(s.subrange(0, k)) <= decimal_value(s.subrange(0, j)),
    decreases j - k,
{
    if k < j {
        lemma_decimal_prefix_monotone(s, k, j - 1);
        assert(s.subrange(0, j).drop_last() =~= s.subrange(0, j - 1));
        assert(is_digit(s[j - 1]));
    }
}

/// Reads a decimal number; `None` when the token is empty, holds a non-digit,
/// or does not fit in 64 bits.
pub fn parse_decimal(tok: &[u8]) -> (r: Option<u64>)
    ensures
        r == parsed_u64(tok@),
{
    if tok.len() == 0 {
        return None;
    }
    let mut v: u64 = 0;
    let mut i: usize = 0;
    while i < tok.len()
        invariant
            0 <= i <= tok@.len(),
            all_digits(tok@.subrange(0, i as int)),
            v as nat == decimal_value(tok@.subrange(0, i as int)),
        decreases tok@.len() - i,
    {
        let b = tok[i];
        if b < 48 || b > 57 {
            assert(!all_digits(tok@)) by {
                assert(!is_digit(tok@[i as int]));
            }
            return None;
        }
        let d: u64 = (b - 48) as u64;
        assert(tok@.subrange(0, i + 1).drop_last() =~= tok@.subrange(0, i as int));
        if v > (u64::MAX - d) / 10 {
            proof {
                if all_digits(tok@) {
                    lemma_decimal_prefix_monotone(tok@, i + 1, tok@.len() as int);
                    assert(tok@.subrange(0, tok@.len() as int) =~= tok@);
                }
            }
            return None;
        }
        v = v * 10 + d;
        i = i + 1;
        assert forall|j: int| 0 <= j < i implies is_digit(#[trigger] tok@.subrange(0, i as int)[j]) by {
            if j < i - 1 {
                assert(tok@.subrange(0, i as int)[j] == tok@.subrange(0, i - 1)[j]);
            }
        }
    }
    assert(tok@.subrange(0, i as int) =~= tok@);
    Some(v)
}


pub open spec fn flush(cur: Seq<u8>) -> Seq<Seq<u8>> {
    if cur.len() == 0 {
        seq![]
    } else {
        seq![cur]
    }
}

/// Whitespace-separated words of `s` from position `i` on, where `cur` is the
/// part of a word already seen before `i`.
pub open spec fn words_from(s: Seq<u8>, i: int, cur: Seq<u8>) -> Seq<Seq<u8>>
    decreases s.len() - i,
{
    if i >= s.len() {
        flush(cur)
    } else if is_space(s[i]) {
        flush(cur) + words_from(s, i + 1, seq![])
    } else {
        words_from(s, i + 1, cur.push(s[i]))
    }
}

/// The whitespace-separated words of `s`, in order, none of them empty.
pub open spec fn words(s: Seq<u8>) -> Seq<Seq<u8>> {
    words_from(s, 0, seq![])
}

pub open spec fn views(v: Seq<Vec<u8>>) -> Seq<Seq<u8>> {
    v.map_values(|w: Vec<u8>| w@)
}

/// Splits `s` at ASCII whitespace, dropping empty pieces.
pub fn split_words(s: &[u8]) -> (r: Vec<Vec<u8>>)
    ensures
        views(r@) == words(s@),
{
    let mut out: Vec<Vec<u8>> = Vec::new();
    let mut cur: Vec<u8> = Vec::new();
    let mut i: usize = 0;
    while i < s.len()
        invariant
            0 <= i <= s@.len(),
            views(out@) + words_from(s@, i as int, cur@) == words(s@),
        decreases s@.len() - i,
    {
        let b = s[i];
        let ghost a = views(out@);
        let ghost c = cur@;
        if b == 32 || (9 <= b && b <= 13) {
            let ghost w = words_from(s@, i + 1, seq![]);
            assert(words_from(s@, i as int, c) == flush(c) + w);
            if cur.len() > 0 {
                out.push(cur);
                cur = Vec::new();
                assert(views(out@) =~= a + flush(c));
            } else {
                assert(flush(c) =~= seq![]);
                assert(views(out@) =~= a + flush(c));
            }
            assert(cur@ =~= seq![]);
            assert((a + flush(c)) + w =~= a + (flush(c) + w));
        } else {
            cur.push(b);
        }
        i = i + 1;
    }
    let ghost a = views(out@);
    let ghost c = cur@;
    if cur.len() > 0 {
        out.push(cur);
        assert(views(out@) =~= a + flush(c));
    } else {
        assert(a + flush(c) =~= a);
    }
    out
}

/// Position of the first line feed at or after `i`, or the length when there is none.
pub open spec fn line_end(s: Seq<u8>, i: int) -> int
    decreases s.len() - i,
{
    if i >= s.len() {
        s.len() as int
    } else if s[i] == 10 {
        i
    } else {
        line_end(s, i + 1)
    }
}

/// The line that starts at `i`, without its line feed.
pub open spec fn line_at(s: Seq<u8>, i: int) -> Seq<u8> {
    s.subrange(i, line_end(s, i))
}

/// The text before the first line feed.
pub open spec fn first_line_of(s: Seq<u8>) -> Seq<u8> {
    line_at(s, 0)
}

/// Copies the text from `start` up to the next line feed, without it.
pub fn line_from(s: &[u8], start: usize) -> (r: Vec<u8>)
    requires
        start <= s@.len(),
    ensures
        r@ == line_at(s@, start as int),
{
    let mut out: Vec<u8> = Vec::new();
    let mut i: usize = start;
    while i < s.len() && s[i] != 10
        invariant
            start <= i <= s@.len(),
            line_end(s@, i as int) == line_end(s@, start as int),
            out@ == s@.subrange(start as int, i as int),
        decreases s@.len() - i,
    {
        out.push(s[i]);
        i = i + 1;
        assert(out@ =~= s@.subrange(start as int, i as int));
    }
    out
}

/// Copies the first line of `s`, without its line feed.
pub fn first_line(s: &[u8]) -> (r: Vec<u8>)
    ensures
        r@ == first_line_of(s@),
{
    line_from(s, 0)
}

/// Whether the two byte strings are equal.
pub fn bytes_eq(a: &[u8], b: &[u8]) -> (r: bool)
    ensures
        r == (a@ == b@),
{
    if a.len() != b.len() {
        return false;
    }
    let mut i: usize = 0;
    while i < a.len()
        invariant
            a@.len() == b@.len(),
            0 <= i <= a@.len(),
            a@.subrange(0, i as int) == b@.subrange(0, i as int),
        decreases a@.len() - i,
    {
        if a[i] != b[i] {
            return false;
        }
        i = i + 1;
        assert(a@.subrange(0, i as int) =~= a@.subrange(0, i - 1).push(a@[i - 1]));
        assert(b@.subrange(0, i as int) =~= b@.subrange(0, i - 1).push(b@[i - 1]));
    }
    assert(a@ =~= a@.subrange(0, i as int));
    assert(b@ =~= b@.subrange(0, i as int));
    true
}

/// Whether `key` occurs in `s` starting at position `i`.
pub open spec fn occurs_at(s: Seq<u8>, i: int, key: Seq<u8>) -> bool {
    0 <= i && i + key.len() <= s.len() && s.subrange(i, i + key.len()) == key
}

pub fn matches_at(s: &[u8], i: usize, key: &[u8]) -> (r: bool)
    ensures
        r == occurs_at(s@, i as int, key@),
{
    if key.len() > s.len() || i > s.len() - key.len() {
        return false;
    }
    let n = s.len();
    let mut j: usize = 0;
    while j < key.len()
        invariant
            n == s@.len(),
            i + key@.len() <= s@.len(),
            0 <= j <= key@.len(),
            s@.subrange(i as int, i + j) == key@.subrange(0, j as int),
        decreases key@.len() - j,
    {
        if s[i + j] != key[j] {
            assert(s@.subrange(i as int, i + key@.len())[j as int] != key@[j as int]);
            return false;
        }
        j = j + 1;
        assert(s@.subrange(i as int, i + j) =~= s@.subrange(i as int, i + j - 1).push(s@[i + j - 1]));
        assert(key@.subrange(0, j as int) =~= key@.subrange(0, j - 1).push(key@[j - 1]));
    }
    assert(key@ =~= key@.subrange(0, j as int));
    true
}

} // verus!
