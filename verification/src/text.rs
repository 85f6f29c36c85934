//! Character-level helpers shared by the editing and SGF modules: conversion
//! between `String` and `Vec<char>`, string equality, and the UTF-16 index
//! arithmetic that platform input bridges speak.
use vstd::prelude::*;

verus! {

/// Appends one character (std `String::push`): the string's characters gain
/// `c` at the end.
#[verifier::external_body]
pub(crate) fn push_char(s: &mut String, c: char)
    ensures
        final(s)@ == old(s)@.push(c),
{
    s.push(c);
}

/// Whether two string slices hold the same characters.
pub fn str_eq(a: &str, b: &str) -> (r: bool)
    ensures
        r == (a@ == b@),
{
    let x = chars_of(a);
    let y = chars_of(b);
    if x.len() != y.len() {
        return false;
    }
    let mut i: usize = 0;
    while i < x.len()
        invariant
            x@ == a@,
            y@ == b@,
            x@.len() == y@.len(),
            i <= x@.len(),
            forall|j: int| 0 <= j < i ==> x@[j] == y@[j],
        decreases x.len() - i,
    {
        if x[i] != y[i] {
            return false;
        }
        i += 1;
    }
    assert(x@ =~= y@);
    true
}

/// The characters of `s`, in order.
pub fn chars_of(s: &str) -> (v: Vec<char>)
    ensures
        v@ == s@,
{
    let mut v: Vec<char> = Vec::new();
    for c in it: s.chars()
        invariant
            it.seq() == s@,
            v@ == s@.take(it.index() as int),
    {
        v.push(c);
    }
    assert(v@ == s@);
    v
}

/// A string made of the characters `v`, in order.
pub fn string_from_chars(v: &Vec<char>) -> (s: String)
    ensures
        s@ == v@,
{
    let mut s = String::new();
    let mut i: usize = 0;
    while i < v.len()
        invariant
            i <= v.len(),
            s@ == v@.take(i as int),
        decreases v.len() - i,
    {
        push_char(&mut s, v[i]);
        i += 1;
        assert(s@ == v@.take(i as int));
    }
    assert(v@.take(v.len() as int) == v@);
    s
}

/// Number of UTF-16 code units that encode `c`: one inside the basic
/// multilingual plane, two (a surrogate pair) above it.
pub open spec fn utf16_width(c: char) -> nat {
    if (c as u32) < 0x10000u32 {
        1
    } else {
        2
    }
}

/// Number of UTF-16 code units that encode the character sequence `s`.
pub open spec fn utf16_len(s: Seq<char>) -> nat
    decreases s.len(),
{
    if s.len() == 0 {
        0
    } else {
        utf16_len(s.drop_last()) + utf16_width(s.last())
    }
}

/// `i`, limited to `n`.
pub open spec fn clamp(i: int, n: int) -> int {
    if i <= n {
        i
    } else {
        n
    }
}

/// UTF-16 offset of character index `i` in `s` (indices past the end count as
/// the end).
pub open spec fn utf16_offset(s: Seq<char>, i: int) -> nat {
    utf16_len(s.take(clamp(i, s.len() as int)))
}

/// Character index for UTF-16 offset `u`: the longest prefix of `s` whose
/// UTF-16 length does not exceed `u`. An offset inside a surrogate pair rounds
/// down to the character that starts the pair.
pub open spec fn char_index_for_utf16_offset(s: Seq<char>, u: int) -> nat
    decreases s.len(),
{
    if s.len() == 0 || utf16_len(s) <= u {
        s.len()
    } else {
        char_index_for_utf16_offset(s.drop_last(), u)
    }
}

/// `t` with the characters in `[start, end)` (both clamped to the end of `t`)
/// replaced by `ins`.
pub open spec fn splice(t: Seq<char>, start: int, end: int, ins: Seq<char>) -> Seq<char> {
    t.subrange(0, clamp(start, t.len() as int)) + ins + t.subrange(
        clamp(end, t.len() as int),
        t.len() as int,
    )
}

/// Code units add up over concatenation.
pub proof fn lemma_utf16_len_concat(a: Seq<char>, b: Seq<char>)
    ensures
        utf16_len(a + b) == utf16_len(a) + utf16_len(b),
    decreases b.len(),
{
    if b.len() == 0 {
        assert(a + b =~= a);
    } else {
        assert((a + b).drop_last() =~= a + b.drop_last());
        lemma_utf16_len_concat(a, b.drop_last());
    }
}

/// Removing characters never adds code units.
pub proof fn lemma_utf16_len_splice_removal(t: Seq<char>, start: int, end: int)
    requires
        0 <= start,
        clamp(start, t.len() as int) <= clamp(end, t.len() as int),
    ensures
        utf16_len(splice(t, start, end, Seq::empty())) <= utf16_len(t),
{
    let s = clamp(start, t.len() as int);
    let e = clamp(end, t.len() as int);
    assert(t =~= t.subrange(0, s) + t.subrange(s, e) + t.subrange(e, t.len() as int));
    assert(splice(t, start, end, Seq::empty()) =~= t.subrange(0, s) + t.subrange(e, t.len() as int));
    lemma_utf16_len_concat(t.subrange(0, s), t.subrange(s, e));
    lemma_utf16_len_concat(t.subrange(0, s) + t.subrange(s, e), t.subrange(e, t.len() as int));
    lemma_utf16_len_concat(t.subrange(0, s), t.subrange(e, t.len() as int));
}

/// The characters of `chars` with `[start, end)` (clamped) replaced by `ins`.
pub fn splice_chars(chars: &Vec<char>, start: usize, end: usize, ins: &Vec<char>) -> (out: Vec<
    char,
>)
    requires
        clamp(start as int, chars@.len() as int) <= clamp(end as int, chars@.len() as int),
    ensures
        out@ == splice(chars@, start as int, end as int, ins@),
{
    let n = chars.len();
    let s = if start <= n {
        start
    } else {
        n
    };
    let e = if end <= n {
        end
    } else {
        n
    };
    let mut out: Vec<char> = Vec::new();
    let mut i: usize = 0;
    while i < s
        invariant
            s <= n,
            n == chars@.len(),
            i <= s,
            out@ == chars@.subrange(0, i as int),
        decreases s - i,
    {
        out.push(chars[i]);
        i += 1;
        assert(out@ =~= chars@.subrange(0, i as int));
    }
    let mut j: usize = 0;
    while j < ins.len()
        invariant
            s <= n,
            n == chars@.len(),
            j <= ins.len(),
            out@ == chars@.subrange(0, s as int) + ins@.subrange(0, j as int),
        decreases ins.len() - j,
    {
        out.push(ins[j]);
        j += 1;
        assert(out@ =~= chars@.subrange(0, s as int) + ins@.subrange(0, j as int));
    }
    assert(ins@.subrange(0, ins@.len() as int) =~= ins@);
    let mut k: usize = e;
    while k < n
        invariant
            s <= e <= n,
            n == chars@.len(),
            e <= k <= n,
            out@ == chars@.subrange(0, s as int) + ins@ + chars@.subrange(e as int, k as int),
        decreases n - k,
    {
        out.push(chars[k]);
        k += 1;
        assert(out@ =~= chars@.subrange(0, s as int) + ins@ + chars@.subrange(e as int, k as int));
    }
    out
}

/// Width of one character in code units.
pub fn char_utf16_width(c: char) -> (w: usize)
    ensures
        w == utf16_width(c),
{
    if (c as u32) < 0x10000u32 {
        1
    } else {
        2
    }
}

proof fn lemma_utf16_width_positive(c: char)
    ensures
        1 <= utf16_width(c) <= 2,
{
}

/// Extending a prefix by one character adds that character's width.
pub proof fn lemma_utf16_take_step(s: Seq<char>, i: int)
    requires
        0 <= i < s.len(),
    ensures
        utf16_len(s.take(i + 1)) == utf16_len(s.take(i)) + utf16_width(s[i]),
{
    assert(s.take(i + 1).drop_last() =~= s.take(i));
}

/// Longer prefixes encode to strictly more code units.
pub proof fn lemma_utf16_take_monotone(s: Seq<char>, i: int, j: int)
    requires
        0 <= i <= j <= s.len(),
    ensures
        utf16_len(s.take(i)) <= utf16_len(s.take(j)),
        i < j ==> utf16_len(s.take(i)) < utf16_len(s.take(j)),
    decreases j - i,
{
    if i < j {
        lemma_utf16_take_monotone(s, i, j - 1);
        lemma_utf16_take_step(s, j - 1);
        lemma_utf16_width_positive(s[j - 1]);
    }
}

/// The whole sequence is its longest prefix.
pub proof fn lemma_utf16_take_all(s: Seq<char>)
    ensures
        utf16_len(s.take(s.len() as int)) == utf16_len(s),
{
    assert(s.take(s.len() as int) =~= s);
}

/// `char_index_for_utf16_offset` picks the prefix that fits `u` and is not
/// followed by another character that still fits.
pub proof fn lemma_char_index_for_utf16_bounds(s: Seq<char>, u: int)
    requires
        0 <= u,
    ensures
        char_index_for_utf16_offset(s, u) <= s.len(),
        utf16_len(s.take(char_index_for_utf16_offset(s, u) as int)) <= u,
        char_index_for_utf16_offset(s, u) < s.len() ==> u < utf16_len(
            s.take(char_index_for_utf16_offset(s, u) as int + 1),
        ),
    decreases s.len(),
{
    lemma_utf16_take_all(s);
    if utf16_len(s) <= u {
    } else {
        let t = s.drop_last();
        lemma_char_index_for_utf16_bounds(t, u);
        let r = char_index_for_utf16_offset(t, u) as int;
        assert(t.take(r) =~= s.take(r));
        if r < t.len() {
            assert(t.take(r + 1) =~= s.take(r + 1));
        }
    }
}

/// Any prefix length `k` that fits `u` while the next character does not is
/// the one `char_index_for_utf16_offset` picks.
pub proof fn lemma_char_index_for_utf16_unique(s: Seq<char>, u: int, k: int)
    requires
        0 <= k <= s.len(),
        utf16_len(s.take(k)) <= u,
        k < s.len() ==> u < utf16_len(s.take(k + 1)),
    ensures
        char_index_for_utf16_offset(s, u) == k,
{
    lemma_char_index_for_utf16_bounds(s, u);
    let r = char_index_for_utf16_offset(s, u) as int;
    if r < k {
        lemma_utf16_take_monotone(s, r + 1, k);
    } else if k < r {
        lemma_utf16_take_monotone(s, k + 1, r);
    }
}

/// Converting a character index to UTF-16 and back returns the (clamped)
/// index.
pub proof fn lemma_utf16_offset_round_trip(s: Seq<char>, i: int)
    requires
        0 <= i,
    ensures
        char_index_for_utf16_offset(s, utf16_offset(s, i) as int) == clamp(i, s.len() as int),
{
    let k = clamp(i, s.len() as int);
    if k < s.len() {
        lemma_utf16_take_monotone(s, k, k + 1);
    }
    lemma_char_index_for_utf16_unique(s, utf16_offset(s, i) as int, k);
}

/// UTF-16 offset of character index `i` (clamped to the end of `chars`).
pub fn utf16_offset_of(chars: &Vec<char>, i: usize) -> (u: usize)
    requires
        utf16_len(chars@) <= usize::MAX,
    ensures
        u == utf16_offset(chars@, i as int),
{
    let n = if i <= chars.len() {
        i
    } else {
        chars.len()
    };
    let mut sum: usize = 0;
    let mut k: usize = 0;
    while k < n
        invariant
            n <= chars.len(),
            n == clamp(i as int, chars@.len() as int),
            k <= n,
            sum == utf16_len(chars@.take(k as int)),
            utf16_len(chars@) <= usize::MAX,
        decreases n - k,
    {
        proof {
            lemma_utf16_take_step(chars@, k as int);
            lemma_utf16_take_monotone(chars@, k + 1, chars@.len() as int);
            lemma_utf16_take_all(chars@);
        }
        sum = sum + char_utf16_width(chars[k]);
        k += 1;
    }
    sum
}

/// Character index for UTF-16 offset `u` in `chars`.
pub fn char_index_for_utf16(chars: &Vec<char>, u: usize) -> (k: usize)
    requires
        utf16_len(chars@) <= usize::MAX,
    ensures
        k == char_index_for_utf16_offset(chars@, u as int),
{
    let mut consumed: usize = 0;
    let mut k: usize = 0;
    while k < chars.len()
        invariant
            k <= chars.len(),
            consumed == utf16_len(chars@.take(k as int)),
            consumed <= u,
            utf16_len(chars@) <= usize::MAX,
        decreases chars.len() - k,
    {
        proof {
            lemma_utf16_take_step(chars@, k as int);
            lemma_utf16_take_monotone(chars@, k + 1, chars@.len() as int);
            lemma_utf16_take_all(chars@);
        }
        let next = consumed + char_utf16_width(chars[k]);
        if u < next {
            proof {
                lemma_char_index_for_utf16_unique(chars@, u as int, k as int);
            }
            return k;
        }
        if u == next {
            proof {
                if k + 1 < chars.len() {
                    lemma_utf16_take_monotone(chars@, k + 1, k + 2);
                }
                lemma_char_index_for_utf16_unique(chars@, u as int, k + 1);
            }
            return k + 1;
        }
        consumed = next;
        k += 1;
    }
    proof {
        lemma_utf16_take_all(chars@);
        lemma_char_index_for_utf16_unique(chars@, u as int, chars@.len() as int);
    }
    chars.len()
}

} // verus!
