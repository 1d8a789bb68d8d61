//! Character and text operations over `Seq<char>` with their exact specifications.
//!
//! Text is handled as the sequence of its characters (`str`/`String` view).  The
//! executable functions work on character slices and produce `String`s; each one
//! states its result through the spec functions defined here.

use vstd::prelude::*;
use crate::primitives::{str_chars, string_push};

verus! {

// ---------------------------------------------------------------------------
// Characters
// ---------------------------------------------------------------------------

/// `c` is one of `'A'..='Z'`.
pub open spec fn is_ascii_upper(c: char) -> bool {
    'A' <= c && c <= 'Z'
}

/// `c` is one of `'a'..='z'`.
pub open spec fn is_ascii_lower(c: char) -> bool {
    'a' <= c && c <= 'z'
}

/// `c` is an ASCII character.
pub open spec fn is_ascii_char(c: char) -> bool {
    (c as u32) < 128
}

/// ASCII uppercase mapping: `'a'..='z'` to `'A'..='Z'`, every other character unchanged.
pub open spec fn ascii_upper(c: char) -> char {
    if is_ascii_lower(c) {
        ((c as u32) - 32) as char
    } else {
        c
    }
}

/// ASCII lowercase mapping: `'A'..='Z'` to `'a'..='z'`, every other character unchanged.
pub open spec fn ascii_lower(c: char) -> char {
    if is_ascii_upper(c) {
        ((c as u32) + 32) as char
    } else {
        c
    }
}

/// The Unicode `White_Space` property, which `char::is_whitespace` tests.
pub open spec fn is_white(c: char) -> bool {
    ||| ('\u{9}' <= c && c <= '\u{d}')
    ||| c == ' '
    ||| c == '\u{85}'
    ||| c == '\u{a0}'
    ||| c == '\u{1680}'
    ||| ('\u{2000}' <= c && c <= '\u{200a}')
    ||| c == '\u{2028}'
    ||| c == '\u{2029}'
    ||| c == '\u{202f}'
    ||| c == '\u{205f}'
    ||| c == '\u{3000}'
}

/// Uppercases an ASCII letter and leaves every other character alone.
pub fn to_ascii_upper(c: char) -> (r: char)
    ensures
        r == ascii_upper(c),
{
    if 'a' <= c && c <= 'z' {
        ((c as u8) - 32) as char
    } else {
        c
    }
}

/// Tests the Unicode `White_Space` property.
pub fn is_whitespace(c: char) -> (r: bool)
    ensures
        r == is_white(c),
{
    ('\u{9}' <= c && c <= '\u{d}') || c == ' ' || c == '\u{85}' || c == '\u{a0}' || c
        == '\u{1680}' || ('\u{2000}' <= c && c <= '\u{200a}') || c == '\u{2028}' || c
        == '\u{2029}' || c == '\u{202f}' || c == '\u{205f}' || c == '\u{3000}'
}

// ---------------------------------------------------------------------------
// Searching
// ---------------------------------------------------------------------------

/// `p` occurs in `s` at character position `i`.
pub open spec fn is_match_at(s: Seq<char>, p: Seq<char>, i: int) -> bool {
    0 <= i && i + p.len() <= s.len() && s.subrange(i, i + p.len()) == p
}

/// `p` occurs somewhere in `s` (`str::contains`).
pub open spec fn contains(s: Seq<char>, p: Seq<char>) -> bool {
    exists|i: int| is_match_at(s, p, i)
}

/// `s` begins with `p` (`str::starts_with`).
pub open spec fn starts_with(s: Seq<char>, p: Seq<char>) -> bool {
    is_match_at(s, p, 0)
}

/// `s` ends with `p` (`str::ends_with`).
pub open spec fn ends_with(s: Seq<char>, p: Seq<char>) -> bool {
    is_match_at(s, p, s.len() - p.len())
}

/// The first position at or after `i` where `p` occurs in `s`.
pub open spec fn find_from(s: Seq<char>, p: Seq<char>, i: nat) -> Option<int>
    decreases s.len() + 1 - i,
{
    if i + p.len() > s.len() {
        None
    } else if is_match_at(s, p, i as int) {
        Some(i as int)
    } else {
        find_from(s, p, i + 1)
    }
}

/// The first position where `p` occurs in `s` (`str::find`, counted in characters).
pub open spec fn find(s: Seq<char>, p: Seq<char>) -> Option<int> {
    find_from(s, p, 0)
}

/// The last position where the character `c` occurs in `s` (`str::rfind` of a character).
pub open spec fn rfind_char(s: Seq<char>, c: char) -> Option<int>
    decreases s.len(),
{
    if s.len() == 0 {
        None
    } else if s.last() == c {
        Some(s.len() - 1)
    } else {
        rfind_char(s.drop_last(), c)
    }
}

/// What `rfind_char` returns: a position of `c` in `s`.
pub proof fn lemma_rfind_char(s: Seq<char>, c: char)
    ensures
        rfind_char(s, c) matches Some(k) ==> 0 <= k < s.len() && s[k] == c,
    decreases s.len(),
{
    if s.len() > 0 && s.last() != c {
        lemma_rfind_char(s.drop_last(), c);
    }
}

/// `rfind_char` finds the last `c`: no `c` follows it, and it finds none only
/// when `s` holds no `c`.
pub proof fn lemma_rfind_char_last(s: Seq<char>, c: char)
    ensures
        rfind_char(s, c) matches Some(k) ==> forall|j: int| k < j < s.len() ==> s[j] != c,
        rfind_char(s, c) is None ==> forall|j: int| 0 <= j < s.len() ==> s[j] != c,
    decreases s.len(),
{
    if s.len() > 0 && s.last() != c {
        let d = s.drop_last();
        lemma_rfind_char_last(d, c);
        lemma_rfind_char(d, c);
        assert(rfind_char(s, c) == rfind_char(d, c));
        match rfind_char(d, c) {
            Some(k) => {
                assert forall|j: int| k < j < s.len() implies s[j] != c by {
                    if j < s.len() - 1 {
                        assert(s[j] == d[j]);
                    }
                }
            },
            None => {
                assert forall|j: int| 0 <= j < s.len() implies s[j] != c by {
                    if j < s.len() - 1 {
                        assert(s[j] == d[j]);
                    }
                }
            },
        }
    }
}

/// What `find_from` returns, in words: the least matching position at or after `i`.
pub proof fn lemma_find_from(s: Seq<char>, p: Seq<char>, i: nat)
    ensures
        match find_from(s, p, i) {
            Some(k) => i <= k && is_match_at(s, p, k) && forall|j: int|
                i <= j < k ==> !#[trigger] is_match_at(s, p, j),
            None => forall|j: int| i <= j ==> !#[trigger] is_match_at(s, p, j),
        },
    decreases s.len() + 1 - i,
{
    if i + p.len() > s.len() {
    } else if is_match_at(s, p, i as int) {
    } else {
        lemma_find_from(s, p, i + 1);
    }
}

/// `find` is `Some` exactly when `contains` holds.
pub proof fn lemma_find_contains(s: Seq<char>, p: Seq<char>)
    ensures
        find(s, p) is Some <==> contains(s, p),
        find(s, p) matches Some(k) ==> is_match_at(s, p, k),
{
    lemma_find_from(s, p, 0);
    if find(s, p) is None {
        assert forall|j: int| !is_match_at(s, p, j) by {
            if 0 <= j {
                assert(!is_match_at(s, p, j));
            }
        }
    }
}

/// Tests whether `p` occurs in `s` at position `i`.
pub fn match_at(s: &[char], p: &[char], i: usize) -> (r: bool)
    ensures
        r == is_match_at(s@, p@, i as int),
{
    if i > s.len() || p.len() > s.len() - i {
        return false;
    }
    let mut k: usize = 0;
    while k < p.len()
        invariant
            i + p@.len() <= s@.len(),
            p@.len() == p.len(),
            s@.len() == s.len(),
            k <= p@.len(),
            forall|j: int| 0 <= j < k ==> s@[i + j] == p@[j],
        decreases p.len() - k,
    {
        if s[i + k] != p[k] {
            assert(s@.subrange(i as int, i + p@.len())[k as int] != p@[k as int]);
            return false;
        }
        k += 1;
    }
    assert(s@.subrange(i as int, i + p@.len()) =~= p@);
    true
}

/// The first position at or after `from` where `p` occurs in `s`.
pub fn find_at_or_after(s: &[char], p: &[char], from: usize) -> (r: Option<usize>)
    ensures
        match r {
            Some(k) => find_from(s@, p@, from as nat) == Some(k as int),
            None => find_from(s@, p@, from as nat) is None,
        },
{
    let mut i = from;
    while i <= s.len() && p.len() <= s.len() - i
        invariant
            from <= i,
            find_from(s@, p@, from as nat) == find_from(s@, p@, i as nat),
        decreases s.len() + 1 - i,
    {
        if match_at(s, p, i) {
            return Some(i);
        }
        if i == s.len() {
            assert(find_from(s@, p@, (i + 1) as nat) is None);
            return None;
        }
        i += 1;
    }
    None
}

/// The first position where `p` occurs in `s`.
pub fn find_slice(s: &[char], p: &[char]) -> (r: Option<usize>)
    ensures
        match r {
            Some(k) => find(s@, p@) == Some(k as int),
            None => find(s@, p@) is None,
        },
{
    find_at_or_after(s, p, 0)
}

/// Whether `p` occurs in `s`.
pub fn contains_slice(s: &[char], p: &[char]) -> (r: bool)
    ensures
        r == contains(s@, p@),
{
    proof {
        lemma_find_contains(s@, p@);
    }
    find_slice(s, p).is_some()
}

/// Whether `s` begins with `p`.
pub fn starts_with_slice(s: &[char], p: &[char]) -> (r: bool)
    ensures
        r == starts_with(s@, p@),
{
    match_at(s, p, 0)
}

/// Whether `s` ends with `p`.
pub fn ends_with_slice(s: &[char], p: &[char]) -> (r: bool)
    ensures
        r == ends_with(s@, p@),
{
    if p.len() > s.len() {
        return false;
    }
    match_at(s, p, s.len() - p.len())
}

/// The last position of the character `c` in `s`.
pub fn rfind_char_slice(s: &[char], c: char) -> (r: Option<usize>)
    ensures
        match r {
            Some(k) => rfind_char(s@, c) == Some(k as int),
            None => rfind_char(s@, c) is None,
        },
{
    let mut i = s.len();
    assert(s@.take(i as int) =~= s@);
    while i > 0
        invariant
            i <= s@.len(),
            rfind_char(s@, c) == rfind_char(s@.take(i as int), c),
        decreases i,
    {
        assert(s@.take(i as int).drop_last() =~= s@.take(i - 1));
        if s[i - 1] == c {
            return Some(i - 1);
        }
        i -= 1;
    }
    None
}

// ---------------------------------------------------------------------------
// Strings from characters
// ---------------------------------------------------------------------------

/// Appends the characters `s[lo..hi]` to `out`.
pub fn push_chars(out: &mut String, s: &[char], lo: usize, hi: usize)
    requires
        lo <= hi <= s@.len(),
    ensures
        final(out)@ == old(out)@ + s@.subrange(lo as int, hi as int),
{
    let mut i = lo;
    while i < hi
        invariant
            lo <= i <= hi <= s@.len(),
            out@ == old(out)@ + s@.subrange(lo as int, i as int),
        decreases hi - i,
    {
        string_push(out, s[i]);
        assert(s@.subrange(lo as int, i + 1) =~= s@.subrange(lo as int, i as int).push(s@[i as int]));
        i += 1;
    }
}

/// A new `String` holding the characters `s[lo..hi]`.
pub fn string_of(s: &[char], lo: usize, hi: usize) -> (r: String)
    requires
        lo <= hi <= s@.len(),
    ensures
        r@ == s@.subrange(lo as int, hi as int),
{
    let mut out = String::new();
    push_chars(&mut out, s, lo, hi);
    assert(Seq::<char>::empty() + s@.subrange(lo as int, hi as int) =~= s@.subrange(lo as int, hi as int));
    out
}

/// The number of occurrences of the character `c` in `s`.
pub open spec fn count_char(s: Seq<char>, c: char) -> nat
    decreases s.len(),
{
    if s.len() == 0 {
        0
    } else {
        count_char(s.drop_last(), c) + if s.last() == c {
            1nat
        } else {
            0nat
        }
    }
}

/// Counts the occurrences of `c` in `s[lo..hi]`.
pub fn count_char_in(s: &[char], lo: usize, hi: usize, c: char) -> (r: usize)
    requires
        lo <= hi <= s@.len(),
    ensures
        r == count_char(s@.subrange(lo as int, hi as int), c),
        r <= hi - lo,
{
    let mut n: usize = 0;
    let mut i = lo;
    while i < hi
        invariant
            lo <= i <= hi <= s@.len(),
            n == count_char(s@.subrange(lo as int, i as int), c),
            n <= i - lo,
        decreases hi - i,
    {
        assert(s@.subrange(lo as int, i + 1).drop_last() =~= s@.subrange(lo as int, i as int));
        if s[i] == c {
            n += 1;
        }
        i += 1;
    }
    n
}

/// The texts of a sequence of strings.
pub open spec fn texts(v: Seq<String>) -> Seq<Seq<char>> {
    v.map_values(|x: String| x@)
}

// ---------------------------------------------------------------------------
// Lines and words
// ---------------------------------------------------------------------------

/// `l` without one trailing carriage return.
pub open spec fn strip_cr(l: Seq<char>) -> Seq<char> {
    if l.len() > 0 && l.last() == '\r' {
        l.drop_last()
    } else {
        l
    }
}

/// The lines of `s` (`str::lines`): split at each `\n`, a `\r` before the `\n`
/// removed, and no empty line after a final `\n`.
pub open spec fn lines(s: Seq<char>) -> Seq<Seq<char>>
    decreases s.len(),
{
    if s.len() == 0 {
        Seq::empty()
    } else {
        match find(s, seq!['\n']) {
            None => seq![s],
            Some(k) => {
                proof {
                    lemma_find_from(s, seq!['\n'], 0);
                }
                seq![strip_cr(s.take(k))] + lines(s.skip(k + 1))
            },
        }
    }
}

/// The texts of `s` between the bounds of each pair of `b`.
pub open spec fn texts_of(s: Seq<char>, b: Seq<(usize, usize)>) -> Seq<Seq<char>> {
    b.map_values(|p: (usize, usize)| s.subrange(p.0 as int, p.1 as int))
}

/// All bounds pairs of `b` are ordered and inside `s`.
pub open spec fn bounds_ok(s: Seq<char>, b: Seq<(usize, usize)>) -> bool {
    forall|i: int| 0 <= i < b.len() ==> #[trigger] b[i].0 <= b[i].1 && b[i].1 <= s.len()
}

/// Each pair of `b` ends before the next one begins.
pub open spec fn bounds_ordered(b: Seq<(usize, usize)>) -> bool {
    forall|i: int, j: int| 0 <= i < j < b.len() ==> b[i].1 <= b[j].0
}

/// The bounds of the lines of `s[lo..hi]`, as positions in `s`.
pub fn line_bounds(s: &[char], lo: usize, hi: usize) -> (r: Vec<(usize, usize)>)
    requires
        lo <= hi <= s@.len(),
    ensures
        bounds_ok(s@, r@),
        bounds_ordered(r@),
        texts_of(s@, r@) == lines(s@.subrange(lo as int, hi as int)),
{
    let mut r: Vec<(usize, usize)> = Vec::new();
    let mut pos = lo;
    let nl = ['\n'];
    while pos < hi
        invariant
            lo <= pos <= hi <= s@.len(),
            nl@ == seq!['\n'],
            bounds_ok(s@, r@),
            bounds_ordered(r@),
            forall|j: int| 0 <= j < r@.len() ==> #[trigger] r@[j].1 <= pos,
            texts_of(s@, r@) + lines(s@.subrange(pos as int, hi as int)) == lines(
                s@.subrange(lo as int, hi as int),
            ),
        decreases hi - pos,
    {
        let ghost rest = s@.subrange(pos as int, hi as int);
        let ghost old_r = r@;
        proof {
            lemma_find_from(rest, seq!['\n'], 0);
        }
        let found = find_at_or_after(&s[pos..hi], nl.as_slice(), 0);
        assert(s@.subrange(pos as int, hi as int) =~= s@.subrange(pos as int, hi as int));
        match found {
            None => {
                r.push((pos, hi));
                proof {
                    assert(texts_of(s@, r@) =~= texts_of(s@, old_r).push(rest));
                    assert(s@.subrange(hi as int, hi as int) =~= Seq::<char>::empty());
                    assert(lines(rest) == seq![rest]);
                }
                pos = hi;
            },
            Some(k) => {
                let end = if pos + k > pos && s[pos + k - 1] == '\r' {
                    pos + k - 1
                } else {
                    pos + k
                };
                r.push((pos, end));
                proof {
                    assert(rest.take(k as int) =~= s@.subrange(pos as int, pos + k));
                    assert(strip_cr(rest.take(k as int)) =~= s@.subrange(pos as int, end as int));
                    assert(rest.skip(k + 1) =~= s@.subrange(pos + k + 1, hi as int));
                    assert(texts_of(s@, r@) =~= texts_of(s@, old_r).push(
                        s@.subrange(pos as int, end as int),
                    ));
                    assert(lines(rest) == seq![strip_cr(rest.take(k as int))] + lines(rest.skip(k + 1)));
                }
                pos = pos + k + 1;
            },
        }
    }
    proof {
        assert(lines(s@.subrange(pos as int, hi as int)) =~= Seq::<Seq<char>>::empty());
        assert(texts_of(s@, r@) + Seq::<Seq<char>>::empty() =~= texts_of(s@, r@));
    }
    r
}

/// The number of leading characters of `t` that are not whitespace.
pub open spec fn word_len(t: Seq<char>) -> nat
    decreases t.len(),
{
    if t.len() > 0 && !is_white(t[0]) {
        1 + word_len(t.drop_first())
    } else {
        0
    }
}

pub proof fn lemma_trim_start_len(s: Seq<char>)
    ensures
        trim_start(s).len() <= s.len(),
        trim_start(s).len() > 0 ==> !is_white(trim_start(s)[0]),
    decreases s.len(),
{
    if s.len() > 0 && is_white(s[0]) {
        lemma_trim_start_len(s.drop_first());
    }
}

pub proof fn lemma_word_len(t: Seq<char>)
    ensures
        word_len(t) <= t.len(),
        forall|j: int| 0 <= j < word_len(t) ==> !is_white(#[trigger] t[j]),
        word_len(t) < t.len() ==> is_white(t[word_len(t) as int]),
    decreases t.len(),
{
    if t.len() > 0 && !is_white(t[0]) {
        lemma_word_len(t.drop_first());
        assert forall|j: int| 0 <= j < word_len(t) implies !is_white(#[trigger] t[j]) by {
            if j > 0 {
                assert(t[j] == t.drop_first()[j - 1]);
            }
        }
    }
}

/// The whitespace-separated words of `s` (`str::split_whitespace`).
pub open spec fn words(s: Seq<char>) -> Seq<Seq<char>>
    decreases s.len(),
{
    let t = trim_start(s);
    if t.len() == 0 {
        Seq::empty()
    } else {
        proof {
            lemma_trim_start_len(s);
            lemma_word_len(t);
        }
        seq![t.take(word_len(t) as int)] + words(t.skip(word_len(t) as int))
    }
}

pub proof fn lemma_trim_start_is_skip(s: Seq<char>) -> (k: int)
    ensures
        0 <= k <= s.len(),
        trim_start(s) == s.skip(k),
        forall|j: int| 0 <= j < k ==> is_white(#[trigger] s[j]),
        k < s.len() ==> !is_white(s[k]),
    decreases s.len(),
{
    if s.len() > 0 && is_white(s[0]) {
        let k1 = lemma_trim_start_is_skip(s.drop_first());
        assert(s.drop_first().skip(k1) =~= s.skip(k1 + 1));
        assert forall|j: int| 0 <= j < k1 + 1 implies is_white(#[trigger] s[j]) by {
            if j > 0 {
                assert(s[j] == s.drop_first()[j - 1]);
            }
        }
        k1 + 1
    } else {
        assert(s.skip(0) =~= s);
        0
    }
}

proof fn lemma_word_len_exact(t: Seq<char>, k: int)
    requires
        0 <= k <= t.len(),
        forall|j: int| 0 <= j < k ==> !is_white(#[trigger] t[j]),
        k < t.len() ==> is_white(t[k]),
    ensures
        word_len(t) == k,
    decreases t.len(),
{
    if k > 0 {
        assert forall|j: int| 0 <= j < k - 1 implies !is_white(#[trigger] t.drop_first()[j]) by {
            assert(t.drop_first()[j] == t[j + 1]);
        }
        lemma_word_len_exact(t.drop_first(), k - 1);
    }
}

/// The bounds of the whitespace-separated words of `s[lo..hi]`, as positions in `s`.
pub fn word_bounds(s: &[char], lo: usize, hi: usize) -> (r: Vec<(usize, usize)>)
    requires
        lo <= hi <= s@.len(),
    ensures
        bounds_ok(s@, r@),
        texts_of(s@, r@) == words(s@.subrange(lo as int, hi as int)),
{
    let mut r: Vec<(usize, usize)> = Vec::new();
    let mut pos = lo;
    loop
        invariant
            lo <= pos <= hi <= s@.len(),
            bounds_ok(s@, r@),
            texts_of(s@, r@) + words(s@.subrange(pos as int, hi as int)) == words(
                s@.subrange(lo as int, hi as int),
            ),
        decreases hi - pos,
    {
        let ghost rest = s@.subrange(pos as int, hi as int);
        let ghost old_r = r@;
        let mut a = pos;
        while a < hi && is_whitespace(s[a])
            invariant
                pos <= a <= hi <= s@.len(),
                forall|j: int| pos <= j < a ==> is_white(#[trigger] s@[j]),
            decreases hi - a,
        {
            a += 1;
        }
        proof {
            let k = lemma_trim_start_is_skip(rest);
            if k < a - pos {
                assert(rest[k] == s@[pos + k]);
            }
            if a - pos < k {
                assert(rest[a - pos] == s@[a as int]);
            }
            assert(k == a - pos);
            assert(trim_start(rest) =~= s@.subrange(a as int, hi as int));
        }
        if a == hi {
            proof {
                assert(words(rest) =~= Seq::<Seq<char>>::empty());
                assert(texts_of(s@, r@) + Seq::<Seq<char>>::empty() =~= texts_of(s@, r@));
            }
            return r;
        }
        let mut b = a;
        while b < hi && !is_whitespace(s[b])
            invariant
                a <= b <= hi <= s@.len(),
                forall|j: int| a <= j < b ==> !is_white(#[trigger] s@[j]),
            decreases hi - b,
        {
            b += 1;
        }
        r.push((a, b));
        proof {
            assert forall|i: int| 0 <= i < r@.len() implies #[trigger] r@[i].0 <= r@[i].1 && r@[i].1
                <= s@.len() by {
                if i < old_r.len() {
                    assert(r@[i] == old_r[i]);
                }
            }
            let t = s@.subrange(a as int, hi as int);
            assert forall|j: int| 0 <= j < b - a implies !is_white(#[trigger] t[j]) by {
                assert(t[j] == s@[a + j]);
            }
            if b < hi {
                assert(t[b - a] == s@[b as int]);
            }
            lemma_word_len_exact(t, b - a);
            assert(t.take(b - a) =~= s@.subrange(a as int, b as int));
            assert(t.skip(b - a) =~= s@.subrange(b as int, hi as int));
            assert(texts_of(s@, r@) =~= texts_of(s@, old_r).push(s@.subrange(a as int, b as int)));
        }
        pos = b;
    }
}

/// `s` with every leading repetition of the non-empty prefix `p` removed (`str::trim_start_matches`).
pub open spec fn trim_start_matches(s: Seq<char>, p: Seq<char>) -> Seq<char>
    decreases s.len(),
{
    if p.len() > 0 && starts_with(s, p) {
        trim_start_matches(s.skip(p.len() as int), p)
    } else {
        s
    }
}

/// Removes every leading repetition of `p` from `s[lo..hi]` and returns the new start.
pub fn trim_start_matches_at(s: &[char], p: &[char], lo: usize, hi: usize) -> (r: usize)
    requires
        lo <= hi <= s@.len(),
    ensures
        lo <= r <= hi,
        s@.subrange(r as int, hi as int) == trim_start_matches(s@.subrange(lo as int, hi as int), p@),
{
    let mut a = lo;
    while p.len() > 0 && starts_with_slice(&s[a..hi], p)
        invariant
            lo <= a <= hi <= s@.len(),
            trim_start_matches(s@.subrange(a as int, hi as int), p@) == trim_start_matches(
                s@.subrange(lo as int, hi as int),
                p@,
            ),
        decreases hi - a,
    {
        assert(s@.subrange(a as int, hi as int).skip(p@.len() as int) =~= s@.subrange(
            a + p@.len(),
            hi as int,
        ));
        a = a + p.len();
    }
    a
}

/// `s` with every trailing repetition of the non-empty suffix `p` removed (`str::trim_end_matches`).
pub open spec fn trim_end_matches(s: Seq<char>, p: Seq<char>) -> Seq<char>
    decreases s.len(),
{
    if p.len() > 0 && ends_with(s, p) {
        trim_end_matches(s.take(s.len() - p.len()), p)
    } else {
        s
    }
}

/// Removes every trailing repetition of `p` from `s[lo..hi]` and returns the new end.
pub fn trim_end_matches_at(s: &[char], p: &[char], lo: usize, hi: usize) -> (r: usize)
    requires
        lo <= hi <= s@.len(),
    ensures
        lo <= r <= hi,
        s@.subrange(lo as int, r as int) == trim_end_matches(s@.subrange(lo as int, hi as int), p@),
{
    let mut e = hi;
    while p.len() > 0 && ends_with_slice(&s[lo..e], p)
        invariant
            lo <= e <= hi <= s@.len(),
            trim_end_matches(s@.subrange(lo as int, e as int), p@) == trim_end_matches(
                s@.subrange(lo as int, hi as int),
                p@,
            ),
        decreases e,
    {
        assert(s@.subrange(lo as int, e as int).take(e - lo - p@.len()) =~= s@.subrange(
            lo as int,
            e - p@.len(),
        ));
        e = e - p.len();
    }
    e
}

/// The number of bytes of the UTF-8 encoding of `c` (`char::len_utf8`).
pub open spec fn char_utf8_len(c: char) -> nat {
    if (c as u32) < 0x80 {
        1
    } else if (c as u32) < 0x800 {
        2
    } else if (c as u32) < 0x10000 {
        3
    } else {
        4
    }
}

/// The number of bytes of the UTF-8 encoding of `s` (`str::len`).
pub open spec fn utf8_len(s: Seq<char>) -> nat
    decreases s.len(),
{
    if s.len() == 0 {
        0
    } else {
        utf8_len(s.drop_last()) + char_utf8_len(s.last())
    }
}

/// The number of bytes of the UTF-8 encoding of `c`.
pub fn len_utf8(c: char) -> (r: usize)
    ensures
        r == char_utf8_len(c),
{
    if (c as u32) < 0x80 {
        1
    } else if (c as u32) < 0x800 {
        2
    } else if (c as u32) < 0x10000 {
        3
    } else {
        4
    }
}

// ---------------------------------------------------------------------------
// Tests on `str`
// ---------------------------------------------------------------------------

/// Whether `s` ends with `p`.
pub fn str_ends_with(s: &str, p: &str) -> (r: bool)
    ensures
        r == ends_with(s@, p@),
{
    let a = str_chars(s);
    let b = str_chars(p);
    ends_with_slice(a.as_slice(), b.as_slice())
}

/// Whether `s` begins with `p`.
pub fn str_starts_with(s: &str, p: &str) -> (r: bool)
    ensures
        r == starts_with(s@, p@),
{
    let a = str_chars(s);
    let b = str_chars(p);
    starts_with_slice(a.as_slice(), b.as_slice())
}

/// Whether `p` occurs in `s`.
pub fn str_contains(s: &str, p: &str) -> (r: bool)
    ensures
        r == contains(s@, p@),
{
    let a = str_chars(s);
    let b = str_chars(p);
    contains_slice(a.as_slice(), b.as_slice())
}

/// Whether `a` and `b` hold the same text.
pub fn str_eq(a: &str, b: &str) -> (r: bool)
    ensures
        r == (a@ == b@),
{
    let x = str_chars(a);
    let y = str_chars(b);
    if x.len() != y.len() {
        return false;
    }
    let r = match_at(x.as_slice(), y.as_slice(), 0);
    assert(x@.subrange(0, y@.len() as int) =~= x@);
    r
}

/// Whether `s` is empty.
pub fn str_is_empty(s: &str) -> (r: bool)
    ensures
        r == (s@.len() == 0),
{
    s.unicode_len() == 0
}

// ---------------------------------------------------------------------------
// Replacing
// ---------------------------------------------------------------------------

/// Writes after `out` the text `s[i..]` with every occurrence of `from` (found left to
/// right, without overlap) replaced by `to`.
pub open spec fn put_replaced(out: Seq<char>, s: Seq<char>, from: Seq<char>, to: Seq<char>, i: nat) -> Seq<char>
    decreases s.len() + 1 - i,
    when from.len() > 0
{
    match find_from(s, from, i) {
        None => out + s.subrange(i as int, s.len() as int),
        Some(k) => {
            proof {
                lemma_find_from(s, from, i);
            }
            put_replaced(out + s.subrange(i as int, k) + to, s, from, to, (k + from.len()) as nat)
        },
    }
}

/// Replacing a text by itself writes the rest of `s` unchanged.
pub proof fn lemma_replace_by_itself(out: Seq<char>, s: Seq<char>, p: Seq<char>, i: nat)
    requires
        p.len() > 0,
        i <= s.len(),
    ensures
        put_replaced(out, s, p, p, i) == out + s.subrange(i as int, s.len() as int),
    decreases s.len() + 1 - i,
{
    lemma_find_from(s, p, i);
    match find_from(s, p, i) {
        None => {},
        Some(k) => {
            let next = out + s.subrange(i as int, k) + p;
            lemma_replace_by_itself(next, s, p, (k + p.len()) as nat);
            assert(next + s.subrange(k + p.len(), s.len() as int) =~= out + s.subrange(i as int, s.len() as int));
        },
    }
}

/// `s` with every occurrence of `from` replaced by `to` (`str::replace`, for a non-empty `from`).
pub open spec fn replace_all(s: Seq<char>, from: Seq<char>, to: Seq<char>) -> Seq<char> {
    put_replaced(Seq::empty(), s, from, to, 0)
}

/// Appends to `out` the text `s` with every occurrence of `from` replaced by `to`.
pub fn push_replaced(out: &mut String, s: &[char], from: &[char], to: &str)
    requires
        from@.len() > 0,
    ensures
        final(out)@ == put_replaced(old(out)@, s@, from@, to@, 0),
{
    let mut i: usize = 0;
    loop
        invariant
            from@.len() > 0,
            i <= s@.len(),
            put_replaced(out@, s@, from@, to@, i as nat) == put_replaced(
                old(out)@,
                s@,
                from@,
                to@,
                0,
            ),
        decreases s.len() + 1 - i,
    {
        proof {
            lemma_find_from(s@, from@, i as nat);
        }
        match find_at_or_after(s, from, i) {
            None => {
                push_chars(out, s, i, s.len());
                return;
            },
            Some(k) => {
                push_chars(out, s, i, k);
                out.append(to);
                i = k + from.len();
            },
        }
    }
}

/// `s` with every occurrence of `from` replaced by `to`.
pub fn replace_str(s: &str, from: &str, to: &str) -> (r: String)
    requires
        from@.len() > 0,
    ensures
        r@ == replace_all(s@, from@, to@),
{
    let sc = str_chars(s);
    let fc = str_chars(from);
    let mut out = String::new();
    push_replaced(&mut out, sc.as_slice(), fc.as_slice(), to);
    out
}

// ---------------------------------------------------------------------------
// Trimming
// ---------------------------------------------------------------------------

/// `s` without its leading whitespace (`str::trim_start`).
pub open spec fn trim_start(s: Seq<char>) -> Seq<char>
    decreases s.len(),
{
    if s.len() > 0 && is_white(s[0]) {
        trim_start(s.drop_first())
    } else {
        s
    }
}

/// `s` without its trailing whitespace (`str::trim_end`).
pub open spec fn trim_end(s: Seq<char>) -> Seq<char>
    decreases s.len(),
{
    if s.len() > 0 && is_white(s.last()) {
        trim_end(s.drop_last())
    } else {
        s
    }
}

/// `s` without leading and trailing whitespace (`str::trim`).
pub open spec fn trim(s: Seq<char>) -> Seq<char> {
    trim_end(trim_start(s))
}

proof fn lemma_trim_start_skip(s: Seq<char>, k: int)
    requires
        0 <= k <= s.len(),
        forall|j: int| 0 <= j < k ==> is_white(#[trigger] s[j]),
    ensures
        trim_start(s) == trim_start(s.skip(k)),
    decreases k,
{
    if k > 0 {
        assert(s.drop_first().skip(k - 1) =~= s.skip(k));
        lemma_trim_start_skip(s.drop_first(), k - 1);
    } else {
        assert(s.skip(0) =~= s);
    }
}

proof fn lemma_trim_end_take(s: Seq<char>, k: int)
    requires
        0 <= k <= s.len(),
        forall|j: int| k <= j < s.len() ==> is_white(#[trigger] s[j]),
    ensures
        trim_end(s) == trim_end(s.take(k)),
    decreases s.len() - k,
{
    if k < s.len() {
        assert(s.drop_last().take(k) =~= s.take(k));
        lemma_trim_end_take(s.drop_last(), k);
    } else {
        assert(s.take(k) =~= s);
    }
}

/// The bounds of `s` once leading and trailing whitespace are removed.
pub fn trim_bounds(s: &[char], lo: usize, hi: usize) -> (r: (usize, usize))
    requires
        lo <= hi <= s@.len(),
    ensures
        lo <= r.0 <= r.1 <= hi,
        s@.subrange(r.0 as int, r.1 as int) == trim(s@.subrange(lo as int, hi as int)),
{
    let ghost t = s@.subrange(lo as int, hi as int);
    let mut a = lo;
    while a < hi && is_whitespace(s[a])
        invariant
            lo <= a <= hi <= s@.len(),
            t == s@.subrange(lo as int, hi as int),
            forall|j: int| lo <= j < a ==> is_white(#[trigger] s@[j]),
        decreases hi - a,
    {
        a += 1;
    }
    proof {
        assert forall|j: int| 0 <= j < a - lo implies is_white(#[trigger] t[j]) by {
            assert(t[j] == s@[lo + j]);
        }
        lemma_trim_start_skip(t, a - lo);
        assert(t.skip(a - lo) =~= s@.subrange(a as int, hi as int));
        let u = s@.subrange(a as int, hi as int);
        assert(u.len() == 0 || !is_white(u[0]));
        assert(trim_start(u) == u);
    }
    let mut b = hi;
    while b > a && is_whitespace(s[b - 1])
        invariant
            lo <= a <= b <= hi <= s@.len(),
            forall|j: int| b <= j < hi ==> is_white(#[trigger] s@[j]),
        decreases b - a,
    {
        b -= 1;
    }
    proof {
        let u = s@.subrange(a as int, hi as int);
        assert forall|j: int| b - a <= j < u.len() implies is_white(#[trigger] u[j]) by {
            assert(u[j] == s@[a + j]);
        }
        lemma_trim_end_take(u, b - a);
        assert(u.take(b - a) =~= s@.subrange(a as int, b as int));
        let w = s@.subrange(a as int, b as int);
        assert(w.len() == 0 || !is_white(w.last()));
    }
    (a, b)
}

// ---------------------------------------------------------------------------
// Folding text over sequences of items
// ---------------------------------------------------------------------------

/// Writes every item of `items`, in order, after `out`, each by `f`.
pub open spec fn fold_put<A>(out: Seq<char>, items: Seq<A>, f: spec_fn(Seq<char>, A) -> Seq<char>) -> Seq<char>
    decreases items.len(),
{
    if items.len() == 0 {
        out
    } else {
        fold_put(f(out, items[0]), items.drop_first(), f)
    }
}

/// One step of a loop that writes `items[i]`.
pub proof fn lemma_fold_put_step<A>(out: Seq<char>, items: Seq<A>, i: int, f: spec_fn(Seq<char>, A) -> Seq<char>)
    requires
        0 <= i < items.len(),
    ensures
        fold_put(f(out, items[i]), items.skip(i + 1), f) == fold_put(out, items.skip(i), f),
{
    assert(items.skip(i).drop_first() =~= items.skip(i + 1));
}

/// The start and the end of a loop over all of `items`.
pub proof fn lemma_fold_put_ends<A>(out: Seq<char>, items: Seq<A>, f: spec_fn(Seq<char>, A) -> Seq<char>)
    ensures
        items.skip(0) == items,
        fold_put(out, items.skip(items.len() as int), f) == out,
{
    assert(items.skip(0) =~= items);
    assert(items.skip(items.len() as int) =~= Seq::<A>::empty());
}


/// `c` begins with `a`: every character of `a` is at its place in `c`.
#[verifier::opaque]
pub open spec fn keeps(a: Seq<char>, c: Seq<char>) -> bool {
    &&& a.len() <= c.len()
    &&& forall|i: int| 0 <= i < a.len() ==> #[trigger] c[i] == a[i]
}

/// Writing with `f` only appends: it keeps what was written before.
pub open spec fn extends<A>(f: spec_fn(Seq<char>, A) -> Seq<char>) -> bool {
    forall|o: Seq<char>, x: A| #[trigger] keeps(o, f(o, x))
}

/// A loop that only appends keeps what was written before it.
pub proof fn lemma_fold_put_keeps<A>(out: Seq<char>, items: Seq<A>, f: spec_fn(Seq<char>, A) -> Seq<char>)
    requires
        extends(f),
    ensures
        keeps(out, fold_put(out, items, f)),
    decreases items.len(),
{
    if items.len() > 0 {
        let o1 = f(out, items[0]);
        assert(keeps(out, o1));
        lemma_fold_put_keeps(o1, items.drop_first(), f);
        lemma_keeps_trans(out, o1, fold_put(out, items, f));
    } else {
        lemma_keeps_refl(out);
    }
}

/// Every text begins with itself.
pub proof fn lemma_keeps_refl(a: Seq<char>)
    ensures
        keeps(a, a),
{
    reveal(keeps);
}

/// A text begins with every text it extends.
pub proof fn lemma_keeps_add(a: Seq<char>, x: Seq<char>)
    ensures
        keeps(a, a + x),
{
    reveal(keeps);
}

/// Beginning with a text is transitive.
pub proof fn lemma_keeps_trans(a: Seq<char>, b: Seq<char>, c: Seq<char>)
    requires
        keeps(a, b),
        keeps(b, c),
    ensures
        keeps(a, c),
{
    reveal(keeps);
    assert forall|i: int| 0 <= i < a.len() implies #[trigger] c[i] == a[i] by {
        assert(c[i] == b[i]);
    }
}

/// A text is at least as long as a text it begins with.
pub proof fn lemma_keeps_len(a: Seq<char>, c: Seq<char>)
    requires
        keeps(a, c),
    ensures
        a.len() <= c.len(),
{
    reveal(keeps);
}

/// Cutting `k` characters off the end of a text keeps a beginning that is short enough.
pub proof fn lemma_keeps_take(a: Seq<char>, c: Seq<char>, k: int)
    requires
        keeps(a, c),
        0 <= k,
        a.len() + k <= c.len(),
    ensures
        keeps(a, c.take(c.len() - k)),
{
    reveal(keeps);
}

/// `lemma_fold_put_keeps` for every start and every sequence of items.
pub proof fn lemma_fold_put_keeps_all<A>(f: spec_fn(Seq<char>, A) -> Seq<char>)
    requires
        extends(f),
    ensures
        forall|out: Seq<char>, items: Seq<A>| keeps(out, #[trigger] fold_put(out, items, f)),
{
    assert forall|out: Seq<char>, items: Seq<A>| keeps(out, #[trigger] fold_put(out, items, f)) by {
        lemma_fold_put_keeps(out, items, f);
    }
}

/// A text that keeps `a` at its start starts with `a`.
pub proof fn lemma_keeps_starts_with(a: Seq<char>, c: Seq<char>)
    requires
        keeps(a, c),
    ensures
        starts_with(c, a),
{
    reveal(keeps);
    assert(c.subrange(0, a.len() as int) =~= a);
}


/// What occurs within a beginning of a text occurs in the text, at the same place.
pub proof fn lemma_keeps_match(a: Seq<char>, c: Seq<char>, p: Seq<char>, k: int)
    requires
        keeps(a, c),
        is_match_at(a, p, k),
    ensures
        is_match_at(c, p, k),
{
    reveal(keeps);
    assert(c.subrange(k, k + p.len()) =~= a.subrange(k, k + p.len()));
}


/// What occurs in a beginning of a text occurs in the text.
pub proof fn lemma_contains_keeps(a: Seq<char>, c: Seq<char>, p: Seq<char>)
    requires
        contains(a, p),
        keeps(a, c),
    ensures
        contains(c, p),
{
    let k = choose|k: int| is_match_at(a, p, k);
    lemma_keeps_match(a, c, p, k);
}

/// When writing the item `items[k]` always writes `p`, a loop that only appends
/// writes `p`.
pub proof fn lemma_fold_put_contains<A>(
    out: Seq<char>,
    items: Seq<A>,
    f: spec_fn(Seq<char>, A) -> Seq<char>,
    k: int,
    p: Seq<char>,
)
    requires
        extends(f),
        0 <= k < items.len(),
        forall|o: Seq<char>| #[trigger] contains(f(o, items[k]), p),
    ensures
        contains(fold_put(out, items, f), p),
    decreases items.len(),
{
    let o1 = f(out, items[0]);
    if k == 0 {
        assert(contains(f(out, items[k]), p));
        lemma_fold_put_keeps(o1, items.drop_first(), f);
        lemma_contains_keeps(o1, fold_put(o1, items.drop_first(), f), p);
    } else {
        assert(items.drop_first()[k - 1] == items[k]);
        lemma_fold_put_contains(o1, items.drop_first(), f, k - 1, p);
    }
}


/// A text that does not start with the first character of `p` holds `p` exactly
/// when its rest does.
pub proof fn lemma_contains_drop_first(s: Seq<char>, p: Seq<char>)
    requires
        s.len() > 0,
        p.len() > 0,
        s[0] != p[0],
    ensures
        contains(s, p) == contains(s.drop_first(), p),
{
    let d = s.drop_first();
    if contains(s, p) {
        let k = choose|k: int| is_match_at(s, p, k);
        if k == 0 {
            assert(s.subrange(0, p.len() as int)[0] == s[0]);
        }
        assert(d.subrange(k - 1, k - 1 + p.len()) =~= s.subrange(k, k + p.len()));
        assert(is_match_at(d, p, k - 1));
    }
    if contains(d, p) {
        let k = choose|k: int| is_match_at(d, p, k);
        assert(d.subrange(k, k + p.len()) =~= s.subrange(k + 1, k + 1 + p.len()));
        assert(is_match_at(s, p, k + 1));
    }
}

/// A text that does not end with the last character of `p` holds `p` exactly
/// when it does without its last character.
pub proof fn lemma_contains_drop_last(s: Seq<char>, p: Seq<char>)
    requires
        s.len() > 0,
        p.len() > 0,
        s.last() != p.last(),
    ensures
        contains(s, p) == contains(s.drop_last(), p),
{
    let d = s.drop_last();
    if contains(s, p) {
        let k = choose|k: int| is_match_at(s, p, k);
        if k + p.len() == s.len() {
            assert(s.subrange(k, k + p.len())[p.len() - 1] == s.last());
        }
        assert(d.subrange(k, k + p.len()) =~= s.subrange(k, k + p.len()));
        assert(is_match_at(d, p, k));
    }
    if contains(d, p) {
        let k = choose|k: int| is_match_at(d, p, k);
        assert(d.subrange(k, k + p.len()) =~= s.subrange(k, k + p.len()));
        assert(is_match_at(s, p, k));
    }
}

/// Trimming whitespace does not change whether a text holds a pattern that
/// begins and ends with characters other than whitespace.
pub proof fn lemma_contains_trim(s: Seq<char>, p: Seq<char>)
    requires
        p.len() > 0,
        !is_white(p[0]),
        !is_white(p.last()),
    ensures
        contains(trim(s), p) == contains(s, p),
{
    lemma_contains_trim_start(s, p);
    lemma_contains_trim_end(trim_start(s), p);
}

proof fn lemma_contains_trim_start(s: Seq<char>, p: Seq<char>)
    requires
        p.len() > 0,
        !is_white(p[0]),
    ensures
        contains(trim_start(s), p) == contains(s, p),
    decreases s.len(),
{
    if s.len() > 0 && is_white(s[0]) {
        lemma_contains_drop_first(s, p);
        lemma_contains_trim_start(s.drop_first(), p);
    }
}

proof fn lemma_contains_trim_end(s: Seq<char>, p: Seq<char>)
    requires
        p.len() > 0,
        !is_white(p.last()),
    ensures
        contains(trim_end(s), p) == contains(s, p),
    decreases s.len(),
{
    if s.len() > 0 && is_white(s.last()) {
        lemma_contains_drop_last(s, p);
        lemma_contains_trim_end(s.drop_last(), p);
    }
}


// ---------------------------------------------------------------------------
// Occurrences across line breaks
// ---------------------------------------------------------------------------

/// The character `c` does not occur in `s`.
pub open spec fn lacks_char(s: Seq<char>, c: char) -> bool {
    forall|i: int| 0 <= i < s.len() ==> s[i] != c
}

/// `s` ends with a line break.
pub open spec fn ends_line(s: Seq<char>) -> bool {
    s.len() > 0 && s.last() == '\n'
}

/// `p` occurs in `s` at exactly one place.
pub open spec fn occurs_once(s: Seq<char>, p: Seq<char>) -> bool {
    exists|i: int| #[trigger] is_match_at(s, p, i) && forall|j: int| #[trigger] is_match_at(s, p, j) ==> j == i
}

/// A text that lacks a character of `p` does not hold `p`.
pub proof fn lemma_lacks_char_no_match(s: Seq<char>, p: Seq<char>, j: int)
    requires
        0 <= j < p.len(),
        lacks_char(s, p[j]),
    ensures
        !contains(s, p),
{
    if contains(s, p) {
        let k = choose|k: int| is_match_at(s, p, k);
        assert(s.subrange(k, k + p.len())[j] == s[k + j]);
    }
}

/// Where `p` holds no line break and `a` ends with one, `a + b` holds `p` exactly
/// at the places where `a` holds it and where `b` holds it.
pub proof fn lemma_match_across_line(a: Seq<char>, b: Seq<char>, p: Seq<char>, k: int)
    requires
        ends_line(a),
        lacks_char(p, '\n'),
    ensures
        is_match_at(a + b, p, k) == (is_match_at(a, p, k) || is_match_at(b, p, k - a.len())),
{
    let s = a + b;
    if is_match_at(s, p, k) {
        if k + p.len() <= a.len() {
            assert(a.subrange(k, k + p.len()) =~= s.subrange(k, k + p.len()));
        } else if k >= a.len() {
            assert(b.subrange(k - a.len(), k - a.len() + p.len()) =~= s.subrange(k, k + p.len()));
        } else {
            assert(s.subrange(k, k + p.len())[a.len() - 1 - k] == s[a.len() - 1]);
            assert(p[a.len() - 1 - k] == '\n');
        }
    }
    if is_match_at(a, p, k) {
        assert(a.subrange(k, k + p.len()) =~= s.subrange(k, k + p.len()));
    }
    if is_match_at(b, p, k - a.len()) {
        assert(b.subrange(k - a.len(), k - a.len() + p.len()) =~= s.subrange(k, k + p.len()));
    }
}

/// Where `p` holds no line break and `a` ends with one, `a + b` holds `p` exactly
/// when `a` or `b` does.
pub proof fn lemma_contains_across_line(a: Seq<char>, b: Seq<char>, p: Seq<char>)
    requires
        ends_line(a),
        lacks_char(p, '\n'),
    ensures
        contains(a + b, p) == (contains(a, p) || contains(b, p)),
{
    if contains(a + b, p) {
        let k = choose|k: int| is_match_at(a + b, p, k);
        lemma_match_across_line(a, b, p, k);
        if !is_match_at(a, p, k) {
            assert(is_match_at(b, p, k - a.len()));
        }
    }
    if contains(a, p) {
        let k = choose|k: int| is_match_at(a, p, k);
        lemma_match_across_line(a, b, p, k);
    }
    if contains(b, p) {
        let k = choose|k: int| is_match_at(b, p, k);
        lemma_match_across_line(a, b, p, k + a.len());
        assert(k + a.len() - a.len() == k);
    }
}

/// Where `p` holds no line break and `a` ends with one, `a + b` holds `p` at exactly
/// one place when one of `a` and `b` does and the other does not hold it.
pub proof fn lemma_once_across_line(a: Seq<char>, b: Seq<char>, p: Seq<char>)
    requires
        ends_line(a),
        lacks_char(p, '\n'),
        (occurs_once(a, p) && !contains(b, p)) || (!contains(a, p) && occurs_once(b, p)),
    ensures
        occurs_once(a + b, p),
{
    if occurs_once(a, p) && !contains(b, p) {
        let i = choose|i: int| #[trigger] is_match_at(a, p, i) && forall|j: int| #[trigger] is_match_at(a, p, j) ==> j == i;
        lemma_match_across_line(a, b, p, i);
        assert forall|j: int| #[trigger] is_match_at(a + b, p, j) implies j == i by {
            lemma_match_across_line(a, b, p, j);
            if !is_match_at(a, p, j) {
                assert(is_match_at(b, p, j - a.len()));
            }
        }
        assert(is_match_at(a + b, p, i));
    } else {
        let i = choose|i: int| #[trigger] is_match_at(b, p, i) && forall|j: int| #[trigger] is_match_at(b, p, j) ==> j == i;
        lemma_match_across_line(a, b, p, i + a.len());
        assert(i + a.len() - a.len() == i);
        assert forall|j: int| #[trigger] is_match_at(a + b, p, j) implies j == i + a.len() by {
            lemma_match_across_line(a, b, p, j);
            if !is_match_at(b, p, j - a.len()) {
                assert(is_match_at(a, p, j));
            }
        }
        assert(is_match_at(a + b, p, i + a.len()));
    }
}

/// A text that is `p` followed by a line break, where `p` holds none, holds `p`
/// at exactly one place.
pub proof fn lemma_line_occurs_once(p: Seq<char>)
    requires
        p.len() > 0,
        lacks_char(p, '\n'),
    ensures
        occurs_once(p.push('\n'), p),
{
    let s = p.push('\n');
    assert(s.subrange(0, p.len() as int) =~= p);
    assert(is_match_at(s, p, 0));
    assert forall|j: int| #[trigger] is_match_at(s, p, j) implies j == 0 by {
        if j != 0 {
            assert(j == 1);
            assert(s.subrange(j, j + p.len())[p.len() - 1] == s[p.len() as int]);
            assert(p[p.len() - 1] != '\n');
        }
    }
}

/// Appending with `f`, which always ends its text with a line break, to a text that
/// ends with one gives a text that ends with one.
pub proof fn lemma_fold_put_ends_line<A>(out: Seq<char>, items: Seq<A>, f: spec_fn(Seq<char>, A) -> Seq<char>)
    requires
        ends_line(out),
        forall|o: Seq<char>, x: A| #[trigger] ends_line(f(o, x)),
    ensures
        ends_line(fold_put(out, items, f)),
    decreases items.len(),
{
    if items.len() > 0 {
        assert(ends_line(f(out, items[0])));
        lemma_fold_put_ends_line(f(out, items[0]), items.drop_first(), f);
    }
}

} // verus!
