//! Character-level helpers on strings: comparison, prefixes and suffixes,
//! search, whitespace splitting and trimming, placeholder substitution.
//!
//! Every contract is stated over the view of a string, a `Seq<char>`.

use vstd::prelude::*;
use vstd::string::*;
use vstd::utf8::*;

verus! {

/// The views of a sequence of strings, element by element.
pub open spec fn views(v: Seq<String>) -> Seq<Seq<char>> {
    v.map_values(|s: String| s@)
}

/// The characters of `s`, in order.
pub fn chars_of(s: &str) -> (v: Vec<char>)
    ensures
        v@ == s@,
{
    let mut v: Vec<char> = Vec::new();
    for c in it: s.chars()
        invariant
            v@ == it.seq().take(it.index()),
            it.seq() == s@,
    {
        v.push(c);
    }
    v
}

/// Whether two strings hold the same characters.
pub fn str_eq(a: &str, b: &str) -> (r: bool)
    ensures
        r == (a@ == b@),
{
    let x = chars_of(a);
    let y = chars_of(b);
    if x.len() != y.len() {
        return false;
    }
    let mut i: usize = 0;
    while i < x.len()
        invariant
            x@ == a@,
            y@ == b@,
            x.len() == y.len(),
            i <= x.len(),
            forall|k: int| 0 <= k < i ==> x@[k] == y@[k],
        decreases x.len() - i,
    {
        if x[i] != y[i] {
            return false;
        }
        i += 1;
    }
    assert(x@ =~= y@);
    true
}

/// The characters of `s` from index `from` up to, not including, index `to`.
pub(crate) fn substring(s: &str, from: usize, to: usize) -> (r: String)
    requires
        from <= to <= s@.len(),
    ensures
        r@ == s@.subrange(from as int, to as int),
{
    s.substring_char(from, to).to_owned()
}

/// `s` without the prefix `p`, where it starts with `p`.
pub open spec fn strip_prefix(s: Seq<char>, p: Seq<char>) -> Option<Seq<char>> {
    if p.is_prefix_of(s) {
        Some(s.skip(p.len() as int))
    } else {
        None
    }
}

/// `s` without the suffix `p`, where it ends with `p`.
pub open spec fn strip_suffix(s: Seq<char>, p: Seq<char>) -> Option<Seq<char>> {
    if p.is_suffix_of(s) {
        Some(s.take(s.len() - p.len()))
    } else {
        None
    }
}

/// `pat` occurs in `s` at index `i`.
pub open spec fn occurs_at(s: Seq<char>, pat: Seq<char>, i: int) -> bool {
    0 <= i && i + pat.len() <= s.len() && s.subrange(i, i + pat.len()) == pat
}

/// `i` is the index of the first occurrence of `pat` in `s`.
pub open spec fn is_first_match(s: Seq<char>, pat: Seq<char>, i: int) -> bool {
    occurs_at(s, pat, i) && forall|j: int| 0 <= j < i ==> !occurs_at(s, pat, j)
}

/// The index of the first occurrence of `pat` in `s`, if there is one.
pub open spec fn first_match(s: Seq<char>, pat: Seq<char>) -> Option<int> {
    if exists|i: int| occurs_at(s, pat, i) {
        Some(choose|i: int| is_first_match(s, pat, i))
    } else {
        None
    }
}

/// The first occurrence is the one that no occurrence precedes.
pub proof fn lemma_first_match_is(s: Seq<char>, pat: Seq<char>, i: int)
    requires
        is_first_match(s, pat, i),
    ensures
        first_match(s, pat) == Some(i),
{
    let k = choose|k: int| is_first_match(s, pat, k);
    assert(is_first_match(s, pat, k));
    assert(k == i) by {
        if k < i {
            assert(!occurs_at(s, pat, k));
        } else if i < k {
            assert(!occurs_at(s, pat, i));
        }
    }
}

/// Where `pat` occurs nowhere, there is no first occurrence.
pub proof fn lemma_first_match_none(s: Seq<char>, pat: Seq<char>)
    requires
        forall|j: int| 0 <= j && j + pat.len() <= s.len() ==> !occurs_at(s, pat, j),
    ensures
        first_match(s, pat) is None,
{
    assert forall|i: int| !occurs_at(s, pat, i) by {
        if 0 <= i && i + pat.len() <= s.len() {
            assert(!occurs_at(s, pat, i));
        }
    }
}

/// Below an occurrence there is a first occurrence.
proof fn lemma_least_match(s: Seq<char>, pat: Seq<char>, w: int)
    requires
        occurs_at(s, pat, w),
    ensures
        exists|i: int| is_first_match(s, pat, i),
    decreases w,
{
    if exists|j: int| 0 <= j < w && occurs_at(s, pat, j) {
        let j = choose|j: int| 0 <= j < w && occurs_at(s, pat, j);
        lemma_least_match(s, pat, j);
    } else {
        assert(is_first_match(s, pat, w));
    }
}

/// A first occurrence lies inside the sequence.
pub proof fn lemma_first_match_bounds(s: Seq<char>, pat: Seq<char>)
    ensures
        match first_match(s, pat) {
            Some(i) => is_first_match(s, pat, i) && 0 <= i <= s.len(),
            None => forall|j: int| !occurs_at(s, pat, j),
        },
{
    if exists|i: int| occurs_at(s, pat, i) {
        let w = choose|i: int| occurs_at(s, pat, i);
        lemma_least_match(s, pat, w);
    }
}

/// Whether `pat` occurs in `s` at index `i`.
pub fn occurs_at_index(s: &Vec<char>, pat: &Vec<char>, i: usize) -> (r: bool)
    ensures
        r == occurs_at(s@, pat@, i as int),
{
    if i > s.len() || pat.len() > s.len() - i {
        return false;
    }
    let mut k: usize = 0;
    while k < pat.len()
        invariant
            i + pat.len() <= s.len(),
            k <= pat.len(),
            forall|j: int| 0 <= j < k ==> s@[i + j] == pat@[j],
        decreases pat.len() - k,
    {
        if s[i + k] != pat[k] {
            proof {
                let sub = s@.subrange(i as int, i + pat.len());
                assert(sub[k as int] == s@[i + k]);
            }
            return false;
        }
        k += 1;
    }
    assert(s@.subrange(i as int, i + pat.len()) =~= pat@);
    true
}

/// Whether `s` starts with `p`.
pub fn has_prefix(s: &Vec<char>, p: &Vec<char>) -> (r: bool)
    ensures
        r == p@.is_prefix_of(s@),
{
    let r = occurs_at_index(s, p, 0);
    proof {
        if p.len() <= s.len() {
            assert(s@.subrange(0, p.len() as int) =~= s@.subrange(0, 0 + p.len()));
        }
    }
    r
}

/// Whether `s` ends with `p`.
pub fn has_suffix(s: &Vec<char>, p: &Vec<char>) -> (r: bool)
    ensures
        r == p@.is_suffix_of(s@),
{
    if p.len() > s.len() {
        return false;
    }
    let start: usize = s.len() - p.len();
    let r = occurs_at_index(s, p, start);
    proof {
        assert(s@.subrange(s.len() - p.len(), s.len() as int) =~= s@.subrange(
            start as int,
            start + p.len(),
        ));
    }
    r
}

/// The index of the first occurrence of `pat` in `s`.
pub fn find(s: &Vec<char>, pat: &Vec<char>) -> (r: Option<usize>)
    ensures
        match r {
            Some(i) => first_match(s@, pat@) == Some(i as int),
            None => first_match(s@, pat@) is None,
        },
{
    if pat.len() > s.len() {
        proof {
            lemma_first_match_none(s@, pat@);
        }
        return None;
    }
    let mut i: usize = 0;
    while pat.len() <= s.len() - i
        invariant
            i <= s.len(),
            forall|j: int| 0 <= j < i ==> !occurs_at(s@, pat@, j),
        decreases s.len() - i,
    {
        if occurs_at_index(s, pat, i) {
            proof {
                lemma_first_match_is(s@, pat@, i as int);
            }
            return Some(i);
        }
        assert(i < s.len()) by {
            if i == s.len() {
                assert(s@.subrange(i as int, i + pat.len()) =~= pat@);
            }
        }
        i += 1;
    }
    proof {
        lemma_first_match_none(s@, pat@);
    }
    None
}

/// `s` without the prefix `p`, where it starts with `p`.
pub fn without_prefix(s: &str, p: &str) -> (r: Option<String>)
    ensures
        match r {
            Some(rest) => strip_prefix(s@, p@) == Some(rest@),
            None => strip_prefix(s@, p@) is None,
        },
{
    let sc = chars_of(s);
    let pc = chars_of(p);
    if has_prefix(&sc, &pc) {
        Some(substring(s, pc.len(), sc.len()))
    } else {
        None
    }
}

/// `s` without the suffix `p`, where it ends with `p`.
pub fn without_suffix(s: &str, p: &str) -> (r: Option<String>)
    ensures
        match r {
            Some(rest) => strip_suffix(s@, p@) == Some(rest@),
            None => strip_suffix(s@, p@) is None,
        },
{
    let sc = chars_of(s);
    let pc = chars_of(p);
    if has_suffix(&sc, &pc) {
        Some(substring(s, 0, sc.len() - pc.len()))
    } else {
        None
    }
}

/// `s` up to the first occurrence of `pat`, where `pat` occurs in it.
pub fn before_first(s: &str, pat: &str) -> (r: Option<String>)
    ensures
        match r {
            Some(head) => first_match(s@, pat@) is Some && head@ == s@.take(
                first_match(s@, pat@)->Some_0,
            ),
            None => first_match(s@, pat@) is None,
        },
{
    let sc = chars_of(s);
    let pc = chars_of(pat);
    match find(&sc, &pc) {
        Some(i) => {
            proof {
                lemma_first_match_bounds(s@, pat@);
            }
            Some(substring(s, 0, i))
        },
        None => None,
    }
}

/// The characters that Unicode gives the property `White_Space`.
pub open spec fn whitespace(c: char) -> bool {
    let n = c as u32;
    (0x09 <= n <= 0x0D) || n == 0x20 || n == 0x85 || n == 0xA0 || n == 0x1680 || (0x2000 <= n
        <= 0x200A) || n == 0x2028 || n == 0x2029 || n == 0x202F || n == 0x205F || n == 0x3000
}

/// Whether `c` is a whitespace character.
pub fn is_whitespace(c: char) -> (r: bool)
    ensures
        r == whitespace(c),
{
    let n: u32 = c as u32;
    (0x09 <= n && n <= 0x0D) || n == 0x20 || n == 0x85 || n == 0xA0 || n == 0x1680 || (0x2000 <= n
        && n <= 0x200A) || n == 0x2028 || n == 0x2029 || n == 0x202F || n == 0x205F || n == 0x3000
}

/// The length of the run of characters other than whitespace that `s` starts with.
pub open spec fn word_len(s: Seq<char>) -> nat
    decreases s.len(),
{
    if s.len() == 0 || whitespace(s[0]) {
        0
    } else {
        1 + word_len(s.drop_first())
    }
}

/// The maximal runs of characters other than whitespace in `s`, in order.
pub open spec fn words(s: Seq<char>) -> Seq<Seq<char>>
    decreases s.len(),
    via words_decreases
{
    if s.len() == 0 {
        Seq::empty()
    } else if whitespace(s[0]) {
        words(s.drop_first())
    } else {
        seq![s.take(word_len(s) as int)] + words(s.skip(word_len(s) as int))
    }
}

#[via_fn]
proof fn words_decreases(s: Seq<char>) {
    if s.len() != 0 && !whitespace(s[0]) {
        lemma_word_len_bounds(s);
    }
}

/// A leading run is no longer than the sequence, and not empty where the
/// sequence starts with a character other than whitespace.
pub proof fn lemma_word_len_bounds(s: Seq<char>)
    ensures
        word_len(s) <= s.len(),
        s.len() > 0 && !whitespace(s[0]) ==> word_len(s) > 0,
    decreases s.len(),
{
    if s.len() != 0 && !whitespace(s[0]) {
        lemma_word_len_bounds(s.drop_first());
    }
}

/// A run of `n` characters other than whitespace that ends the sequence or is
/// followed by whitespace is the leading run.
pub proof fn lemma_word_len_is(s: Seq<char>, n: int)
    requires
        0 <= n <= s.len(),
        forall|k: int| 0 <= k < n ==> !whitespace(#[trigger] s[k]),
        n == s.len() || whitespace(s[n]),
    ensures
        word_len(s) == n,
    decreases n,
{
    if n > 0 {
        let t = s.drop_first();
        assert forall|k: int| 0 <= k < n - 1 implies !whitespace(#[trigger] t[k]) by {
            assert(t[k] == s[k + 1]);
        }
        if n - 1 < t.len() {
            assert(t[n - 1] == s[n]);
        }
        lemma_word_len_is(t, n - 1);
    }
}

/// The leading run holds no whitespace.
pub proof fn lemma_word_len_run(s: Seq<char>, k: int)
    requires
        0 <= k < word_len(s),
    ensures
        k < s.len(),
        !whitespace(s[k]),
    decreases s.len(),
{
    lemma_word_len_bounds(s);
    if k > 0 {
        lemma_word_len_run(s.drop_first(), k - 1);
    }
}

/// Every word is a run of at least one character, none of them whitespace.
pub proof fn lemma_words_hold_no_whitespace(s: Seq<char>, i: int, k: int)
    requires
        0 <= i < words(s).len(),
        0 <= k < words(s)[i].len(),
    ensures
        !whitespace(words(s)[i][k]),
    decreases s.len(),
{
    if s.len() > 0 {
        if whitespace(s[0]) {
            lemma_words_hold_no_whitespace(s.drop_first(), i, k);
        } else {
            lemma_word_len_bounds(s);
            let n = word_len(s) as int;
            if i == 0 {
                lemma_word_len_run(s, k);
            } else {
                lemma_words_hold_no_whitespace(s.skip(n), i - 1, k);
            }
        }
    }
}

/// No word is empty.
pub proof fn lemma_words_are_not_empty(s: Seq<char>, i: int)
    requires
        0 <= i < words(s).len(),
    ensures
        words(s)[i].len() > 0,
    decreases s.len(),
{
    if s.len() > 0 {
        if whitespace(s[0]) {
            lemma_words_are_not_empty(s.drop_first(), i);
        } else {
            lemma_word_len_bounds(s);
            let n = word_len(s) as int;
            if i > 0 {
                lemma_words_are_not_empty(s.skip(n), i - 1);
            }
        }
    }
}

/// The words of `s`: its maximal runs of characters other than whitespace.
pub fn split_whitespace(s: &str) -> (out: Vec<String>)
    ensures
        views(out@) == words(s@),
{
    let sc = chars_of(s);
    let n: usize = sc.len();
    let mut out: Vec<String> = Vec::new();
    let mut i: usize = 0;
    assert(s@.skip(0) =~= s@);
    assert(views(out@) + words(s@.skip(0)) =~= words(s@));
    while i < n
        invariant
            sc@ == s@,
            n == sc.len(),
            i <= n,
            views(out@) + words(s@.skip(i as int)) == words(s@),
        decreases n - i,
    {
        let ghost rest = s@.skip(i as int);
        if is_whitespace(sc[i]) {
            assert(rest.drop_first() =~= s@.skip(i + 1));
            i += 1;
        } else {
            let start: usize = i;
            while i < n && !is_whitespace(sc[i])
                invariant
                    sc@ == s@,
                    n == sc.len(),
                    start <= i <= n,
                    forall|k: int| start <= k < i ==> !whitespace(#[trigger] sc@[k]),
                decreases n - i,
            {
                i += 1;
            }
            let word = substring(s, start, i);
            proof {
                let len = i - start;
                assert forall|k: int| 0 <= k < len implies !whitespace(#[trigger] rest[k]) by {
                    assert(rest[k] == sc@[start + k]);
                }
                lemma_word_len_is(rest, len);
                assert(rest.take(len) =~= s@.subrange(start as int, i as int));
                assert(rest.skip(len) =~= s@.skip(i as int));
                assert(views(out@.push(word)) =~= views(out@) + seq![word@]);
                assert((views(out@) + seq![word@]) + words(s@.skip(i as int)) =~= views(out@) + (
                seq![word@] + words(s@.skip(i as int))));
            }
            out.push(word);
        }
    }
    assert(words(s@.skip(n as int)) =~= Seq::<Seq<char>>::empty());
    assert(views(out@) + Seq::<Seq<char>>::empty() =~= views(out@));
    out
}

/// `s` without the whitespace it starts with.
pub open spec fn trim_start(s: Seq<char>) -> Seq<char>
    decreases s.len(),
{
    if s.len() > 0 && whitespace(s[0]) {
        trim_start(s.drop_first())
    } else {
        s
    }
}

/// `s` without the whitespace it ends with.
pub open spec fn trim_end(s: Seq<char>) -> Seq<char>
    decreases s.len(),
{
    if s.len() > 0 && whitespace(s.last()) {
        trim_end(s.drop_last())
    } else {
        s
    }
}

/// `s` without the whitespace at either end.
pub open spec fn trimmed(s: Seq<char>) -> Seq<char> {
    trim_end(trim_start(s))
}

/// Skipping `k` whitespace characters at the start does not change what is
/// left after trimming the start.
pub proof fn lemma_trim_start_skip(s: Seq<char>, k: int)
    requires
        0 <= k <= s.len(),
        forall|j: int| 0 <= j < k ==> whitespace(#[trigger] s[j]),
    ensures
        trim_start(s) == trim_start(s.skip(k)),
    decreases k,
{
    if k == 0 {
        assert(s.skip(0) =~= s);
    } else {
        let t = s.drop_first();
        assert forall|j: int| 0 <= j < k - 1 implies whitespace(#[trigger] t[j]) by {
            assert(t[j] == s[j + 1]);
        }
        lemma_trim_start_skip(t, k - 1);
        assert(t.skip(k - 1) =~= s.skip(k));
    }
}

/// Dropping whitespace characters at the end does not change what is left
/// after trimming the end.
pub proof fn lemma_trim_end_take(s: Seq<char>, k: int)
    requires
        0 <= k <= s.len(),
        forall|j: int| k <= j < s.len() ==> whitespace(#[trigger] s[j]),
    ensures
        trim_end(s) == trim_end(s.take(k)),
    decreases s.len() - k,
{
    if k == s.len() {
        assert(s.take(k) =~= s);
    } else {
        let t = s.drop_last();
        assert(s.last() == s[s.len() - 1]);
        assert forall|j: int| k <= j < t.len() implies whitespace(#[trigger] t[j]) by {
            assert(t[j] == s[j]);
        }
        lemma_trim_end_take(t, k);
        assert(t.take(k) =~= s.take(k));
    }
}

/// `s` without the whitespace at either end.
pub fn trim(s: &str) -> (r: String)
    ensures
        r@ == trimmed(s@),
{
    let sc = chars_of(s);
    let n: usize = sc.len();
    let mut a: usize = 0;
    while a < n && is_whitespace(sc[a])
        invariant
            sc@ == s@,
            n == sc.len(),
            a <= n,
            forall|j: int| 0 <= j < a ==> whitespace(#[trigger] sc@[j]),
        decreases n - a,
    {
        a += 1;
    }
    let mut b: usize = n;
    while b > a && is_whitespace(sc[b - 1])
        invariant
            sc@ == s@,
            n == sc.len(),
            a <= b <= n,
            forall|j: int| b <= j < n ==> whitespace(#[trigger] sc@[j]),
        decreases b,
    {
        b -= 1;
    }
    proof {
        let t = s@.skip(a as int);
        lemma_trim_start_skip(s@, a as int);
        assert(trim_start(t) == t);
        assert forall|j: int| b - a <= j < t.len() implies whitespace(#[trigger] t[j]) by {
            assert(t[j] == sc@[a + j]);
        }
        lemma_trim_end_take(t, b - a);
        let u = t.take(b - a);
        assert(u =~= s@.subrange(a as int, b as int));
        if u.len() > 0 {
            assert(u.last() == sc@[b - 1]);
        }
        assert(trim_end(u) == u);
    }
    substring(s, a, b)
}

/// `s` with every occurrence of `pat` replaced by `to`, the occurrences taken
/// from left to right without overlap. An empty `pat` occurs nowhere.
pub open spec fn substituted(s: Seq<char>, pat: Seq<char>, to: Seq<char>) -> Seq<char>
    decreases s.len(),
{
    if pat.len() == 0 || s.len() < pat.len() {
        s
    } else if pat.is_prefix_of(s) {
        to + substituted(s.skip(pat.len() as int), pat, to)
    } else {
        seq![s[0]] + substituted(s.skip(1), pat, to)
    }
}

/// `s` with every occurrence of `pat` replaced by `to`, from left to right.
pub fn substitute(s: &str, pat: &str, to: &str) -> (r: String)
    ensures
        r@ == substituted(s@, pat@, to@),
{
    let sc = chars_of(s);
    let pc = chars_of(pat);
    let n: usize = sc.len();
    let m: usize = pc.len();
    if m == 0 || n < m {
        return s.to_owned();
    }
    let mut out = String::new();
    let mut start: usize = 0;
    let mut i: usize = 0;
    assert(s@.skip(0) =~= s@);
    assert(out@ + s@.subrange(0, 0) + substituted(s@.skip(0), pat@, to@) =~= substituted(
        s@,
        pat@,
        to@,
    ));
    while m <= n - i
        invariant
            sc@ == s@,
            pc@ == pat@,
            n == sc.len(),
            m == pc.len(),
            0 < m <= n,
            start <= i <= n,
            out@ + s@.subrange(start as int, i as int) + substituted(
                s@.skip(i as int),
                pat@,
                to@,
            ) == substituted(s@, pat@, to@),
        decreases n - i,
    {
        let ghost rest = s@.skip(i as int);
        let ghost before = out@;
        proof {
            assert(rest.subrange(0, m as int) =~= s@.subrange(i as int, i + m));
        }
        if occurs_at_index(&sc, &pc, i) {
            let lit = s.substring_char(start, i);
            out.append(lit);
            out.append(to);
            proof {
                assert(pat@.is_prefix_of(rest));
                assert(rest.skip(m as int) =~= s@.skip(i + m));
                assert(s@.subrange(i + m, i + m) =~= Seq::<char>::empty());
                assert(out@ + s@.subrange(i + m, i + m) + substituted(s@.skip(i + m), pat@, to@)
                    =~= before + s@.subrange(start as int, i as int) + (to@ + substituted(
                    s@.skip(i + m),
                    pat@,
                    to@,
                )));
            }
            i += m;
            start = i;
        } else {
            proof {
                assert(!pat@.is_prefix_of(rest));
                assert(rest.skip(1) =~= s@.skip(i + 1));
                assert(s@.subrange(start as int, i + 1) =~= s@.subrange(start as int, i as int)
                    + seq![rest[0]]);
                assert(before + s@.subrange(start as int, i + 1) + substituted(
                    s@.skip(i + 1),
                    pat@,
                    to@,
                ) =~= before + s@.subrange(start as int, i as int) + (seq![rest[0]] + substituted(
                    s@.skip(i + 1),
                    pat@,
                    to@,
                )));
            }
            i += 1;
        }
    }
    proof {
        let rest = s@.skip(i as int);
        assert(substituted(rest, pat@, to@) == rest);
        assert(s@.subrange(start as int, i as int) + rest =~= s@.subrange(
            start as int,
            n as int,
        ));
        assert(out@ + s@.subrange(start as int, i as int) + rest =~= out@ + s@.subrange(
            start as int,
            n as int,
        ));
    }
    let tail = s.substring_char(start, n);
    out.append(tail);
    out
}

/// The text that `bytes` encode, where they are UTF-8.
///
/// Calls `String::from_utf8`, which gives back the text for well-formed
/// UTF-8 and an error for anything else.
#[verifier::external_body]
pub(crate) fn decode_utf8_string(bytes: Vec<u8>) -> (r: Option<String>)
    ensures
        r is Some <==> valid_utf8(bytes@),
        r matches Some(text) ==> text@ == decode_utf8(bytes@),
{
    match String::from_utf8(bytes) {
        Ok(text) => Some(text),
        Err(_) => None,
    }
}

} // verus!
