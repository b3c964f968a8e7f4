//! Character-level helpers on `str` and `String`.
use vstd::prelude::*;
use vstd::string::*;
use vstd::utf8::*;

verus! {

/// Appends one character to a string.
///
/// Trusted: wraps `String::push`, which std documents as appending the
/// character to the end of the string.
#[verifier::external_body]
pub(crate) fn push_char(s: &mut String, c: char)
    ensures
        final(s)@ == old(s)@.push(c),
{
    s.push(c);
}

/// The characters of `s`, in order.
pub fn chars_of(s: &str) -> (out: Vec<char>)
    ensures
        out@ == s@,
{
    let mut out: Vec<char> = Vec::new();
    for c in it: s.chars()
        invariant
            out@ == it.seq().take(it.index()),
    {
        out.push(c);
    }
    out
}

/// Whether two string slices hold the same characters.
pub fn str_eq(a: &str, b: &str) -> (same: bool)
    ensures
        same == (a@ == b@),
{
    let x = a.as_bytes();
    let y = b.as_bytes();
    proof {
        broadcast use encode_utf8_decode_utf8;
        assert(decode_utf8(encode_utf8(a@)) == a@);
        assert(decode_utf8(encode_utf8(b@)) == b@);
    }
    if x.len() != y.len() {
        return false;
    }
    let mut i: usize = 0;
    while i < x.len()
        invariant
            x.len() == y.len(),
            0 <= i <= x.len(),
            x@ == encode_utf8(a@),
            y@ == encode_utf8(b@),
            decode_utf8(encode_utf8(a@)) == a@,
            decode_utf8(encode_utf8(b@)) == b@,
            forall|j: int| 0 <= j < i ==> x@[j] == y@[j],
        decreases x.len() - i,
    {
        if x[i] != y[i] {
            return false;
        }
        i = i + 1;
    }
    assert(x@ =~= y@);
    true
}

/// Whether `pattern` occurs in `s` starting at position `i`.
pub open spec fn occurs_at(s: Seq<char>, pattern: Seq<char>, i: int) -> bool {
    0 <= i && i + pattern.len() <= s.len() && s.subrange(i, i + pattern.len()) == pattern
}

/// Whether `pattern` occurs anywhere in `s`.
pub open spec fn contains_seq(s: Seq<char>, pattern: Seq<char>) -> bool {
    exists|i: int| occurs_at(s, pattern, i)
}

/// The first position at or after `i` where `pattern` occurs in `s`.
pub open spec fn first_occurrence_from(s: Seq<char>, pattern: Seq<char>, i: int) -> Option<int>
    decreases s.len() + 1 - i,
{
    if i < 0 || i + pattern.len() > s.len() {
        None
    } else if occurs_at(s, pattern, i) {
        Some(i)
    } else {
        first_occurrence_from(s, pattern, i + 1)
    }
}

/// `first_occurrence_from` finds the first occurrence at or after `i`, and none means there is none.
pub proof fn lemma_first_occurrence(s: Seq<char>, pattern: Seq<char>, i: int)
    requires
        0 <= i,
    ensures
        match first_occurrence_from(s, pattern, i) {
            Some(j) => i <= j && occurs_at(s, pattern, j) && forall|k: int| i <= k < j ==> !#[trigger] occurs_at(s, pattern, k),
            None => forall|k: int| i <= k ==> !#[trigger] occurs_at(s, pattern, k),
        },
    decreases s.len() + 1 - i,
{
    if i + pattern.len() > s.len() {
    } else if occurs_at(s, pattern, i) {
    } else {
        lemma_first_occurrence(s, pattern, i + 1);
    }
}

/// Whether `pattern` occurs in `s` at position `i`.
fn occurs_at_exec(s: &Vec<char>, pattern: &Vec<char>, i: usize) -> (b: bool)
    ensures
        b == occurs_at(s@, pattern@, i as int),
{
    if i > s.len() || pattern.len() > s.len() - i {
        return false;
    }
    let mut k: usize = 0;
    while k < pattern.len()
        invariant
            i + pattern.len() <= s.len(),
            0 <= k <= pattern.len(),
            forall|j: int| 0 <= j < k ==> s@[i + j] == pattern@[j],
        decreases pattern.len() - k,
    {
        if s[i + k] != pattern[k] {
            assert(s@.subrange(i as int, i + pattern.len())[k as int] != pattern@[k as int]);
            return false;
        }
        k = k + 1;
    }
    assert(s@.subrange(i as int, i + pattern.len()) =~= pattern@);
    true
}

/// The first position at or after `start` where `pattern` occurs in `s`.
pub fn find_from(s: &Vec<char>, pattern: &Vec<char>, start: usize) -> (r: Option<usize>)
    ensures
        match r {
            Some(i) => first_occurrence_from(s@, pattern@, start as int) == Some(i as int),
            None => first_occurrence_from(s@, pattern@, start as int) is None,
        },
{
    if start > s.len() || pattern.len() > s.len() - start {
        return None;
    }
    let last = s.len() - pattern.len();
    let mut i = start;
    loop
        invariant
            start <= i <= last,
            last + pattern.len() == s.len(),
            first_occurrence_from(s@, pattern@, start as int) == first_occurrence_from(s@, pattern@, i as int),
        decreases last - i,
    {
        if occurs_at_exec(s, pattern, i) {
            return Some(i);
        }
        if i == last {
            assert(first_occurrence_from(s@, pattern@, i + 1) is None);
            return None;
        }
        i = i + 1;
    }
}

/// Whether `pattern` occurs in `s`.
pub fn contains_chars(s: &Vec<char>, pattern: &Vec<char>) -> (b: bool)
    ensures
        b == contains_seq(s@, pattern@),
{
    proof { lemma_first_occurrence(s@, pattern@, 0); }
    find_from(s, pattern, 0).is_some()
}

/// Whether `text` contains `pattern`.
pub fn str_contains(text: &str, pattern: &str) -> (b: bool)
    ensures
        b == contains_seq(text@, pattern@),
{
    contains_chars(&chars_of(text), &chars_of(pattern))
}

/// Whether `c` is an ASCII letter or digit.
pub open spec fn is_ascii_alnum(c: char) -> bool {
    ('0' <= c && c <= '9') || ('a' <= c && c <= 'z') || ('A' <= c && c <= 'Z')
}

/// Whether `c` is an ASCII letter or digit.
pub fn ascii_alnum(c: char) -> (b: bool)
    ensures
        b == is_ascii_alnum(c),
{
    ('0' <= c && c <= '9') || ('a' <= c && c <= 'z') || ('A' <= c && c <= 'Z')
}

/// How many ASCII letters and digits follow one another in `s` from position `i` on.
pub open spec fn alnum_run_from(s: Seq<char>, i: int) -> nat
    decreases s.len() - i,
{
    if 0 <= i < s.len() && is_ascii_alnum(s[i]) {
        1 + alnum_run_from(s, i + 1)
    } else {
        0
    }
}

/// Whether at least `k` ASCII letters and digits follow one another in `s` from position `i` on.
pub fn alnum_run_at_least(s: &Vec<char>, i: usize, k: usize) -> (b: bool)
    ensures
        b == (alnum_run_from(s@, i as int) >= k),
{
    let mut n: usize = 0;
    while n < k
        invariant
            0 <= n <= k,
            alnum_run_from(s@, i as int) == n + alnum_run_from(s@, i + n),
        decreases k - n,
    {
        if i >= s.len() || n >= s.len() - i || !ascii_alnum(s[i + n]) {
            assert(alnum_run_from(s@, i + n) == 0);
            return false;
        }
        assert(alnum_run_from(s@, i + n) == 1 + alnum_run_from(s@, i + n + 1));
        n = n + 1;
    }
    true
}

/// `parts` joined, with `sep` between each two.
pub open spec fn join_with(parts: Seq<Seq<char>>, sep: Seq<char>) -> Seq<char>
    decreases parts.len(),
{
    if parts.len() == 0 {
        Seq::empty()
    } else if parts.len() == 1 {
        parts[0]
    } else {
        join_with(parts.drop_last(), sep) + sep + parts.last()
    }
}

/// The texts of `parts` joined, with `sep` between each two.
pub fn join_strings(parts: &Vec<String>, sep: &str) -> (joined: String)
    ensures
        joined@ == join_with(parts@.map_values(|p: String| p@), sep@),
{
    let ghost views = parts@.map_values(|p: String| p@);
    let mut joined = String::from_str("");
    proof { reveal_strlit(""); }
    let mut i: usize = 0;
    while i < parts.len()
        invariant
            0 <= i <= parts@.len(),
            views == parts@.map_values(|p: String| p@),
            joined@ == join_with(views.take(i as int), sep@),
        decreases parts@.len() - i,
    {
        if i > 0 {
            joined.append(sep);
        }
        joined.append(parts[i].as_str());
        proof {
            assert(views.take(i + 1).drop_last() =~= views.take(i as int));
            if i == 0 {
                assert(joined@ =~= views.take(1)[0]);
            }
        }
        i = i + 1;
    }
    assert(views.take(parts@.len() as int) =~= views);
    joined
}

} // verus!
