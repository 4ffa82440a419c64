//! Searching and cutting text, stated over sequences of characters.

use std::str::Chars;
use vstd::prelude::*;
use vstd::std_specs::iter::IteratorSpec;
use vstd::string::StrSliceExecFns;
use vstd::utf8::encode_utf8;

verus! {

/// `k` is the place of the first `c` in `s`, or the length of `s` where `s`
/// holds no `c`.
pub open spec fn is_first_at(s: Seq<char>, c: char, k: int) -> bool {
    &&& 0 <= k <= s.len()
    &&& forall|j: int| 0 <= j < k ==> s[j] != c
    &&& k < s.len() ==> s[k] == c
}

/// The place of the first `c` in `s`; the length of `s` where it holds none.
pub open spec fn first_index(s: Seq<char>, c: char) -> int {
    choose|k: int| is_first_at(s, c, k)
}

/// The run of `s` that comes before its first `c`: all of `s` where it holds
/// none.
pub open spec fn before(s: Seq<char>, c: char) -> Seq<char> {
    s.take(first_index(s, c))
}

/// `s` from its first `c` on: nothing where it holds none.
pub open spec fn from_first(s: Seq<char>, c: char) -> Seq<char> {
    s.skip(first_index(s, c))
}

/// What is left of `s` behind its first `c`: nothing where it holds none.
pub open spec fn past(s: Seq<char>, c: char) -> Seq<char> {
    if first_index(s, c) < s.len() {
        s.skip(first_index(s, c) + 1)
    } else {
        Seq::empty()
    }
}

/// `pat` stands in `s` at place `k`.
pub open spec fn occurs_at(s: Seq<char>, pat: Seq<char>, k: int) -> bool {
    0 <= k && k + pat.len() <= s.len() && s.subrange(k, k + pat.len()) == pat
}

/// `pat` stands somewhere in `s`.
pub open spec fn occurs(s: Seq<char>, pat: Seq<char>) -> bool {
    exists|k: int| occurs_at(s, pat, k)
}

/// `pat` stands in `s` at place `k` and at no earlier place.
pub open spec fn is_first_match(s: Seq<char>, pat: Seq<char>, k: int) -> bool {
    occurs_at(s, pat, k) && forall|j: int| 0 <= j < k ==> !occurs_at(s, pat, j)
}

/// What is left of `s` behind the first place where `pat` stands in it: all
/// of `s` where `pat` stands nowhere in it.
pub open spec fn past_match(s: Seq<char>, pat: Seq<char>) -> Seq<char> {
    if occurs(s, pat) {
        s.skip((choose|k: int| is_first_match(s, pat, k)) + pat.len())
    } else {
        s
    }
}

/// Every text has a first place for `c`, and `first_index` names it.
pub proof fn lemma_first_index(s: Seq<char>, c: char)
    ensures
        is_first_at(s, c, first_index(s, c)),
{
    lemma_first_index_from(s, c, 0);
}

proof fn lemma_first_index_from(s: Seq<char>, c: char, k: int)
    requires
        0 <= k <= s.len(),
        forall|j: int| 0 <= j < k ==> s[j] != c,
    ensures
        is_first_at(s, c, first_index(s, c)),
    decreases s.len() - k,
{
    if k < s.len() && s[k] != c {
        lemma_first_index_from(s, c, k + 1);
    } else {
        assert(is_first_at(s, c, k));
    }
}

/// A text has one first place for `c` only.
pub proof fn lemma_first_index_is(s: Seq<char>, c: char, k: int)
    requires
        is_first_at(s, c, k),
    ensures
        first_index(s, c) == k,
{
    lemma_first_index(s, c);
}

/// Cutting behind the first `c` takes at least one character from a text
/// that holds any.
pub proof fn lemma_past_shorter(s: Seq<char>, c: char)
    ensures
        past(s, c).len() <= s.len(),
        s.len() > 0 ==> past(s, c).len() < s.len(),
        past(s, c) == s.skip(s.len() - past(s, c).len()),
{
    lemma_first_index(s, c);
}

/// `pat` has one first place in `s` only.
pub proof fn lemma_first_match_is(s: Seq<char>, pat: Seq<char>, k: int)
    requires
        is_first_match(s, pat, k),
    ensures
        occurs(s, pat),
        past_match(s, pat) == s.skip(k + pat.len()),
{
    let m = choose|m: int| is_first_match(s, pat, m);
    assert(is_first_match(s, pat, m));
    assert(m == k) by {
        if m < k {
            assert(!occurs_at(s, pat, m));
        } else if k < m {
            assert(!occurs_at(s, pat, k));
        }
    }
}

/// `Chars::as_str`: the part of the string slice that the iterator has not
/// walked yet, as a slice that lives as long as the slice it walks.
#[verifier::external_body]
fn rest_of<'a>(chars: &Chars<'a>) -> (rest: &'a str)
    ensures
        rest@ == chars.remaining(),
{
    chars.as_str()
}

proof fn lemma_chars_le_bytes(chars: Seq<char>)
    ensures
        chars.len() <= encode_utf8(chars).len(),
    decreases chars.len(),
{
    if chars.len() > 0 {
        lemma_chars_le_bytes(chars.drop_first());
    }
}

/// The number of bytes of `s`, which bounds the number of its characters.
fn byte_len(s: &str) -> (n: usize)
    ensures
        s@.len() <= n,
{
    proof {
        lemma_chars_le_bytes(s@);
    }
    s.as_bytes().len()
}

/// Cuts `s` in front of its first `c`: the run before it, and the rest,
/// which begins with that `c` unless it is empty.
pub fn cut_before<'a>(s: &'a str, c: char) -> (parts: (&'a str, &'a str))
    ensures
        parts.0@ == before(s@, c),
        parts.1@ == from_first(s@, c),
{
    let n = byte_len(s);
    let mut it = s.chars();
    let mut here: &'a str = s;
    let mut k: usize = 0;
    loop
        invariant_except_break
            it.remaining() == s@.skip(k as int),
        invariant
            k <= s@.len() <= n,
            here@ == s@.skip(k as int),
            forall|j: int| 0 <= j < k ==> s@[j] != c,
        ensures
            is_first_at(s@, c, k as int),
        decreases s@.len() - k,
    {
        match it.next() {
            None => {
                break ;
            },
            Some(ch) => {
                if ch == c {
                    break ;
                }
                k = k + 1;
                here = rest_of(&it);
            },
        }
    }
    proof {
        lemma_first_index_is(s@, c, k as int);
    }
    (s.substring_char(0, k), here)
}

/// Drops from `s` its first `c` and all that comes before it.
pub fn cut_past<'a>(s: &'a str, c: char) -> (rest: &'a str)
    ensures
        rest@ == past(s@, c),
{
    let n = byte_len(s);
    let mut it = s.chars();
    let mut k: usize = 0;
    loop
        invariant_except_break
            it.remaining() == s@.skip(k as int),
        invariant
            k <= s@.len() <= n,
            forall|j: int| 0 <= j < k ==> s@[j] != c,
        ensures
            is_first_at(s@, c, k as int),
            it.remaining() == if k < s@.len() {
                s@.skip(k + 1)
            } else {
                Seq::empty()
            },
        decreases s@.len() - k,
    {
        match it.next() {
            None => {
                break ;
            },
            Some(ch) => {
                if ch == c {
                    break ;
                }
                k = k + 1;
            },
        }
    }
    proof {
        lemma_first_index_is(s@, c, k as int);
    }
    rest_of(&it)
}

/// Drops the first `n` characters of `s`: all of them where it has fewer.
pub fn drop_chars<'a>(s: &'a str, n: usize) -> (rest: &'a str)
    ensures
        rest@ == if n <= s@.len() {
            s@.skip(n as int)
        } else {
            Seq::empty()
        },
{
    let mut it = s.chars();
    let mut k: usize = 0;
    while k < n
        invariant_except_break
            it.remaining() == s@.skip(k as int),
        invariant
            k <= n,
            k <= s@.len(),
        ensures
            it.remaining() == if n <= s@.len() {
                s@.skip(n as int)
            } else {
                Seq::empty()
            },
        decreases n - k,
    {
        match it.next() {
            Some(_) => {
                k = k + 1;
            },
            None => {
                break ;
            },
        }
    }
    rest_of(&it)
}

/// Whether `s` begins with `pat`.
pub fn starts_with(s: &str, pat: &str) -> (b: bool)
    ensures
        b == pat@.is_prefix_of(s@),
{
    let n = byte_len(pat);
    let mut text = s.chars();
    let mut want = pat.chars();
    let mut k: usize = 0;
    loop
        invariant_except_break
            text.remaining() == s@.skip(k as int),
            want.remaining() == pat@.skip(k as int),
        invariant
            k <= pat@.len() <= n,
            k <= s@.len(),
            forall|j: int| 0 <= j < k ==> s@[j] == pat@[j],
        decreases pat@.len() - k,
    {
        match want.next() {
            None => {
                assert(pat@ =~= s@.subrange(0, pat@.len() as int));
                return true;
            },
            Some(p) => {
                match text.next() {
                    None => {
                        return false;
                    },
                    Some(t) => {
                        if t != p {
                            assert(pat@.len() <= s@.len() ==> s@.subrange(
                                0,
                                pat@.len() as int,
                            )[k as int] == s@[k as int]);
                            return false;
                        }
                        k = k + 1;
                    },
                }
            },
        }
    }
}

/// Drops from `s` the first stretch that reads `pat` and all that comes
/// before it; where `pat` stands nowhere in `s`, all of `s` is kept.
pub fn cut_past_match<'a>(s: &'a str, pat: &str) -> (rest: &'a str)
    ensures
        rest@ == past_match(s@, pat@),
{
    let n = byte_len(s);
    let width = pat.unicode_len();
    let mut it = s.chars();
    let mut here: &'a str = s;
    let mut k: usize = 0;
    loop
        invariant_except_break
            it.remaining() == s@.skip(k as int),
        invariant
            k <= s@.len() <= n,
            width == pat@.len(),
            here@ == s@.skip(k as int),
            forall|j: int| 0 <= j < k ==> !occurs_at(s@, pat@, j),
        decreases s@.len() - k,
    {
        if starts_with(here, pat) {
            proof {
                assert(s@.subrange(k as int, k + pat@.len()) =~= here@.subrange(
                    0,
                    pat@.len() as int,
                ));
                assert(is_first_match(s@, pat@, k as int));
                lemma_first_match_is(s@, pat@, k as int);
            }
            return drop_chars(here, width);
        }
        proof {
            if occurs_at(s@, pat@, k as int) {
                assert(s@.subrange(k as int, k + pat@.len()) =~= here@.subrange(
                    0,
                    pat@.len() as int,
                ));
            }
        }
        match it.next() {
            None => {
                proof {
                    assert forall|j: int| !occurs_at(s@, pat@, j) by {
                        if occurs_at(s@, pat@, j) {
                            assert(j <= s@.len());
                            if j == k {
                            } else {
                                assert(j < k);
                            }
                        }
                    }
                }
                return s;
            },
            Some(_) => {
                k = k + 1;
                here = rest_of(&it);
            },
        }
    }
}

/// The empty string literal holds no character.
pub proof fn lemma_empty_text()
    ensures
        ""@ == Seq::<char>::empty(),
{
    reveal_strlit("");
    assert(""@ =~= Seq::<char>::empty());
}

/// Whether `a` and `b` read the same.
pub fn same(a: &str, b: &str) -> (eq: bool)
    ensures
        eq == (a@ == b@),
{
    let eq = starts_with(a, b) && starts_with(b, a);
    proof {
        if eq {
            assert(a@ =~= b@);
        }
    }
    eq
}

/// Whether `c` is white space: whether it is one of the characters to
/// which Unicode gives the property `White_Space`.
pub open spec fn white_space(c: char) -> bool {
    let n = c as u32;
    ||| 0x09 <= n <= 0x0d
    ||| n == 0x20
    ||| n == 0x85
    ||| n == 0xa0
    ||| n == 0x1680
    ||| 0x2000 <= n <= 0x200a
    ||| n == 0x2028
    ||| n == 0x2029
    ||| n == 0x202f
    ||| n == 0x205f
    ||| n == 0x3000
}

/// Whether `c` is white space.
pub fn is_white_space(c: char) -> (b: bool)
    ensures
        b == white_space(c),
{
    let n = c as u32;
    (0x09 <= n && n <= 0x0d) || n == 0x20 || n == 0x85 || n == 0xa0 || n == 0x1680 || (0x2000 <= n
        && n <= 0x200a) || n == 0x2028 || n == 0x2029 || n == 0x202f || n == 0x205f || n == 0x3000
}

/// `s` without the white space at its start.
pub open spec fn trimmed_start(s: Seq<char>) -> Seq<char>
    decreases s.len(),
{
    if s.len() > 0 && white_space(s[0]) {
        trimmed_start(s.drop_first())
    } else {
        s
    }
}

/// `s` without the white space at its end.
pub open spec fn trimmed_end(s: Seq<char>) -> Seq<char>
    decreases s.len(),
{
    if s.len() > 0 && white_space(s.last()) {
        trimmed_end(s.drop_last())
    } else {
        s
    }
}

/// `s` without the white space at its two ends.
pub open spec fn trimmed(s: Seq<char>) -> Seq<char> {
    trimmed_end(trimmed_start(s))
}

proof fn lemma_trimmed_start(s: Seq<char>, k: int)
    requires
        0 <= k <= s.len(),
        forall|j: int| 0 <= j < k ==> white_space(s[j]),
        k < s.len() ==> !white_space(s[k]),
    ensures
        trimmed_start(s) == s.skip(k),
    decreases k,
{
    if k > 0 {
        assert(s.drop_first().skip(k - 1) =~= s.skip(k));
        lemma_trimmed_start(s.drop_first(), k - 1);
    } else {
        assert(s.skip(0) =~= s);
    }
}

proof fn lemma_trimmed_end(s: Seq<char>, k: int)
    requires
        0 <= k <= s.len(),
        forall|j: int| k <= j < s.len() ==> white_space(s[j]),
        k > 0 ==> !white_space(s[k - 1]),
    ensures
        trimmed_end(s) == s.take(k),
    decreases s.len() - k,
{
    if k < s.len() {
        assert(s.drop_last().take(k) =~= s.take(k));
        lemma_trimmed_end(s.drop_last(), k);
    } else {
        assert(s.take(k) =~= s);
    }
}

/// `s` without the white space at its two ends.
pub fn trim<'a>(s: &'a str) -> (inner: &'a str)
    ensures
        inner@ == trimmed(s@),
{
    let n = byte_len(s);
    let mut it = s.chars();
    let mut start: &'a str = s;
    let mut k: usize = 0;
    loop
        invariant_except_break
            it.remaining() == s@.skip(k as int),
        invariant
            k <= s@.len() <= n,
            start@ == s@.skip(k as int),
            forall|j: int| 0 <= j < k ==> white_space(s@[j]),
        ensures
            k < s@.len() ==> !white_space(s@[k as int]),
        decreases s@.len() - k,
    {
        match it.next() {
            None => {
                break ;
            },
            Some(c) => {
                if !is_white_space(c) {
                    break ;
                }
                k = k + 1;
                start = rest_of(&it);
            },
        }
    }
    proof {
        lemma_trimmed_start(s@, k as int);
    }
    let mut tail = start.chars();
    let mut seen: usize = 0;
    let mut end: usize = 0;
    loop
        invariant_except_break
            tail.remaining() == start@.skip(seen as int),
        invariant
            end <= seen <= start@.len() <= n,
            forall|j: int| end <= j < seen ==> white_space(start@[j]),
            end > 0 ==> !white_space(start@[end - 1]),
        ensures
            seen == start@.len(),
        decreases start@.len() - seen,
    {
        match tail.next() {
            None => {
                break ;
            },
            Some(c) => {
                seen = seen + 1;
                if !is_white_space(c) {
                    end = seen;
                }
            },
        }
    }
    proof {
        lemma_trimmed_end(start@, end as int);
    }
    start.substring_char(0, end)
}

} // verus!
