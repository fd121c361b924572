//! Character-level text operations used by the code generators: replacing
//! a separator, stripping the quotes of a string literal, writing a number
//! in decimal, and searching for a pattern.

use vstd::prelude::*;

verus! {

/// Appends one character to a string (`String::push`).
#[verifier::external_body]
pub(crate) fn string_push(s: &mut String, c: char)
    ensures
        final(s)@ == old(s)@.push(c),
{
    s.push(c);
}

/// `s` with every occurrence of the character `from` replaced by `to`.
pub open spec fn replace_char(s: Seq<char>, from: char, to: Seq<char>) -> Seq<char>
    decreases s.len(),
{
    if s.len() == 0 {
        Seq::empty()
    } else {
        replace_char(s.drop_last(), from, to) + (if s.last() == from {
            to
        } else {
            seq![s.last()]
        })
    }
}

/// Replacing distributes over concatenation.
pub proof fn lemma_replace_char_concat(a: Seq<char>, b: Seq<char>, from: char, to: Seq<char>)
    ensures
        replace_char(a + b, from, to) == replace_char(a, from, to) + replace_char(b, from, to),
    decreases b.len(),
{
    if b.len() == 0 {
        assert(a + b =~= a);
    } else {
        lemma_replace_char_concat(a, b.drop_last(), from, to);
        assert((a + b).drop_last() =~= a + b.drop_last());
    }
}

/// A string without the character `from` is left unchanged by replacing it.
pub proof fn lemma_replace_char_absent(s: Seq<char>, from: char, to: Seq<char>)
    requires
        !s.contains(from),
    ensures
        replace_char(s, from, to) == s,
    decreases s.len(),
{
    if s.len() > 0 {
        assert(!s.drop_last().contains(from)) by {
            if s.drop_last().contains(from) {
                let i = choose|i: int| 0 <= i < s.drop_last().len() && s.drop_last()[i] == from;
                assert(s[i] == from);
            }
        }
        lemma_replace_char_absent(s.drop_last(), from, to);
        assert(s.last() != from) by {
            assert(s[s.len() - 1] == s.last());
        }
        assert(s.drop_last().push(s.last()) =~= s);
    }
}

/// After replacing `from` by a text without it, no `from` is left.
pub proof fn lemma_replace_char_removes(s: Seq<char>, from: char, to: Seq<char>)
    requires
        !to.contains(from),
    ensures
        !replace_char(s, from, to).contains(from),
    decreases s.len(),
{
    if s.len() > 0 {
        lemma_replace_char_removes(s.drop_last(), from, to);
        let head = replace_char(s.drop_last(), from, to);
        let tail = if s.last() == from {
            to
        } else {
            seq![s.last()]
        };
        assert forall|i: int| 0 <= i < (head + tail).len() implies (head + tail)[i] != from by {
            if i < head.len() {
                assert(head[i] == (head + tail)[i]);
            } else {
                assert(tail[i - head.len()] == (head + tail)[i]);
            }
        }
    }
}

/// Returns `s` with every `from` character replaced by `to`.
pub fn replace_char_with(s: &str, from: char, to: &str) -> (r: String)
    ensures
        r@ == replace_char(s@, from, to@),
{
    let n = s.unicode_len();
    let mut r = String::new();
    let mut i: usize = 0;
    while i < n
        invariant
            n == s@.len(),
            i <= n,
            r@ == replace_char(s@.take(i as int), from, to@),
        decreases n - i,
    {
        let c = s.get_char(i);
        assert(s@.take(i + 1).drop_last() =~= s@.take(i as int));
        if c == from {
            r.append(to);
        } else {
            string_push(&mut r, c);
            assert(r@ =~= replace_char(s@.take(i as int), from, to@) + seq![c]);
        }
        i = i + 1;
    }
    assert(s@.take(n as int) =~= s@);
    r
}

/// `s` without one trailing quote and then without one leading quote.
pub open spec fn strip_quotes_spec(s: Seq<char>) -> Seq<char> {
    let t = if s.len() > 0 && s.last() == '"' {
        s.drop_last()
    } else {
        s
    };
    if t.len() > 0 && t[0] == '"' {
        t.drop_first()
    } else {
        t
    }
}

/// Stripping the quotes of a quoted text gives the text back, whatever it
/// holds (quotes included).
pub proof fn lemma_strip_quotes_of_quoted(s: Seq<char>)
    ensures
        strip_quotes_spec(seq!['"'] + s + seq!['"']) == s,
{
    let q = seq!['"'] + s + seq!['"'];
    assert(q.last() == '"');
    assert(q.drop_last() =~= seq!['"'] + s);
    assert((seq!['"'] + s).drop_first() =~= s);
}

/// Removes one `"` from the end and then one from the start of `s`, where
/// present: `"\"rs\""` gives `rs`, a lone `"` gives the empty string.
pub fn strip_quotes(s: &str) -> (r: &str)
    ensures
        r@ == strip_quotes_spec(s@),
{
    let n = s.unicode_len();
    let mut end = n;
    if n > 0 && s.get_char(n - 1) == '"' {
        end = n - 1;
    }
    let mut start: usize = 0;
    if end > 0 && s.get_char(0) == '"' {
        start = 1;
    }
    let r = s.substring_char(start, end);
    assert(r@ =~= strip_quotes_spec(s@));
    r
}

/// The decimal digit character of `d` (0 to 9).
pub open spec fn digit_char(d: nat) -> char {
    if d == 0 {
        '0'
    } else if d == 1 {
        '1'
    } else if d == 2 {
        '2'
    } else if d == 3 {
        '3'
    } else if d == 4 {
        '4'
    } else if d == 5 {
        '5'
    } else if d == 6 {
        '6'
    } else if d == 7 {
        '7'
    } else if d == 8 {
        '8'
    } else {
        '9'
    }
}

/// The decimal notation of `n`, without sign or leading zeros.
pub open spec fn decimal(n: nat) -> Seq<char>
    decreases n,
{
    if n < 10 {
        seq![digit_char(n)]
    } else {
        decimal(n / 10).push(digit_char(n % 10))
    }
}

fn digit(d: u32) -> (c: char)
    requires
        d < 10,
    ensures
        c == digit_char(d as nat),
{
    if d == 0 {
        '0'
    } else if d == 1 {
        '1'
    } else if d == 2 {
        '2'
    } else if d == 3 {
        '3'
    } else if d == 4 {
        '4'
    } else if d == 5 {
        '5'
    } else if d == 6 {
        '6'
    } else if d == 7 {
        '7'
    } else if d == 8 {
        '8'
    } else {
        '9'
    }
}

/// Appends the decimal notation of `n` to `s`.
pub fn push_decimal(s: &mut String, n: u32)
    ensures
        final(s)@ == old(s)@ + decimal(n as nat),
    decreases n,
{
    if n >= 10 {
        push_decimal(s, n / 10);
    }
    string_push(s, digit(n % 10));
    assert(final(s)@ =~= old(s)@ + decimal(n as nat));
}

/// Whether `pat` occurs in `s` starting at index `i`.
pub open spec fn occurs_at(s: Seq<char>, pat: Seq<char>, i: int) -> bool {
    0 <= i && i + pat.len() <= s.len() && s.subrange(i, i + pat.len()) == pat
}

/// Whether `pat` occurs anywhere in `s`.
pub open spec fn occurs_in(s: Seq<char>, pat: Seq<char>) -> bool {
    exists|i: int| occurs_at(s, pat, i)
}

/// The index at which `pat` first occurs in `s`, if anywhere.
pub open spec fn first_occurrence(s: Seq<char>, pat: Seq<char>) -> Option<int> {
    if occurs_in(s, pat) {
        Some(choose|i: int| occurs_at(s, pat, i) && forall|j: int| 0 <= j < i ==> !occurs_at(s, pat, j))
    } else {
        None
    }
}

/// Whether `pat` occurs in `s` at `i` and nowhere before `i`.
pub open spec fn is_first_occurrence(s: Seq<char>, pat: Seq<char>, i: int) -> bool {
    occurs_at(s, pat, i) && forall|j: int| 0 <= j < i ==> !occurs_at(s, pat, j)
}

fn matches_at(s: &str, n: usize, pat: &str, m: usize, i: usize) -> (b: bool)
    requires
        n == s@.len(),
        m == pat@.len(),
        i + m <= n,
    ensures
        b == occurs_at(s@, pat@, i as int),
{
    let mut k: usize = 0;
    while k < m
        invariant
            n == s@.len(),
            m == pat@.len(),
            i + m <= n,
            k <= m,
            forall|j: int| 0 <= j < k ==> s@[i + j] == pat@[j],
        decreases m - k,
    {
        if s.get_char(i + k) != pat.get_char(k) {
            assert(s@.subrange(i as int, i + m)[k as int] != pat@[k as int]);
            return false;
        }
        k = k + 1;
    }
    assert(s@.subrange(i as int, i + m) =~= pat@);
    true
}

/// The index of the first occurrence of `pat` in `s`, counted in
/// characters, or `None` where `pat` does not occur.
pub fn find(s: &str, pat: &str) -> (r: Option<usize>)
    ensures
        match r {
            Some(i) => is_first_occurrence(s@, pat@, i as int),
            None => !occurs_in(s@, pat@),
        },
{
    let n = s.unicode_len();
    let m = pat.unicode_len();
    if m > n {
        assert forall|i: int| !occurs_at(s@, pat@, i) by {}
        return None;
    }
    if m == 0 {
        assert(s@.subrange(0, 0) =~= pat@);
        return Some(0);
    }
    let mut i: usize = 0;
    while i <= n - m
        invariant
            n == s@.len(),
            m == pat@.len(),
            0 < m <= n,
            i <= n - m + 1,
            forall|j: int| 0 <= j < i ==> !occurs_at(s@, pat@, j),
        decreases n - m + 1 - i,
    {
        if matches_at(s, n, pat, m, i) {
            return Some(i);
        }
        i = i + 1;
    }
    assert forall|j: int| !occurs_at(s@, pat@, j) by {
        if 0 <= j < i {
        }
    }
    None
}

/// Whether two strings hold the same characters.
pub fn str_eq(a: &str, b: &str) -> (r: bool)
    ensures
        r == (a@ == b@),
{
    let n = a.unicode_len();
    let m = b.unicode_len();
    if n != m {
        return false;
    }
    let mut k: usize = 0;
    while k < n
        invariant
            n == a@.len(),
            m == b@.len(),
            n == m,
            k <= n,
            forall|j: int| 0 <= j < k ==> a@[j] == b@[j],
        decreases n - k,
    {
        if a.get_char(k) != b.get_char(k) {
            return false;
        }
        k = k + 1;
    }
    assert(a@ =~= b@);
    true
}

} // verus!
