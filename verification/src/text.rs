//! Literal substring search and replacement on sequences of characters.

use vstd::prelude::*;

verus! {

/// `pat` occurs in `s` starting at index `i`.
pub open spec fn occurs_at(s: Seq<char>, pat: Seq<char>, i: int) -> bool {
    &&& 0 <= i
    &&& i + pat.len() <= s.len()
    &&& s.subrange(i, i + pat.len()) == pat
}

/// `pat` occurs somewhere in `s`. The empty pattern occurs in every sequence.
pub open spec fn contains(s: Seq<char>, pat: Seq<char>) -> bool {
    exists|i: int| occurs_at(s, pat, i)
}

/// `s` with every occurrence of `from` replaced by `to`, scanning from the
/// left and resuming after each replaced occurrence. An empty `from` matches
/// before every character and once more at the end.
pub open spec fn replace_all(s: Seq<char>, from: Seq<char>, to: Seq<char>) -> Seq<char>
    decreases s.len(),
{
    if from.len() == 0 {
        if s.len() == 0 {
            to
        } else {
            to + seq![s[0]] + replace_all(s.skip(1), from, to)
        }
    } else if s.len() < from.len() {
        s
    } else if occurs_at(s, from, 0) {
        to + replace_all(s.skip(from.len() as int), from, to)
    } else {
        seq![s[0]] + replace_all(s.skip(1), from, to)
    }
}

/// `s` with every `from` character turned into `to`.
pub open spec fn swap_char(s: Seq<char>, from: char, to: char) -> Seq<char> {
    Seq::new(s.len(), |i: int| if s[i] == from { to } else { s[i] })
}

/// The characters of a string, in order.
pub fn to_chars(s: &str) -> (v: Vec<char>)
    ensures
        v@ == s@,
{
    let mut v: Vec<char> = Vec::new();
    let mut it = s.chars();
    for c in iter: it
        invariant
            v@ == iter.seq().take(iter.index()),
    {
        v.push(c);
    }
    v
}

/// Appends one character to a string.
///
/// Trusted: `String::push` of the standard library, which the documentation
/// describes as appending the given character to the end of the string.
#[verifier::external_body]
fn push_char(s: &mut String, c: char)
    ensures
        final(s)@ == old(s)@.push(c),
{
    s.push(c);
}

/// The string made of the given characters, in order.
pub fn from_chars(v: &Vec<char>) -> (s: String)
    ensures
        s@ == v@,
{
    let mut s = String::new();
    let mut i: usize = 0;
    while i < v.len()
        invariant
            i <= v.len(),
            s@ == v@.take(i as int),
        decreases v.len() - i,
    {
        push_char(&mut s, v[i]);
        i = i + 1;
        assert(v@.take(i as int) == v@.take(i - 1).push(v@[i - 1]));
    }
    assert(v@.take(v.len() as int) == v@);
    s
}

/// The string that holds the one character `c`.
pub fn single(c: char) -> (s: String)
    ensures
        s@ == seq![c],
{
    let mut s = String::new();
    push_char(&mut s, c);
    assert(s@ =~= seq![c]);
    s
}

/// Tells whether `pat` occurs in `s` at index `i`.
pub fn occurs_at_index(s: &Vec<char>, pat: &Vec<char>, i: usize) -> (b: bool)
    ensures
        b == occurs_at(s@, pat@, i as int),
{
    if pat.len() > s.len() || i > s.len() - pat.len() {
        return false;
    }
    let mut k: usize = 0;
    while k < pat.len()
        invariant
            k <= pat.len(),
            i + pat.len() <= s.len(),
            forall|j: int| 0 <= j < k ==> s@[i + j] == pat@[j],
        decreases pat.len() - k,
    {
        if s[i + k] != pat[k] {
            assert(s@.subrange(i as int, i + pat.len())[k as int] == s@[i + k]);
            return false;
        }
        k = k + 1;
    }
    assert(s@.subrange(i as int, i + pat.len()) =~= pat@);
    true
}

/// Tells whether `pat` occurs anywhere in `s`.
pub fn contains_chars(s: &Vec<char>, pat: &Vec<char>) -> (b: bool)
    ensures
        b == contains(s@, pat@),
{
    if pat.len() > s.len() {
        assert forall|i: int| !occurs_at(s@, pat@, i) by {}
        return false;
    }
    let last: usize = s.len() - pat.len();
    if occurs_at_index(s, pat, last) {
        return true;
    }
    let mut i: usize = 0;
    while i < last
        invariant
            i <= last,
            last == s.len() - pat.len(),
            !occurs_at(s@, pat@, last as int),
            forall|j: int| 0 <= j < i ==> !occurs_at(s@, pat@, j),
        decreases last - i,
    {
        if occurs_at_index(s, pat, i) {
            return true;
        }
        i = i + 1;
    }
    assert forall|j: int| !occurs_at(s@, pat@, j) by {}
    false
}

/// Appends all of `src` to `dst`.
fn append_chars(dst: &mut Vec<char>, src: &Vec<char>)
    ensures
        final(dst)@ == old(dst)@ + src@,
{
    let mut k: usize = 0;
    while k < src.len()
        invariant
            k <= src.len(),
            dst@ == old(dst)@ + src@.take(k as int),
        decreases src.len() - k,
    {
        dst.push(src[k]);
        k = k + 1;
        assert(src@.take(k as int) == src@.take(k - 1).push(src@[k - 1]));
    }
    assert(src@.take(src.len() as int) == src@);
}

/// Replaces every occurrence of `from` in `s` by `to`.
pub fn replace_chars(s: &Vec<char>, from: &Vec<char>, to: &Vec<char>) -> (out: Vec<char>)
    ensures
        out@ == replace_all(s@, from@, to@),
{
    let mut out: Vec<char> = Vec::new();
    let mut i: usize = 0;
    assert(s@.skip(0) == s@);
    assert(out@ + replace_all(s@, from@, to@) == replace_all(s@, from@, to@));
    while i < s.len()
        invariant
            i <= s.len(),
            out@ + replace_all(s@.skip(i as int), from@, to@) == replace_all(s@, from@, to@),
        decreases s.len() - i,
    {
        let ghost rest = s@.skip(i as int);
        if from.len() == 0 {
            append_chars(&mut out, to);
            out.push(s[i]);
            assert(rest.skip(1) == s@.skip(i + 1));
            i = i + 1;
        } else if occurs_at_index(s, from, i) {
            assert(rest.subrange(0, from@.len() as int) == s@.subrange(
                i as int,
                i + from@.len(),
            ));
            append_chars(&mut out, to);
            assert(rest.skip(from@.len() as int) == s@.skip(i + from@.len()));
            i = i + from.len();
        } else {
            assert(rest.len() >= from@.len() ==> rest.subrange(0, from@.len() as int)
                == s@.subrange(i as int, i + from@.len()));
            if s.len() - i < from.len() {
                append_tail(&mut out, s, i);
                assert(out@ == replace_all(s@, from@, to@));
                return out;
            }
            out.push(s[i]);
            assert(rest.skip(1) == s@.skip(i + 1));
            i = i + 1;
        }
    }
    if from.len() == 0 {
        append_chars(&mut out, to);
    }
    assert(s@.skip(s.len() as int).len() == 0);
    out
}

/// Appends the characters of `s` from index `i` on to `dst`.
fn append_tail(dst: &mut Vec<char>, s: &Vec<char>, i: usize)
    requires
        i <= s.len(),
    ensures
        final(dst)@ == old(dst)@ + s@.skip(i as int),
{
    let mut k: usize = i;
    while k < s.len()
        invariant
            i <= k <= s.len(),
            dst@ == old(dst)@ + s@.subrange(i as int, k as int),
        decreases s.len() - k,
    {
        dst.push(s[k]);
        k = k + 1;
        assert(s@.subrange(i as int, k as int) == s@.subrange(i as int, k - 1).push(s@[k - 1]));
    }
    assert(s@.subrange(i as int, s.len() as int) == s@.skip(i as int));
}

/// Turns every `from` character of `s` into `to`.
pub fn swap_chars(s: &Vec<char>, from: char, to: char) -> (out: Vec<char>)
    ensures
        out@ == swap_char(s@, from, to),
{
    let mut out: Vec<char> = Vec::new();
    let mut i: usize = 0;
    while i < s.len()
        invariant
            i <= s.len(),
            out@.len() == i,
            forall|j: int| 0 <= j < i ==> out@[j] == (if s@[j] == from { to } else { s@[j] }),
        decreases s.len() - i,
    {
        let c = s[i];
        out.push(if c == from { to } else { c });
        i = i + 1;
    }
    assert(out@ =~= swap_char(s@, from, to));
    out
}

/// Tells whether the string `pat` occurs in the string `s`.
pub fn contains_str(s: &str, pat: &str) -> (b: bool)
    ensures
        b == contains(s@, pat@),
{
    let sv = to_chars(s);
    let pv = to_chars(pat);
    contains_chars(&sv, &pv)
}

/// The string `s` with every occurrence of `from` replaced by `to`.
pub fn replace_str(s: &str, from: &str, to: &str) -> (out: String)
    ensures
        out@ == replace_all(s@, from@, to@),
{
    let sv = to_chars(s);
    let fv = to_chars(from);
    let tv = to_chars(to);
    let ov = replace_chars(&sv, &fv, &tv);
    from_chars(&ov)
}

/// The string `s` with every `from` character turned into `to`.
pub fn swap_str(s: &str, from: char, to: char) -> (out: String)
    ensures
        out@ == swap_char(s@, from, to),
{
    let sv = to_chars(s);
    let ov = swap_chars(&sv, from, to);
    from_chars(&ov)
}

/// An occurrence in what is left of `s` after its first `k` characters is
/// an occurrence in `s`, `k` places further on.
pub proof fn lemma_occurs_in_suffix(s: Seq<char>, pat: Seq<char>, k: int, i: int)
    requires
        0 <= k <= s.len(),
        0 <= i,
    ensures
        occurs_at(s.skip(k), pat, i) == occurs_at(s, pat, i + k),
{
    if i + pat.len() <= s.len() - k {
        assert(s.skip(k).subrange(i, i + pat.len()) =~= s.subrange(i + k, i + k + pat.len()));
    }
}

/// Replacing a one-character pattern by one character swaps that character
/// wherever it stands.
pub proof fn lemma_replace_one_char(s: Seq<char>, from: char, to: char)
    ensures
        replace_all(s, seq![from], seq![to]) == swap_char(s, from, to),
    decreases s.len(),
{
    if s.len() > 0 {
        lemma_replace_one_char(s.skip(1), from, to);
        assert(s.subrange(0, 1) =~= seq![s[0]]);
        assert(occurs_at(s, seq![from], 0) <==> s[0] == from) by {
            if s[0] == from {
                assert(s.subrange(0, 1) =~= seq![from]);
            } else {
                assert(seq![from][0] == from);
            }
        }
        if s[0] == from {
            assert(seq![to] + swap_char(s.skip(1), from, to) =~= swap_char(s, from, to));
        } else {
            assert(seq![s[0]] + swap_char(s.skip(1), from, to) =~= swap_char(s, from, to));
        }
    } else {
        assert(swap_char(s, from, to) =~= s);
    }
}

/// A sequence in which the pattern does not occur is left as it is.
pub proof fn lemma_replace_without_occurrence(s: Seq<char>, from: Seq<char>, to: Seq<char>)
    requires
        !contains(s, from),
    ensures
        replace_all(s, from, to) == s,
    decreases s.len(),
{
    if from.len() == 0 {
        assert(s.subrange(0, 0) =~= from);
        assert(occurs_at(s, from, 0));
    } else if s.len() < from.len() {
    } else {
        assert(!occurs_at(s, from, 0));
        assert forall|i: int| !occurs_at(s.skip(1), from, i) by {
            if 0 <= i {
                lemma_occurs_in_suffix(s, from, 1, i);
            }
        }
        lemma_replace_without_occurrence(s.skip(1), from, to);
        assert(seq![s[0]] + s.skip(1) =~= s);
    }
}

} // verus!
