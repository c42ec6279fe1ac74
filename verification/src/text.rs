//! Text helpers shared by the modules of this crate: conversion between
//! strings and character vectors, search and replacement.
//!
//! Strings are modelled by their view, a `Seq<char>`.

use vstd::prelude::*;
use vstd::string::StringExecFns;

verus! {

/// `String::push` of std: the character is appended at the end.
#[verifier::external_body]
pub(crate) fn push_char(s: &mut String, c: char)
    ensures
        final(s)@ == old(s)@.push(c),
{
    s.push(c)
}

/// The characters of a string slice, in order.
pub fn chars_of(s: &str) -> (v: Vec<char>)
    ensures
        v@ == s@,
{
    let mut v: Vec<char> = Vec::new();
    for c in it: s.chars()
        invariant
            it.seq() == s@,
            v@ == s@.take(it.index() as int),
    {
        v.push(c);
    }
    v
}

/// Appends the characters of `chars` to `s`.
pub fn push_chars(s: &mut String, chars: &[char])
    ensures
        final(s)@ == old(s)@ + chars@,
{
    let mut i: usize = 0;
    while i < chars.len()
        invariant
            i <= chars.len(),
            s@ == old(s)@ + chars@.take(i as int),
        decreases chars.len() - i,
    {
        push_char(s, chars[i]);
        i += 1;
    }
}

/// The string made of the characters of `chars`, in order.
pub fn string_of(chars: &[char]) -> (s: String)
    ensures
        s@ == chars@,
{
    let mut s = String::new();
    push_chars(&mut s, chars);
    s
}

/// Whether `pat` stands in `s` at index `i`.
pub open spec fn occurs_at(s: Seq<char>, pat: Seq<char>, i: int) -> bool {
    0 <= i && i + pat.len() <= s.len() && s.subrange(i, i + pat.len()) == pat
}

/// Whether `i` is the first index at which `pat` stands in `s`.
pub open spec fn first_at(s: Seq<char>, pat: Seq<char>, i: int) -> bool {
    occurs_at(s, pat, i) && forall|j: int| 0 <= j < i ==> !occurs_at(s, pat, j)
}

/// The index of the first place at which `pat` stands in `s`, if it stands
/// anywhere.
pub open spec fn first_occurrence(s: Seq<char>, pat: Seq<char>) -> Option<int> {
    if exists|i: int| first_at(s, pat, i) {
        Some(choose|i: int| first_at(s, pat, i))
    } else {
        None
    }
}

/// The first occurrence is where `i` is, once `pat` stands at `i` and
/// nowhere before.
pub proof fn lemma_first_occurrence(s: Seq<char>, pat: Seq<char>, i: int)
    requires
        first_at(s, pat, i),
    ensures
        first_occurrence(s, pat) == Some(i),
{
    let w = choose|w: int| first_at(s, pat, w);
    if w < i {
        assert(!occurs_at(s, pat, w));
    } else if i < w {
        assert(!occurs_at(s, pat, i));
    }
}

/// There is no first occurrence where `pat` stands nowhere in `s`.
pub proof fn lemma_no_occurrence(s: Seq<char>, pat: Seq<char>)
    requires
        forall|j: int| 0 <= j <= s.len() ==> !occurs_at(s, pat, j),
    ensures
        first_occurrence(s, pat) == None::<int>,
{
    if exists|i: int| first_at(s, pat, i) {
        let w = choose|w: int| first_at(s, pat, w);
        assert(!occurs_at(s, pat, w));
    }
}

/// `s` with `to` before each of its characters and after the last.
pub open spec fn interleaved(s: Seq<char>, to: Seq<char>) -> Seq<char>
    decreases s.len(),
{
    if s.len() == 0 {
        to
    } else {
        to + seq![s[0]] + interleaved(s.skip(1), to)
    }
}

/// `s` with every occurrence of `from` replaced by `to`: occurrences are
/// taken from the left and do not overlap. An empty `from` occurs before
/// each character and at the end.
pub open spec fn replaced(s: Seq<char>, from: Seq<char>, to: Seq<char>) -> Seq<char>
    decreases s.len(),
{
    if from.len() == 0 {
        interleaved(s, to)
    } else if s.len() < from.len() {
        s
    } else if occurs_at(s, from, 0) {
        to + replaced(s.skip(from.len() as int), from, to)
    } else {
        seq![s[0]] + replaced(s.skip(1), from, to)
    }
}

/// Whether `pat` stands in `s` at index `i`.
pub fn matches_at(s: &[char], pat: &[char], i: usize) -> (r: bool)
    ensures
        r == occurs_at(s@, pat@, i as int),
{
    if i > s.len() || pat.len() > s.len() - i {
        return false;
    }
    let mut k: usize = 0;
    while k < pat.len()
        invariant
            k <= pat.len(),
            i + pat.len() <= s.len(),
            forall|j: int| 0 <= j < k ==> s@[i + j] == pat@[j],
        decreases pat.len() - k,
    {
        if s[i + k] != pat[k] {
            assert(s@.subrange(i as int, i + pat.len())[k as int] != pat@[k as int]);
            return false;
        }
        k += 1;
    }
    assert(s@.subrange(i as int, i + pat.len()) =~= pat@);
    true
}

/// The index of the first place at which `pat` stands in `s`.
pub fn find(s: &[char], pat: &[char]) -> (r: Option<usize>)
    ensures
        match r {
            Some(i) => first_at(s@, pat@, i as int) && first_occurrence(s@, pat@) == Some(
                i as int,
            ),
            None => first_occurrence(s@, pat@) == None::<int> && forall|j: int|
                !occurs_at(s@, pat@, j),
        },
{
    let mut i: usize = 0;
    loop
        invariant
            i <= s.len(),
            forall|j: int| 0 <= j < i ==> !occurs_at(s@, pat@, j),
        decreases s.len() - i,
    {
        if matches_at(s, pat, i) {
            proof {
                lemma_first_occurrence(s@, pat@, i as int);
            }
            return Some(i);
        }
        if i == s.len() {
            proof {
                lemma_no_occurrence(s@, pat@);
            }
            return None;
        }
        i += 1;
    }
}

/// Appends to `out` the characters of `s` with every occurrence of `from`
/// replaced by `to`.
pub fn push_replaced(out: &mut Vec<char>, s: &[char], from: &[char], to: &[char])
    ensures
        final(out)@ == old(out)@ + replaced(s@, from@, to@),
{
    let n = s.len();
    let m = from.len();
    let mut i: usize = 0;
    assert(s@.skip(0) =~= s@);
    if m == 0 {
        while i < n
            invariant
                i <= n,
                n == s@.len(),
                out@ + interleaved(s@.skip(i as int), to@) == old(out)@ + interleaved(s@, to@),
            decreases n - i,
        {
            let ghost rest = s@.skip(i as int);
            assert(rest.skip(1) =~= s@.skip(i + 1));
            let ghost before = out@;
            out.extend_from_slice(to);
            out.push(s[i]);
            assert(out@ =~= before + to@ + seq![rest[0]]);
            assert(out@ + interleaved(rest.skip(1), to@) =~= before + interleaved(rest, to@));
            i += 1;
        }
        out.extend_from_slice(to);
        return ;
    }
    while i < n
        invariant
            i <= n,
            n == s@.len(),
            m == from@.len(),
            m > 0,
            out@ + replaced(s@.skip(i as int), from@, to@) == old(out)@ + replaced(
                s@,
                from@,
                to@,
            ),
        decreases n - i,
    {
        let ghost rest = s@.skip(i as int);
        let ghost before = out@;
        let hit = matches_at(s, from, i);
        assert(hit == occurs_at(rest, from@, 0)) by {
            if i + m <= n {
                assert(rest.subrange(0, m as int) =~= s@.subrange(i as int, i + m));
            }
        }
        if hit {
            out.extend_from_slice(to);
            assert(rest.skip(m as int) =~= s@.skip(i + m));
            assert(out@ + replaced(rest.skip(m as int), from@, to@) =~= before + replaced(
                rest,
                from@,
                to@,
            ));
            i += m;
        } else {
            out.push(s[i]);
            assert(rest.skip(1) =~= s@.skip(i + 1));
            assert(replaced(rest, from@, to@) =~= seq![rest[0]] + replaced(
                rest.skip(1),
                from@,
                to@,
            )) by {
                if rest.len() < m {
                    lemma_replaced_short(rest.skip(1), from@, to@);
                    assert(seq![rest[0]] + rest.skip(1) =~= rest);
                }
            }
            assert(out@ + replaced(rest.skip(1), from@, to@) =~= before + replaced(
                rest,
                from@,
                to@,
            ));
            i += 1;
        }
    }
    assert(s@.skip(i as int) =~= Seq::<char>::empty());
}

/// A text shorter than the pattern holds no occurrence of it.
pub proof fn lemma_replaced_short(s: Seq<char>, from: Seq<char>, to: Seq<char>)
    requires
        s.len() < from.len(),
    ensures
        replaced(s, from, to) == s,
{
}

/// `s` with every occurrence of `from` replaced by `to`.
pub fn replace(s: &str, from: &str, to: &str) -> (r: String)
    ensures
        r@ == replaced(s@, from@, to@),
{
    let mut out: Vec<char> = Vec::new();
    let text = chars_of(s);
    let pat = chars_of(from);
    let sub = chars_of(to);
    push_replaced(&mut out, text.as_slice(), pat.as_slice(), sub.as_slice());
    assert(out@ =~= replaced(s@, from@, to@));
    string_of(out.as_slice())
}

/// What stands in `s` from the first occurrence of `pat` on, `pat`
/// included, if `pat` occurs.
pub open spec fn from_first(s: Seq<char>, pat: Seq<char>) -> Option<Seq<char>> {
    match first_occurrence(s, pat) {
        Some(i) => Some(s.skip(i)),
        None => None,
    }
}

/// What stands in `s` before the first occurrence of `pat`, if `pat`
/// occurs.
pub open spec fn up_to_first(s: Seq<char>, pat: Seq<char>) -> Option<Seq<char>> {
    match first_occurrence(s, pat) {
        Some(i) => Some(s.take(i)),
        None => None,
    }
}

/// The part of `s` from the first occurrence of `pat` on.
pub fn tail_from(s: &str, pat: &str) -> (r: Option<String>)
    ensures
        opt_chars(r) == from_first(s@, pat@),
{
    let text = chars_of(s);
    let p = chars_of(pat);
    match find(text.as_slice(), p.as_slice()) {
        Some(i) => {
            let part = vstd::slice::slice_subrange(text.as_slice(), i, text.len());
            assert(part@ =~= s@.skip(i as int));
            Some(string_of(part))
        },
        None => None,
    }
}

/// The part of `s` before the first occurrence of `pat`.
pub fn head_before(s: &str, pat: &str) -> (r: Option<String>)
    ensures
        opt_chars(r) == up_to_first(s@, pat@),
{
    let text = chars_of(s);
    let p = chars_of(pat);
    match find(text.as_slice(), p.as_slice()) {
        Some(i) => {
            let part = vstd::slice::slice_subrange(text.as_slice(), 0, i);
            assert(part@ =~= s@.take(i as int));
            Some(string_of(part))
        },
        None => None,
    }
}

/// The characters of an optional string.
pub open spec fn opt_chars(o: Option<String>) -> Option<Seq<char>> {
    match o {
        Some(s) => Some(s@),
        None => None,
    }
}

/// The texts of `items` in order, with `sep` between each two.
pub open spec fn joined(items: Seq<Seq<char>>, sep: Seq<char>) -> Seq<char>
    decreases items.len(),
{
    if items.len() == 0 {
        Seq::empty()
    } else if items.len() == 1 {
        items[0]
    } else {
        joined(items.drop_last(), sep) + sep + items.last()
    }
}

/// The characters of each string, in order.
pub open spec fn texts(items: Seq<String>) -> Seq<Seq<char>> {
    Seq::new(items.len(), |i: int| items[i]@)
}

/// The strings of `items` in order, with `sep` between each two.
pub fn join(items: &Vec<String>, sep: &str) -> (r: String)
    ensures
        r@ == joined(texts(items@), sep@),
{
    let mut r = String::new();
    let mut i: usize = 0;
    while i < items.len()
        invariant
            i <= items.len(),
            r@ == joined(texts(items@).take(i as int), sep@),
        decreases items.len() - i,
    {
        let ghost seen = texts(items@).take(i as int);
        let ghost next = texts(items@).take(i + 1);
        assert(next.drop_last() =~= seen);
        assert(next.last() == items@[i as int]@);
        if i > 0 {
            r.append(sep);
        }
        r.append(items[i].as_str());
        assert(r@ =~= joined(next, sep@));
        i += 1;
    }
    assert(texts(items@).take(i as int) =~= texts(items@));
    r
}

} // verus!
