//! Normalisation of raw input: separators are dropped, letters are raised.

use vstd::prelude::*;
use crate::alphabet::{blank, uppercased, lower_letter, is_blank, to_uppercase, uppercased_is_stable};

verus! {

/// The normal form of a text: its characters in order, without the blank
/// ones, each in its uppercase form.
pub open spec fn normalized(s: Seq<char>) -> Seq<char>
    decreases s.len(),
{
    if s.len() == 0 {
        Seq::<char>::empty()
    } else if blank(s.last()) {
        normalized(s.drop_last())
    } else {
        normalized(s.drop_last()).push(uppercased(s.last()))
    }
}

/// A text that normalisation leaves as it is: no blank, no lowercase letter.
pub open spec fn is_normal(s: Seq<char>) -> bool {
    forall|i: int| 0 <= i < s.len() ==> !blank(#[trigger] s[i]) && !lower_letter(s[i])
}

/// `String::push` of the standard library: the string afterwards holds the
/// characters it held before, in order, and then `c`.
pub assume_specification[ String::push ](s: &mut String, c: char)
    ensures
        final(s)@ == old(s)@.push(c),
;

/// Collects the characters of `s` in order.
pub fn chars_of(s: &str) -> (v: Vec<char>)
    ensures
        v@ == s@,
{
    broadcast use vstd::string::axiom_spec_iter;

    let mut v: Vec<char> = Vec::new();
    for c in it: s.chars()
        invariant
            it.seq() == s@,
            v@ == s@.take(it.index() as int),
    {
        v.push(c);
        assert(s@.take(it.index() + 1) == s@.take(it.index() as int).push(c));
    }
    assert(s@.take(s@.len() as int) == s@);
    v
}

/// The text of `v[from..to]` as an owned string.
pub fn text_of(v: &Vec<char>, from: usize, to: usize) -> (s: String)
    requires
        from <= to <= v@.len(),
    ensures
        s@ == v@.subrange(from as int, to as int),
{
    let mut s = String::new();
    let mut i: usize = from;
    while i < to
        invariant
            from <= i <= to <= v@.len(),
            s@ == v@.subrange(from as int, i as int),
        decreases to - i,
    {
        s.push(v[i]);
        i += 1;
        assert(v@.subrange(from as int, i as int) == v@.subrange(from as int, i as int - 1).push(
            v@[i as int - 1],
        ));
    }
    s
}

/// The normal form of a sequence of characters.
pub fn normalize_chars(raw: &Vec<char>) -> (out: Vec<char>)
    ensures
        out@ == normalized(raw@),
{
    let mut out: Vec<char> = Vec::new();
    let mut i: usize = 0;
    while i < raw.len()
        invariant
            i <= raw@.len(),
            out@ == normalized(raw@.take(i as int)),
        decreases raw@.len() - i,
    {
        let c = raw[i];
        assert(raw@.take(i as int + 1).drop_last() == raw@.take(i as int));
        if !is_blank(c) {
            out.push(to_uppercase(c));
        }
        i += 1;
    }
    assert(raw@.take(i as int) == raw@);
    out
}

/// Strips the whitespace from `raw` and raises its letters to uppercase.
pub fn normalize(raw: &str) -> (out: String)
    ensures
        out@ == normalized(raw@),
{
    let chars = chars_of(raw);
    let clean = normalize_chars(&chars);
    let out = text_of(&clean, 0, clean.len());
    assert(clean@.subrange(0, clean@.len() as int) == clean@);
    out
}

/// A normal form holds no blank and no lowercase letter.
pub proof fn normalized_is_normal(s: Seq<char>)
    ensures
        is_normal(normalized(s)),
        normalized(s).len() <= s.len(),
    decreases s.len(),
{
    if s.len() > 0 {
        normalized_is_normal(s.drop_last());
        uppercased_is_stable(s.last());
    }
}

/// Normalisation leaves a text without blanks and lowercase letters as it is.
pub proof fn normal_text_is_fixed(s: Seq<char>)
    requires
        is_normal(s),
    ensures
        normalized(s) == s,
    decreases s.len(),
{
    if s.len() > 0 {
        normal_text_is_fixed(s.drop_last());
        assert(s.drop_last().push(s.last()) == s);
    }
}

/// Normalising twice gives what normalising once gives.
pub proof fn normalize_is_idempotent(s: Seq<char>)
    ensures
        normalized(normalized(s)) == normalized(s),
{
    normalized_is_normal(s);
    normal_text_is_fixed(normalized(s));
}

} // verus!
