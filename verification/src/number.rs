//! Recognition of the numbers that users type into amount and offset fields.

use vstd::prelude::*;
use crate::text::{all_digits, is_digit};

verus! {

/// The text as the number parser reads it: every `,` becomes `.` (a decimal
/// comma is accepted) and every `_` is dropped.
pub open spec fn normalized_number_text(s: Seq<char>) -> Seq<char>
    decreases s.len(),
{
    if s.len() == 0 {
        s
    } else {
        let rest = normalized_number_text(s.drop_last());
        let c = s.last();
        if c == '_' {
            rest
        } else if c == ',' {
            rest.push('.')
        } else {
            rest.push(c)
        }
    }
}

/// ASCII lower case of a character; other characters are unchanged.
pub open spec fn ascii_lower(c: char) -> char {
    if 'A' <= c && c <= 'Z' {
        ((c as u32) + 32) as char
    } else {
        c
    }
}

/// True when `s`, read without regard to ASCII case, is `word`.
pub open spec fn equals_ignoring_case(s: Seq<char>, word: Seq<char>) -> bool {
    &&& s.len() == word.len()
    &&& forall|i: int| 0 <= i < s.len() ==> ascii_lower(#[trigger] s[i]) == word[i]
}

/// True for `+` and `-`.
pub open spec fn is_sign(c: char) -> bool {
    c == '+' || c == '-'
}

/// The number of characters at the front of `s` that are neither `a` nor `b`.
pub open spec fn first_of(s: Seq<char>, a: char, b: char) -> nat
    decreases s.len(),
{
    if s.len() == 0 {
        0
    } else if s[0] == a || s[0] == b {
        0
    } else {
        1 + first_of(s.drop_first(), a, b)
    }
}

/// The exponent part of a decimal literal: empty, or `e`/`E`, an optional
/// sign and at least one digit.
pub open spec fn exponent_ok(x: Seq<char>) -> bool {
    x.len() == 0 || ({
        let r = x.drop_first();
        let d = if r.len() > 0 && is_sign(r[0]) { r.drop_first() } else { r };
        (x[0] == 'e' || x[0] == 'E') && d.len() > 0 && all_digits(d)
    })
}

/// The mantissa of a decimal literal: digits, at most one `.`, and at least
/// one digit in all.
pub open spec fn mantissa_ok(m: Seq<char>) -> bool {
    let p = first_of(m, '.', '.');
    let int_part = m.take(p as int);
    let frac = if p < m.len() { m.skip(p + 1 as int) } else { Seq::<char>::empty() };
    all_digits(int_part) && all_digits(frac) && int_part.len() + frac.len() > 0
}

/// A decimal literal: mantissa followed by an optional exponent.
pub open spec fn decimal_ok(b: Seq<char>) -> bool {
    let e = first_of(b, 'e', 'E');
    mantissa_ok(b.take(e as int)) && exponent_ok(b.skip(e as int))
}

/// The grammar that the documentation of std's `f64::from_str` gives:
/// an optional sign, then `inf`, `infinity`, `nan` (in any ASCII case) or a
/// decimal literal.
pub open spec fn float_text_ok(s: Seq<char>) -> bool {
    let b = if s.len() > 0 && is_sign(s[0]) { s.drop_first() } else { s };
    ||| equals_ignoring_case(b, seq!['i', 'n', 'f'])
    ||| equals_ignoring_case(b, seq!['i', 'n', 'f', 'i', 'n', 'i', 't', 'y'])
    ||| equals_ignoring_case(b, seq!['n', 'a', 'n'])
    ||| decimal_ok(b)
}

/// True when the user's text is a number: after the normalisation of
/// `normalized_number_text` it follows the float grammar.
pub open spec fn is_number_text(s: Seq<char>) -> bool {
    float_text_ok(normalized_number_text(s))
}

/// The index characterisation of `first_of`.
pub proof fn lemma_first_of(s: Seq<char>, a: char, b: char, k: int)
    requires
        0 <= k <= s.len(),
        forall|j: int| 0 <= j < k ==> s[j] != a && s[j] != b,
        k == s.len() || s[k] == a || s[k] == b,
    ensures
        first_of(s, a, b) == k,
    decreases k,
{
    if k > 0 {
        assert forall|j: int| 0 <= j < k - 1 implies s.drop_first()[j] != a && s.drop_first()[j] != b by {
            assert(s.drop_first()[j] == s[j + 1]);
        }
        if k < s.len() {
            assert(s.drop_first()[k - 1] == s[k]);
        }
        lemma_first_of(s.drop_first(), a, b, k - 1);
    }
}

/// Removes every `_` and turns every `,` into `.`.
pub fn normalize_number_text(s: &Vec<char>) -> (r: Vec<char>)
    ensures
        r@ == normalized_number_text(s@),
{
    let mut r: Vec<char> = Vec::new();
    let mut i: usize = 0;
    while i < s.len()
        invariant
            i <= s.len(),
            r@ == normalized_number_text(s@.take(i as int)),
        decreases s.len() - i,
    {
        let c = s[i];
        proof {
            assert(s@.take(i as int + 1).drop_last() =~= s@.take(i as int));
        }
        if c == '_' {
        } else if c == ',' {
            r.push('.');
        } else {
            r.push(c);
        }
        i = i + 1;
    }
    assert(s@.take(s.len() as int) =~= s@);
    r
}

/// The first index in `from..to` holding `a` or `b`, or `to`.
fn find_first(s: &Vec<char>, from: usize, to: usize, a: char, b: char) -> (k: usize)
    requires
        from <= to <= s.len(),
    ensures
        from <= k <= to,
        first_of(s@.subrange(from as int, to as int), a, b) == k - from,
{
    let mut k = from;
    while k < to && s[k] != a && s[k] != b
        invariant
            from <= k <= to <= s.len(),
            forall|j: int| from <= j < k ==> s@[j] != a && s@[j] != b,
        decreases to - k,
    {
        k = k + 1;
    }
    proof {
        let sub = s@.subrange(from as int, to as int);
        lemma_first_of(sub, a, b, k - from);
    }
    k
}

/// True when `s[from..to]` is made of digits only.
fn digits_only(s: &Vec<char>, from: usize, to: usize) -> (ok: bool)
    requires
        from <= to <= s.len(),
    ensures
        ok == all_digits(s@.subrange(from as int, to as int)),
{
    let mut k = from;
    while k < to
        invariant
            from <= k <= to <= s.len(),
            forall|j: int| from <= j < k ==> is_digit(s@[j]),
        decreases to - k,
    {
        if !('0' <= s[k] && s[k] <= '9') {
            assert(s@.subrange(from as int, to as int)[k - from] == s@[k as int]);
            return false;
        }
        k = k + 1;
    }
    assert forall|j: int| 0 <= j < to - from implies is_digit(#[trigger] s@.subrange(from as int, to as int)[j]) by {
        assert(s@.subrange(from as int, to as int)[j] == s@[from + j]);
    }
    true
}

/// Lower case of an ASCII letter.
fn lower(c: char) -> (r: char)
    ensures
        r == ascii_lower(c),
{
    if 'A' <= c && c <= 'Z' {
        ((c as u32) + 32) as u8 as char
    } else {
        c
    }
}

/// True when `s[from..]` is `word` regardless of ASCII case.
fn matches_word(s: &Vec<char>, from: usize, word: &Vec<char>) -> (ok: bool)
    requires
        from <= s.len(),
    ensures
        ok == equals_ignoring_case(s@.skip(from as int), word@),
{
    if s.len() - from != word.len() {
        return false;
    }
    let mut k: usize = 0;
    while k < word.len()
        invariant
            from <= s.len(),
            s.len() - from == word.len(),
            k <= word.len(),
            forall|j: int| 0 <= j < k ==> ascii_lower(s@[from + j]) == word@[j],
        decreases word.len() - k,
    {
        if lower(s[from + k]) != word[k] {
            assert(s@.skip(from as int)[k as int] == s@[from + k]);
            return false;
        }
        k = k + 1;
    }
    assert forall|j: int| 0 <= j < s@.skip(from as int).len() implies ascii_lower(#[trigger] s@.skip(from as int)[j]) == word@[j] by {
        assert(s@.skip(from as int)[j] == s@[from + j]);
    }
    true
}

/// True when `s[e..]` is an exponent part.
fn exponent_at(s: &Vec<char>, e: usize) -> (ok: bool)
    requires
        e <= s.len(),
    ensures
        ok == exponent_ok(s@.subrange(e as int, s.len() as int)),
{
    let n = s.len();
    let ghost x = s@.subrange(e as int, n as int);
    if e == n {
        return true;
    }
    assert(x[0] == s@[e as int]);
    let sign_at = e + 1;
    let d = if sign_at < n && (s[sign_at] == '+' || s[sign_at] == '-') { sign_at + 1 } else { sign_at };
    let ghost r = x.drop_first();
    assert(r =~= s@.subrange(sign_at as int, n as int));
    if sign_at < n {
        assert(r[0] == s@[sign_at as int]);
    }
    let ghost dd = if r.len() > 0 && is_sign(r[0]) { r.drop_first() } else { r };
    assert(dd =~= s@.subrange(d as int, n as int));
    (s[e] == 'e' || s[e] == 'E') && d < n && digits_only(s, d, n)
}

/// True when `s[from..to]` is a mantissa.
fn mantissa_at(s: &Vec<char>, from: usize, to: usize) -> (ok: bool)
    requires
        from <= to <= s.len(),
    ensures
        ok == mantissa_ok(s@.subrange(from as int, to as int)),
{
    let ghost m = s@.subrange(from as int, to as int);
    let p = find_first(s, from, to, '.', '.');
    assert(m.take(p - from) =~= s@.subrange(from as int, p as int));
    let int_ok = digits_only(s, from, p);
    let frac_from = if p < to { p + 1 } else { to };
    if p < to {
        assert(m.skip(p - from + 1) =~= s@.subrange(frac_from as int, to as int));
    } else {
        assert(s@.subrange(frac_from as int, to as int) =~= Seq::<char>::empty());
    }
    let frac_ok = digits_only(s, frac_from, to);
    int_ok && frac_ok && (p - from) + (to - frac_from) > 0
}

/// True when `s` follows the grammar of std's `f64::from_str`.
pub fn float_text(s: &Vec<char>) -> (ok: bool)
    ensures
        ok == float_text_ok(s@),
{
    let start: usize = if s.len() > 0 && (s[0] == '+' || s[0] == '-') { 1 } else { 0 };
    let ghost b = if s@.len() > 0 && is_sign(s@[0]) { s@.drop_first() } else { s@ };
    assert(b =~= s@.skip(start as int));
    let inf = vec!['i', 'n', 'f'];
    let infinity = vec!['i', 'n', 'f', 'i', 'n', 'i', 't', 'y'];
    let nan = vec!['n', 'a', 'n'];
    assert(inf@ =~= seq!['i', 'n', 'f']);
    assert(infinity@ =~= seq!['i', 'n', 'f', 'i', 'n', 'i', 't', 'y']);
    assert(nan@ =~= seq!['n', 'a', 'n']);
    if matches_word(s, start, &inf) || matches_word(s, start, &infinity) || matches_word(s, start, &nan) {
        return true;
    }
    let n = s.len();
    let e = find_first(s, start, n, 'e', 'E');
    assert(s@.subrange(start as int, n as int) =~= b);
    assert(b.skip(e - start) =~= s@.subrange(e as int, n as int));
    assert(b.take(e - start) =~= s@.subrange(start as int, e as int));
    let exp_ok = exponent_at(s, e);
    let mant_ok = mantissa_at(s, start, e);
    exp_ok && mant_ok
}

/// True when the user's text is a number in the sense of `is_number_text`.
pub fn is_number(s: &str) -> (ok: bool)
    ensures
        ok == is_number_text(s@),
{
    let chars = crate::text::str_chars(s);
    let normalized = normalize_number_text(&chars);
    float_text(&normalized)
}

} // verus!
