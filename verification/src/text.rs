//! Character-level helpers shared by the parsers of this crate.

use vstd::prelude::*;

verus! {

/// True when `c` is one of the ASCII digits `0`..=`9`.
pub open spec fn is_digit(c: char) -> bool {
    '0' <= c && c <= '9'
}

/// The numeric value of an ASCII digit.
pub open spec fn digit_value(c: char) -> nat {
    (c as int - '0' as int) as nat
}

/// True when every character of `s` is an ASCII digit.
pub open spec fn all_digits(s: Seq<char>) -> bool {
    forall|i: int| 0 <= i < s.len() ==> is_digit(#[trigger] s[i])
}

/// The value of a string of decimal digits, most significant digit first.
pub open spec fn digits_value(s: Seq<char>) -> nat
    decreases s.len(),
{
    if s.len() == 0 {
        0
    } else {
        digits_value(s.drop_last()) * 10 + digit_value(s.last())
    }
}

/// The pieces of `s` between occurrences of `sep`, as `str::split` with a
/// one-character pattern yields them: `n` separators give `n + 1` pieces.
pub open spec fn split_seq(s: Seq<char>, sep: char) -> Seq<Seq<char>>
    decreases s.len(),
{
    if s.len() == 0 {
        seq![Seq::<char>::empty()]
    } else {
        let rest = split_seq(s.drop_last(), sep);
        if s.last() == sep {
            rest.push(Seq::<char>::empty())
        } else {
            rest.update(rest.len() - 1, rest.last().push(s.last()))
        }
    }
}

/// `split_seq` never yields an empty list of pieces.
pub proof fn lemma_split_nonempty(s: Seq<char>, sep: char)
    ensures
        split_seq(s, sep).len() >= 1,
    decreases s.len(),
{
    if s.len() > 0 {
        lemma_split_nonempty(s.drop_last(), sep);
    }
}

/// `s` with every occurrence of `from` replaced by `to`.
pub open spec fn replace_char(s: Seq<char>, from: char, to: char) -> Seq<char> {
    Seq::new(s.len(), |i: int| if s[i] == from { to } else { s[i] })
}

/// The characters of a string slice, in order.
pub fn str_chars(s: &str) -> (v: Vec<char>)
    ensures
        v@ == s@,
{
    let n = s.unicode_len();
    let mut v: Vec<char> = Vec::new();
    let mut i: usize = 0;
    while i < n
        invariant
            n == s@.len(),
            i <= n,
            v@ == s@.take(i as int),
        decreases n - i,
    {
        let c = s.get_char(i);
        v.push(c);
        i = i + 1;
        assert(v@ =~= s@.take(i as int));
    }
    assert(v@ =~= s@);
    v
}

/// True for the characters with the Unicode property `White_Space`, which is
/// what `char::is_whitespace` and `str::trim` go by.
pub open spec fn is_white_space(c: char) -> bool {
    ||| '\u{9}' <= c <= '\u{d}'
    ||| c == ' '
    ||| c == '\u{85}'
    ||| c == '\u{a0}'
    ||| c == '\u{1680}'
    ||| '\u{2000}' <= c <= '\u{200a}'
    ||| c == '\u{2028}'
    ||| c == '\u{2029}'
    ||| c == '\u{202f}'
    ||| c == '\u{205f}'
    ||| c == '\u{3000}'
}

/// True when `s` is empty once trimmed: it holds white space only.
pub open spec fn is_blank(s: Seq<char>) -> bool {
    forall|i: int| 0 <= i < s.len() ==> is_white_space(#[trigger] s[i])
}

/// Whether a text is empty once trimmed.
pub fn text_is_blank(s: &str) -> (r: bool)
    ensures
        r == is_blank(s@),
{
    let chars = str_chars(s);
    let mut i: usize = 0;
    while i < chars.len()
        invariant
            chars@ == s@,
            i <= chars.len(),
            forall|j: int| 0 <= j < i ==> is_white_space(#[trigger] chars@[j]),
        decreases chars.len() - i,
    {
        let c = chars[i];
        let white = ('\u{9}' <= c && c <= '\u{d}') || c == ' ' || c == '\u{85}' || c == '\u{a0}'
            || c == '\u{1680}' || ('\u{2000}' <= c && c <= '\u{200a}') || c == '\u{2028}'
            || c == '\u{2029}' || c == '\u{202f}' || c == '\u{205f}' || c == '\u{3000}';
        if !white {
            assert(!is_white_space(chars@[i as int]));
            return false;
        }
        i = i + 1;
    }
    true
}

/// Collects characters into a `String` (std's `FromIterator<&char>` for
/// `String`). The contract claims that the string holds exactly these
/// characters, in order.
#[verifier::external_body]
pub(crate) fn string_from_chars(v: &Vec<char>) -> (s: String)
    ensures
        s@ == v@,
{
    v.iter().collect::<String>()
}

/// True when the vectors of `parts` hold exactly the sequences of `pieces`.
pub open spec fn pieces_match(parts: Seq<Vec<char>>, pieces: Seq<Seq<char>>) -> bool {
    &&& parts.len() == pieces.len()
    &&& forall|k: int| 0 <= k < parts.len() ==> (#[trigger] parts[k])@ == pieces[k]
}

/// Splits a character sequence at every occurrence of `sep`.
pub fn split_chars(s: &Vec<char>, sep: char) -> (parts: Vec<Vec<char>>)
    ensures
        pieces_match(parts@, split_seq(s@, sep)),
{
    let mut done: Vec<Vec<char>> = Vec::new();
    let mut cur: Vec<char> = Vec::new();
    let mut i: usize = 0;
    while i < s.len()
        invariant
            i <= s.len(),
            pieces_match(done@.push(cur), split_seq(s@.take(i as int), sep)),
        decreases s.len() - i,
    {
        let c = s[i];
        let ghost before = split_seq(s@.take(i as int), sep);
        proof {
            let p = s@.take(i as int + 1);
            assert(p.drop_last() =~= s@.take(i as int));
            assert(p.last() == c);
        }
        if c == sep {
            let ghost old_done = done@;
            done.push(cur);
            cur = Vec::new();
            proof {
                let after = split_seq(s@.take(i as int + 1), sep);
                assert(after == before.push(Seq::<char>::empty()));
                assert forall|k: int| 0 <= k < done@.push(cur).len() implies
                    (#[trigger] done@.push(cur)[k])@ == after[k] by {
                    if k < done@.len() - 1 {
                        assert(done@.push(cur)[k] == old_done[k]);
                    }
                }
            }
        } else {
            let ghost old_done = done@;
            let ghost old_cur = cur@;
            let ghost old_vec = cur;
            assert(done@.push(cur)[done@.len() as int] == cur);
            cur.push(c);
            proof {
                let after = split_seq(s@.take(i as int + 1), sep);
                assert(before.last() == old_cur);
                assert(after == before.update(before.len() - 1, old_cur.push(c)));
                assert forall|k: int| 0 <= k < done@.push(cur).len() implies
                    (#[trigger] done@.push(cur)[k])@ == after[k] by {
                    if k < done@.len() {
                        assert(done@.push(cur)[k] == old_done[k]);
                        assert(old_done.push(old_vec)[k] == old_done[k]);
                    } else {
                        assert(done@.push(cur)[k] == cur);
                    }
                }
            }
        }
        i = i + 1;
    }
    assert(s@.take(s.len() as int) =~= s@);
    done.push(cur);
    done
}

/// Replaces every occurrence of `from` by `to`.
pub fn replace_chars(s: &Vec<char>, from: char, to: char) -> (r: Vec<char>)
    ensures
        r@ == replace_char(s@, from, to),
{
    let mut r: Vec<char> = Vec::new();
    let mut i: usize = 0;
    while i < s.len()
        invariant
            i <= s.len(),
            r@ == replace_char(s@.take(i as int), from, to),
        decreases s.len() - i,
    {
        if s[i] == from {
            r.push(to);
        } else {
            r.push(s[i]);
        }
        i = i + 1;
        assert(r@ =~= replace_char(s@.take(i as int), from, to));
    }
    assert(s@.take(s.len() as int) =~= s@);
    r
}

/// The value of a decimal numeral with an optional leading `+`, as std's
/// integer `FromStr` reads it for an unsigned type: `None` when the text is
/// empty, is a lone sign or holds anything but digits after the sign.
pub open spec fn unsigned_text_value(s: Seq<char>) -> Option<nat> {
    let body = if s.len() > 0 && s[0] == '+' { s.drop_first() } else { s };
    if body.len() > 0 && all_digits(body) {
        Some(digits_value(body))
    } else {
        None
    }
}

/// The value of a decimal numeral with an optional leading `+` or `-`, as
/// std's integer `FromStr` reads it for a signed type.
pub open spec fn signed_text_value(s: Seq<char>) -> Option<int> {
    if s.len() > 0 && s[0] == '-' {
        let body = s.drop_first();
        if body.len() > 0 && all_digits(body) {
            Some(-(digits_value(body) as int))
        } else {
            None
        }
    } else {
        match unsigned_text_value(s) {
            Some(v) => Some(v as int),
            None => None,
        }
    }
}

/// What `str::parse::<u8>` gives for the text `s`.
pub open spec fn u8_from_text(s: Seq<char>) -> Option<u8> {
    match unsigned_text_value(s) {
        Some(v) => if v <= 255 { Some(v as u8) } else { None },
        None => None,
    }
}

/// What `str::parse::<i32>` gives for the text `s`.
pub open spec fn i32_from_text(s: Seq<char>) -> Option<i32> {
    match signed_text_value(s) {
        Some(v) => if i32::MIN <= v <= i32::MAX { Some(v as i32) } else { None },
        None => None,
    }
}

/// A bound above every value that the numeral parsers accept.
pub open spec fn saturation() -> nat {
    0x1_0000_0000
}

/// `digits_value` grows with every digit that is appended.
pub proof fn lemma_digits_value_step(s: Seq<char>, c: char)
    requires
        is_digit(c),
    ensures
        digits_value(s.push(c)) == digits_value(s) * 10 + digit_value(c),
        digit_value(c) <= 9,
{
    assert(s.push(c).drop_last() =~= s);
}

/// Reads the digits of `s` from index `start` on. `None` when there are none
/// or when any of them is not a digit; otherwise their value, capped at
/// `saturation()`.
pub fn saturating_digits(s: &Vec<char>, start: usize) -> (r: Option<u64>)
    requires
        start <= s.len(),
    ensures
        ({
            let body = s@.subrange(start as int, s@.len() as int);
            match r {
                Some(v) => body.len() > 0 && all_digits(body) && v as nat == (if digits_value(body)
                    < saturation() { digits_value(body) } else { saturation() }),
                None => !(body.len() > 0 && all_digits(body)),
            }
        }),
{
    if start == s.len() {
        return None;
    }
    let cap: u64 = 0x1_0000_0000;
    let mut acc: u64 = 0;
    let mut i: usize = start;
    while i < s.len()
        invariant
            start <= i <= s.len(),
            cap == saturation(),
            all_digits(s@.subrange(start as int, i as int)),
            acc as nat == (if digits_value(s@.subrange(start as int, i as int)) < saturation() {
                digits_value(s@.subrange(start as int, i as int))
            } else {
                saturation()
            }),
        decreases s.len() - i,
    {
        let c = s[i];
        if !('0' <= c && c <= '9') {
            proof {
                let body = s@.subrange(start as int, s@.len() as int);
                assert(body[i - start] == c);
            }
            return None;
        }
        let ghost prefix = s@.subrange(start as int, i as int);
        proof {
            lemma_digits_value_step(prefix, c);
            assert(s@.subrange(start as int, i + 1) =~= prefix.push(c));
        }
        let d: u64 = (c as u32 - '0' as u32) as u64;
        assert(d as nat == digit_value(c));
        if acc >= cap {
            proof {
                let dv = digits_value(prefix);
                assert(dv >= saturation());
                assert(dv * 10 + d >= saturation()) by (nonlinear_arith)
                    requires dv >= saturation();
            }
        } else {
            proof {
                assert(acc * 10 + d <= 0x1_0000_0000 * 10 + 9) by (nonlinear_arith)
                    requires acc < 0x1_0000_0000, d <= 9;
            }
            let next = acc * 10 + d;
            if next >= cap {
                acc = cap;
            } else {
                acc = next;
            }
        }
        i = i + 1;
    }
    assert(s@.subrange(start as int, s@.len() as int) == s@.subrange(start as int, i as int));
    Some(acc)
}

/// Parses a `u8` as `str::parse::<u8>` does.
pub fn parse_u8(s: &Vec<char>) -> (r: Option<u8>)
    ensures
        r == u8_from_text(s@),
{
    let start: usize = if s.len() > 0 && s[0] == '+' { 1 } else { 0 };
    proof {
        let body = if s@.len() > 0 && s@[0] == '+' { s@.drop_first() } else { s@ };
        assert(body =~= s@.subrange(start as int, s@.len() as int));
    }
    match saturating_digits(s, start) {
        Some(v) => if v <= 255 { Some(v as u8) } else { None },
        None => None,
    }
}

/// Parses an `i32` as `str::parse::<i32>` does.
pub fn parse_i32(s: &Vec<char>) -> (r: Option<i32>)
    ensures
        r == i32_from_text(s@),
{
    if s.len() > 0 && s[0] == '-' {
        proof {
            assert(s@.drop_first() =~= s@.subrange(1, s@.len() as int));
        }
        match saturating_digits(s, 1) {
            Some(v) => if v <= 0x8000_0000 {
                Some((0 - (v as i64)) as i32)
            } else {
                None
            },
            None => None,
        }
    } else {
        let start: usize = if s.len() > 0 && s[0] == '+' { 1 } else { 0 };
        proof {
            let body = if s@.len() > 0 && s@[0] == '+' { s@.drop_first() } else { s@ };
            assert(body =~= s@.subrange(start as int, s@.len() as int));
        }
        match saturating_digits(s, start) {
            Some(v) => if v <= 0x7fff_ffff { Some(v as i32) } else { None },
            None => None,
        }
    }
}

/// The decimal numeral of `n` without leading zeros, as `to_string` writes
/// an unsigned integer.
pub open spec fn decimal(n: nat) -> Seq<char>
    decreases n,
{
    if n < 10 {
        seq![crate::date_time::digit_char(n as int)]
    } else {
        decimal(n / 10).push(crate::date_time::digit_char((n % 10) as int))
    }
}

/// The numeral of a number reads back as that number.
pub proof fn lemma_decimal_value(n: nat)
    ensures
        decimal(n).len() > 0,
        all_digits(decimal(n)),
        digits_value(decimal(n)) == n,
        decimal(n)[0] != '+' && decimal(n)[0] != '-',
        unsigned_text_value(decimal(n)) == Some(n),
    decreases n,
{
    if n < 10 {
        crate::date_time::lemma_digit_char(n as int);
        lemma_digits_value_step(Seq::<char>::empty(), crate::date_time::digit_char(n as int));
        assert(Seq::<char>::empty().push(crate::date_time::digit_char(n as int)) =~= decimal(n));
    } else {
        lemma_decimal_value(n / 10);
        crate::date_time::lemma_digit_char((n % 10) as int);
        lemma_digits_value_step(decimal(n / 10), crate::date_time::digit_char((n % 10) as int));
        assert(decimal(n)[0] == decimal(n / 10)[0]);
        assert(n == (n / 10) * 10 + n % 10);
    }
    assert(is_digit(decimal(n)[0]));
}

/// The character of a digit.
fn digit_char_of(d: u64) -> (c: char)
    requires
        d < 10,
    ensures
        c == crate::date_time::digit_char(d as int),
{
    if d == 0 { '0' } else if d == 1 { '1' } else if d == 2 { '2' } else if d == 3 { '3' }
    else if d == 4 { '4' } else if d == 5 { '5' } else if d == 6 { '6' } else if d == 7 { '7' }
    else if d == 8 { '8' } else { '9' }
}

/// Appends the numeral of `n`.
fn push_decimal(n: u64, out: &mut Vec<char>)
    ensures
        final(out)@ == old(out)@ + decimal(n as nat),
    decreases n,
{
    if n >= 10 {
        push_decimal(n / 10, out);
    }
    out.push(digit_char_of(n % 10));
    proof {
        if n < 10 {
            assert(decimal(n as nat) =~= seq![crate::date_time::digit_char(n as int)]);
        }
    }
}

/// The decimal numeral of `n`, as `to_string` writes it.
pub fn decimal_text(n: u64) -> (s: String)
    ensures
        s@ == decimal(n as nat),
{
    let mut chars: Vec<char> = Vec::new();
    push_decimal(n, &mut chars);
    assert(chars@ =~= decimal(n as nat));
    string_from_chars(&chars)
}

/// The decimal numeral of `n`, after a `-` when it is negative, as
/// `to_string` writes a signed integer.
pub open spec fn signed_decimal(n: int) -> Seq<char> {
    if n < 0 { seq!['-'] + decimal((-n) as nat) } else { decimal(n as nat) }
}

/// The decimal numeral of `n`, as `to_string` writes it.
pub fn signed_decimal_text(n: i32) -> (s: String)
    ensures
        s@ == signed_decimal(n as int),
{
    let mut chars: Vec<char> = Vec::new();
    if n < 0 {
        chars.push('-');
        let magnitude: u64 = (0i64 - (n as i64)) as u64;
        push_decimal(magnitude, &mut chars);
        assert(chars@ =~= seq!['-'] + decimal((-n) as nat));
    } else {
        push_decimal(n as u64, &mut chars);
        assert(chars@ =~= decimal(n as nat));
    }
    string_from_chars(&chars)
}

} // verus!
