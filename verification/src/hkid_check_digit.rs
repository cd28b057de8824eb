//! The HKID check-digit algorithm: a character-to-value mapping, a weighted
//! sum over the (space-padded) 8-character body, and the final mod-11 step
//! that yields a check character in `0`-`9` or `A`.

use vstd::prelude::*;
use vstd::string::*;

use crate::hkid_format::{is_body_char, is_check_char, is_valid_body_format, valid_body_seq};

verus! {

/// The HKID numeric value of a character: letters (either case) map to
/// 10-35, digits to 0-9, the padding space to 36, everything else to `None`.
pub open spec fn spec_char_value(c: char) -> Option<u32> {
    let u = c as u32;
    if 'a' as u32 <= u <= 'z' as u32 {
        Some((u - 'a' as u32 + 10) as u32)
    } else if 'A' as u32 <= u <= 'Z' as u32 {
        Some((u - 'A' as u32 + 10) as u32)
    } else if '0' as u32 <= u <= '9' as u32 {
        Some((u - '0' as u32) as u32)
    } else if c == ' ' {
        Some(36u32)
    } else {
        None
    }
}

/// The value used by the weighted sum; characters outside the mapping
/// contribute nothing (the sum is only applied to fully mapped bodies).
pub open spec fn char_value_or_zero(c: char) -> int {
    match spec_char_value(c) {
        Some(v) => v as int,
        None => 0,
    }
}

/// The weighted sum over a body laid out in 8 positions: position `i`
/// (from the left) carries weight `9 - i`, so the last of 8 characters
/// carries weight 2.
pub open spec fn weighted_sum(s: Seq<char>) -> int
    decreases s.len(),
{
    if s.len() == 0 {
        0
    } else {
        weighted_sum(s.drop_last()) + (10 - s.len()) * char_value_or_zero(s.last())
    }
}

/// A 7-character body is left-padded with one space to fill 8 positions.
pub open spec fn pad8(s: Seq<char>) -> Seq<char> {
    if s.len() == 7 {
        seq![' '] + s
    } else {
        s
    }
}

/// The mod-11 step: the check value of an 8-position body.
pub open spec fn check_value(s: Seq<char>) -> int {
    (11 - (weighted_sum(s) % 11)) % 11
}

/// The check character for a check value: 10 is written `A`, 0-9 as digits.
pub open spec fn check_char_of(v: int) -> char {
    if v == 10 {
        'A'
    } else {
        ((v + '0' as u32) as u8) as char
    }
}

/// What `calculate_check_digit` returns: the check character of the padded
/// body when the input matches the body pattern, and nothing otherwise.
pub open spec fn spec_check_digit(s: Seq<char>) -> Option<char> {
    if valid_body_seq(s) {
        Some(check_char_of(check_value(pad8(s))))
    } else {
        None
    }
}

/// Converts a single character to its HKID numeric value.
///
/// Letters (case-insensitively) map to 10-35, digits to 0-9, a space to 36;
/// any other character has no value.
pub fn char_to_value(c: char) -> (r: Option<u32>)
    ensures
        r == spec_char_value(c),
{
    let u = c as u32;
    if u >= 'a' as u32 && u <= 'z' as u32 {
        Some(u - 'a' as u32 + 10)
    } else if u >= 'A' as u32 && u <= 'Z' as u32 {
        Some(u - 'A' as u32 + 10)
    } else if u >= '0' as u32 && u <= '9' as u32 {
        Some(u - '0' as u32)
    } else if u == ' ' as u32 {
        Some(36)
    } else {
        None
    }
}

/// Every character of a valid body has a value, and every value the mapping
/// produces is at most 36.
proof fn lemma_body_char_value(c: char)
    ensures
        is_body_char(c) ==> spec_char_value(c) is Some,
        spec_char_value(c) matches Some(v) ==> v <= 36,
{
}

/// A step of the weighted sum: extending a prefix of `s` by one character
/// adds that character's weighted value.
proof fn lemma_weighted_sum_step(s: Seq<char>, k: int)
    requires
        0 <= k < s.len(),
    ensures
        weighted_sum(s.subrange(0, k + 1)) == weighted_sum(s.subrange(0, k)) + (10 - (k + 1))
            * char_value_or_zero(s[k]),
{
    let t = s.subrange(0, k + 1);
    assert(t.drop_last() =~= s.subrange(0, k));
    assert(t.last() == s[k]);
}

/// Calculates the check digit for an HKID body (prefix plus six digits,
/// e.g. `"A123456"` or `"AB123456"`).
///
/// A 7-character body is left-padded with a space to 8 positions; each
/// position is mapped to its numeric value, weighted 9 down to 2, and the
/// weighted sum is reduced mod 11. Inputs that do not match the body
/// pattern (7 or 8 characters, uppercase letters and digits only) have no
/// check digit.
pub fn calculate_check_digit(hkid_body: &str) -> (r: Option<char>)
    ensures
        r == spec_check_digit(hkid_body@),
{
    if !is_valid_body_format(hkid_body) {
        return None;
    }
    let n = hkid_body.unicode_len();
    let ghost p = pad8(hkid_body@);
    let off: usize = 8 - n;
    let mut sum: u32 = if n == 7 { 36 * 9 } else { 0 };
    proof {
        assert(weighted_sum(Seq::<char>::empty()) == 0);
        if n == 7 {
            assert(p.subrange(0, 1).drop_last() =~= Seq::<char>::empty());
            assert(p.subrange(0, 1).last() == ' ');
            assert(weighted_sum(p.subrange(0, 1)) == 9 * char_value_or_zero(' '));
        } else {
            assert(p.subrange(0, 0) =~= Seq::<char>::empty());
        }
    }
    let mut i: usize = 0;
    while i < n
        invariant
            valid_body_seq(hkid_body@),
            n == hkid_body@.len(),
            n == 7 || n == 8,
            off == 8 - n,
            p == pad8(hkid_body@),
            p.len() == 8,
            forall|j: int| 0 <= j < n ==> p[j + off] == hkid_body@[j],
            i <= n,
            sum == weighted_sum(p.subrange(0, i + off)),
            sum <= 324 * (i + off),
        decreases n - i,
    {
        let c = hkid_body.get_char(i);
        let v = match char_to_value(c) {
            Some(v) => v,
            None => {
                proof {
                    lemma_body_char_value(c);
                }
                return None;
            },
        };
        let w = (9 - (i + off)) as u32;
        proof {
            let k = (i + off) as int;
            lemma_body_char_value(c);
            lemma_weighted_sum_step(p, k);
            assert(char_value_or_zero(p[k]) == v as int);
            assert(v * w <= 324) by (nonlinear_arith)
                requires
                    v <= 36,
                    w <= 9,
            ;
            assert(sum + v * w == weighted_sum(p.subrange(0, k)) + (10 - (k + 1))
                * char_value_or_zero(p[k])) by (nonlinear_arith)
                requires
                    sum == weighted_sum(p.subrange(0, k)),
                    v as int == char_value_or_zero(p[k]),
                    w as int == 10 - (k + 1),
            ;
        }
        sum = sum + v * w;
        i += 1;
    }
    proof {
        assert(p.subrange(0, 8) =~= p);
    }
    let rem = sum % 11;
    let cd = (11 - rem) % 11;
    if cd == 10 {
        Some('A')
    } else {
        Some(((cd as u8) + 48) as char)
    }
}

/// The character mapping is case-insensitive: for every ASCII letter, the
/// uppercase and the lowercase form carry the same HKID value.
pub proof fn lemma_char_value_case_insensitive(c: char)
    requires
        is_ascii_letter(c),
    ensures
        spec_char_value(upper_of(c)) == spec_char_value(lower_of(c)),
{
}

/// `c` is an ASCII letter, in either case.
pub open spec fn is_ascii_letter(c: char) -> bool {
    ('A' as u32 <= c as u32 <= 'Z' as u32) || ('a' as u32 <= c as u32 <= 'z' as u32)
}

/// The uppercase form of an ASCII letter.
pub open spec fn upper_of(c: char) -> char {
    if 'a' as u32 <= c as u32 <= 'z' as u32 {
        ((c as u32 - 32) as u8) as char
    } else {
        c
    }
}

/// The lowercase form of an ASCII letter.
pub open spec fn lower_of(c: char) -> char {
    if 'A' as u32 <= c as u32 <= 'Z' as u32 {
        ((c as u32 + 32) as u8) as char
    } else {
        c
    }
}

/// Left-padding rule: a 7-character body is given exactly the check value
/// of its explicit space-padded 8-character form. The padded form itself is
/// rejected by the body pattern (a space is not a body character), so the
/// equality holds at the level of the formula, not of the format gate.
pub proof fn lemma_check_digit_left_padding(s: Seq<char>)
    requires
        s.len() == 7,
        forall|i: int| 0 <= i < s.len() ==> is_body_char(#[trigger] s[i]),
    ensures
        spec_check_digit(s) == Some(check_char_of(check_value(seq![' '] + s))),
        spec_check_digit(seq![' '] + s) is None,
{
    assert(pad8(s) == seq![' '] + s);
    assert(!is_body_char((seq![' '] + s)[0]));
}

/// Totality and range: the check digit exists exactly for inputs matching
/// the body pattern, and is always a digit or `A`.
pub proof fn lemma_check_digit_total(s: Seq<char>)
    ensures
        spec_check_digit(s) is Some <==> valid_body_seq(s),
        spec_check_digit(s) matches Some(c) ==> is_check_char(c),
{
    if valid_body_seq(s) {
        let v = check_value(pad8(s));
        assert(0 <= v <= 10);
        assert(is_check_char(check_char_of(v)));
    }
}

} // verus!
