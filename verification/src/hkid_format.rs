//! Structural format rules shared by the check-digit calculator, the
//! validator and the generator: character classes, the body pattern
//! (7 or 8 characters from `A`-`Z` / `0`-`9`), the prefix pattern
//! (1 or 2 uppercase letters), the full-HKID pattern (prefix, six digits,
//! one check character), and the parenthesis-stripping normalization.

use vstd::prelude::*;
use vstd::string::*;

verus! {

/// `c` is an uppercase ASCII letter `A`-`Z`.
pub open spec fn is_upper_char(c: char) -> bool {
    'A' as u32 <= c as u32 <= 'Z' as u32
}

/// `c` is a decimal digit `0`-`9`.
pub open spec fn is_digit_char(c: char) -> bool {
    '0' as u32 <= c as u32 <= '9' as u32
}

/// `c` may appear in an HKID body: an uppercase letter or a digit.
pub open spec fn is_body_char(c: char) -> bool {
    is_upper_char(c) || is_digit_char(c)
}

/// `c` is a valid check character: a digit or `A`.
pub open spec fn is_check_char(c: char) -> bool {
    is_digit_char(c) || c == 'A'
}

/// The prefix pattern: 1 or 2 uppercase letters.
pub open spec fn valid_prefix_seq(s: Seq<char>) -> bool {
    &&& 1 <= s.len() <= 2
    &&& forall|i: int| 0 <= i < s.len() ==> is_upper_char(#[trigger] s[i])
}

/// The body pattern: 7 or 8 characters, each an uppercase letter or digit.
pub open spec fn valid_body_seq(s: Seq<char>) -> bool {
    &&& s.len() == 7 || s.len() == 8
    &&& forall|i: int| 0 <= i < s.len() ==> is_body_char(#[trigger] s[i])
}

/// The full-HKID pattern (after parentheses are stripped): a 1- or 2-letter
/// prefix, six digits, and one check character.
pub open spec fn valid_full_seq(s: Seq<char>) -> bool {
    &&& s.len() == 8 || s.len() == 9
    &&& forall|i: int| 0 <= i < s.len() - 7 ==> is_upper_char(#[trigger] s[i])
    &&& forall|i: int| s.len() - 7 <= i < s.len() - 1 ==> is_digit_char(#[trigger] s[i])
    &&& is_check_char(s[s.len() - 1])
}

/// The prefix part of a full HKID: everything before the six digits and the
/// check character.
pub open spec fn full_prefix(s: Seq<char>) -> Seq<char> {
    s.subrange(0, s.len() - 7)
}

/// The body part of a full HKID: everything but the check character.
pub open spec fn full_body(s: Seq<char>) -> Seq<char> {
    s.subrange(0, s.len() - 1)
}

/// `c` is one of the cosmetic parenthesis characters stripped before
/// structural matching.
pub open spec fn is_paren(c: char) -> bool {
    c == '(' || c == ')'
}

/// The parenthesis-stripping normalization: the same sequence with every
/// `(` and `)` removed, order preserved.
pub open spec fn strip_parens(s: Seq<char>) -> Seq<char>
    decreases s.len(),
{
    if s.len() == 0 {
        Seq::<char>::empty()
    } else {
        let rest = strip_parens(s.drop_last());
        if is_paren(s.last()) {
            rest
        } else {
            rest.push(s.last())
        }
    }
}

/// Stripping distributes over concatenation.
pub proof fn lemma_strip_parens_add(a: Seq<char>, b: Seq<char>)
    ensures
        strip_parens(a + b) == strip_parens(a) + strip_parens(b),
    decreases b.len(),
{
    if b.len() == 0 {
        assert(a + b =~= a);
        assert(strip_parens(a) + strip_parens(b) =~= strip_parens(a));
    } else {
        lemma_strip_parens_add(a, b.drop_last());
        assert((a + b).drop_last() =~= a + b.drop_last());
        assert((a + b).last() == b.last());
        if is_paren(b.last()) {
        } else {
            assert((strip_parens(a) + strip_parens(b.drop_last())).push(b.last()) =~= strip_parens(
                a,
            ) + strip_parens(b.drop_last()).push(b.last()));
        }
    }
}

/// A sequence without parentheses is left unchanged by stripping.
pub proof fn lemma_strip_parens_id(s: Seq<char>)
    requires
        forall|i: int| 0 <= i < s.len() ==> !is_paren(#[trigger] s[i]),
    ensures
        strip_parens(s) == s,
    decreases s.len(),
{
    if s.len() == 0 {
        assert(strip_parens(s) =~= s);
    } else {
        lemma_strip_parens_id(s.drop_last());
        assert(s.drop_last().push(s.last()) =~= s);
    }
}

/// Stripping a single character: parentheses vanish, anything else stays.
pub proof fn lemma_strip_parens_single(c: char)
    ensures
        is_paren(c) ==> strip_parens(seq![c]) == Seq::<char>::empty(),
        !is_paren(c) ==> strip_parens(seq![c]) == seq![c],
{
    assert(strip_parens(Seq::<char>::empty()) == Seq::<char>::empty());
    assert(seq![c].drop_last() =~= Seq::<char>::empty());
    assert(seq![c].last() == c);
    if !is_paren(c) {
        assert(Seq::<char>::empty().push(c) =~= seq![c]);
    }
}

/// Relies on `String::push`: appends exactly the given character to the end
/// of the string.
#[verifier::external_body]
pub(crate) fn push_char(s: &mut String, c: char)
    ensures
        final(s)@ == old(s)@.push(c),
{
    s.push(c)
}

/// Removes every `(` and `)` from `s`, keeping the order of the other
/// characters.
pub(crate) fn remove_parens(s: &str) -> (r: String)
    ensures
        r@ == strip_parens(s@),
{
    let n = s.unicode_len();
    let mut out = String::new();
    let mut i: usize = 0;
    while i < n
        invariant
            n == s@.len(),
            i <= n,
            out@ == strip_parens(s@.subrange(0, i as int)),
        decreases n - i,
    {
        let c = s.get_char(i);
        proof {
            assert(s@.subrange(0, i + 1).drop_last() =~= s@.subrange(0, i as int));
            assert(s@.subrange(0, i + 1).last() == s@[i as int]);
        }
        if !(c == '(' || c == ')') {
            push_char(&mut out, c);
        }
        i += 1;
    }
    proof {
        assert(s@.subrange(0, n as int) =~= s@);
    }
    out
}

/// Character-by-character string equality.
pub(crate) fn str_eq(a: &str, b: &str) -> (r: bool)
    ensures
        r == (a@ == b@),
{
    let na = a.unicode_len();
    let nb = b.unicode_len();
    if na != nb {
        return false;
    }
    let mut i: usize = 0;
    while i < na
        invariant
            na == a@.len(),
            na == b@.len(),
            i <= na,
            forall|j: int| 0 <= j < i ==> a@[j] == b@[j],
        decreases na - i,
    {
        if a.get_char(i) != b.get_char(i) {
            return false;
        }
        i += 1;
    }
    proof {
        assert(a@ =~= b@);
    }
    true
}

/// Checks `s` against the full-HKID pattern: a 1- or 2-letter prefix, six
/// digits, and one check character.
pub(crate) fn matches_full_pattern(s: &str) -> (r: bool)
    ensures
        r == valid_full_seq(s@),
{
    let n = s.unicode_len();
    if n != 8 && n != 9 {
        return false;
    }
    let plen = n - 7;
    let mut i: usize = 0;
    while i < plen
        invariant
            n == s@.len(),
            n == 8 || n == 9,
            plen == n - 7,
            i <= plen,
            forall|j: int| 0 <= j < i ==> is_upper_char(#[trigger] s@[j]),
        decreases plen - i,
    {
        let c = s.get_char(i);
        let u = c as u32;
        if u < 'A' as u32 || u > 'Z' as u32 {
            return false;
        }
        i += 1;
    }
    let mut i: usize = plen;
    while i < n - 1
        invariant
            n == s@.len(),
            n == 8 || n == 9,
            plen == n - 7,
            plen <= i <= n - 1,
            forall|j: int| plen <= j < i ==> is_digit_char(#[trigger] s@[j]),
        decreases n - 1 - i,
    {
        let c = s.get_char(i);
        let u = c as u32;
        if u < '0' as u32 || u > '9' as u32 {
            return false;
        }
        i += 1;
    }
    let last = s.get_char(n - 1);
    let u = last as u32;
    ('0' as u32 <= u && u <= '9' as u32) || last == 'A'
}

/// A full HKID's body (everything but the check character) matches the body
/// pattern.
pub proof fn lemma_full_body_is_valid_body(s: Seq<char>)
    requires
        valid_full_seq(s),
    ensures
        valid_body_seq(full_body(s)),
{
}

/// Checks `prefix` against the prefix pattern (1 or 2 uppercase letters).
pub fn is_valid_prefix_format(prefix: &str) -> (r: bool)
    ensures
        r == valid_prefix_seq(prefix@),
{
    let n = prefix.unicode_len();
    if n < 1 || n > 2 {
        return false;
    }
    let mut i: usize = 0;
    while i < n
        invariant
            n == prefix@.len(),
            1 <= n <= 2,
            i <= n,
            forall|j: int| 0 <= j < i ==> is_upper_char(#[trigger] prefix@[j]),
        decreases n - i,
    {
        let c = prefix.get_char(i);
        let u = c as u32;
        if u < 'A' as u32 || u > 'Z' as u32 {
            return false;
        }
        i += 1;
    }
    true
}

/// Checks `body` against the body pattern (7 or 8 uppercase letters/digits).
pub fn is_valid_body_format(body: &str) -> (r: bool)
    ensures
        r == valid_body_seq(body@),
{
    let n = body.unicode_len();
    if n != 7 && n != 8 {
        return false;
    }
    let mut i: usize = 0;
    while i < n
        invariant
            n == body@.len(),
            n == 7 || n == 8,
            i <= n,
            forall|j: int| 0 <= j < i ==> is_body_char(#[trigger] body@[j]),
        decreases n - i,
    {
        let c = body.get_char(i);
        let u = c as u32;
        let is_upper = 'A' as u32 <= u && u <= 'Z' as u32;
        let is_digit = '0' as u32 <= u && u <= '9' as u32;
        if !is_upper && !is_digit {
            return false;
        }
        i += 1;
    }
    true
}

} // verus!
