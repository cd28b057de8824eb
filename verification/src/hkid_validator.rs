//! Validation of full HKID strings: parentheses around the check digit are
//! stripped, the cleaned string is matched against the full-HKID pattern,
//! the prefix is (optionally) required to be a known code, and the check
//! digit is recomputed and compared.

use vstd::prelude::*;
use vstd::string::*;

use crate::hkid_check_digit::{
    calculate_check_digit, check_char_of, check_value, pad8, spec_check_digit,
};
use crate::hkid_format::{
    full_body, full_prefix, is_check_char, is_digit_char, is_paren, is_upper_char,
    lemma_full_body_is_valid_body, lemma_strip_parens_add, lemma_strip_parens_id,
    lemma_strip_parens_single, matches_full_pattern, remove_parens, strip_parens, valid_body_seq,
    valid_full_seq, valid_prefix_seq,
};
use crate::hkid_generator::{digit_char, digit_chars, hkid_of, spec_generated, spec_generated_with};
use crate::hkid_prefix::{is_known_code, HKIDPrefix};

verus! {

/// The error text for input that fails the structural pattern.
pub open spec fn invalid_format_msg() -> Seq<char> {
    "Invalid HKID format: incorrect structure."@
}

/// The error text for a well-formed but unrecognized prefix, when the
/// caller required a known one.
pub open spec fn unknown_prefix_msg(p: Seq<char>) -> Seq<char> {
    "Prefix '"@ + p + "' is not recognized."@
}

/// What `validate_hkid` decides, as a function of the parenthesis-stripped
/// input alone.
///
/// - If the cleaned input fails the full-HKID pattern, the result is the
///   format error.
/// - Otherwise, if a known prefix is required and the prefix is not one,
///   the result is the unknown-prefix error naming that prefix.
/// - Otherwise the result is `Ok`, `true` exactly when the provided check
///   character is the one computed from the body.
pub open spec fn validate_result(cleaned: Seq<char>, must_exist_in_enum: bool, r: Result<
    bool,
    String,
>) -> bool {
    if !valid_full_seq(cleaned) {
        r matches Err(e) && e@ == invalid_format_msg()
    } else if must_exist_in_enum && !is_known_code(full_prefix(cleaned)) {
        r matches Err(e) && e@ == unknown_prefix_msg(full_prefix(cleaned))
    } else {
        r == Ok::<bool, String>(spec_check_digit(full_body(cleaned)) == Some(
            cleaned[cleaned.len() - 1],
        ))
    }
}

/// Validates a full HKID string such as `"A123456(3)"` or `"A1234563"`.
///
/// Parentheses are cosmetic and removed first. The cleaned string must be a
/// 1- or 2-letter prefix, six digits and one check character; when
/// `must_exist_in_enum` is set the prefix must also be a known code. A
/// check-digit mismatch is the normal negative result `Ok(false)`, not an
/// error.
pub fn validate_hkid(hkid_full: &str, must_exist_in_enum: bool) -> (r: Result<bool, String>)
    ensures
        validate_result(strip_parens(hkid_full@), must_exist_in_enum, r),
{
    let cleaned = remove_parens(hkid_full);
    if !matches_full_pattern(cleaned.as_str()) {
        return Err(String::from_str("Invalid HKID format: incorrect structure."));
    }
    let n = cleaned.as_str().unicode_len();
    let prefix = cleaned.as_str().substring_char(0, n - 7);
    proof {
        assert(prefix@ =~= full_prefix(cleaned@));
    }
    if must_exist_in_enum {
        let parsed = HKIDPrefix::parse(prefix);
        if !parsed.is_known() {
            let mut e = String::from_str("Prefix '");
            e.append(prefix);
            e.append("' is not recognized.");
            return Err(e);
        }
    }
    let body = cleaned.as_str().substring_char(0, n - 1);
    proof {
        assert(body@ =~= full_body(cleaned@));
        lemma_full_body_is_valid_body(cleaned@);
    }
    let calculated = match calculate_check_digit(body) {
        Some(c) => c,
        None => {
            return Err(String::from_str("Failed to calculate check digit"));
        },
    };
    let provided = cleaned.as_str().get_char(n - 1);
    Ok(calculated == provided)
}

/// Round trip: every successfully generated HKID validates as `Ok(true)`
/// under the same known-prefix requirement. The only result of
/// `validate_hkid` that its contract allows on such a string is `Ok(true)`.
pub proof fn lemma_generate_validate_round_trip(s: Seq<char>, must_exist_in_enum: bool)
    requires
        spec_generated(s, must_exist_in_enum),
    ensures
        validate_result(strip_parens(s), must_exist_in_enum, Ok::<bool, String>(true)),
{
    let pfx = choose|pfx: Seq<char>|
        {
            &&& valid_prefix_seq(pfx)
            &&& (must_exist_in_enum ==> is_known_code(pfx))
            &&& #[trigger] spec_generated_with(s, pfx)
        };
    let ds = choose|ds: Seq<u8>|
        {
            &&& ds.len() == 6
            &&& (forall|i: int| 0 <= i < 6 ==> ds[i] < 10)
            &&& s == #[trigger] hkid_of(pfx, ds)
        };
    let body = pfx + digit_chars(ds);
    let plen = pfx.len() as int;
    let cd = check_char_of(check_value(pad8(body)));

    assert forall|i: int| 0 <= i < body.len() implies !is_paren(#[trigger] body[i]) && (
    is_upper_char(body[i]) || is_digit_char(body[i])) by {
        if i >= plen {
            assert(body[i] == digit_char(ds[i - plen]));
        }
    }
    assert(0 <= check_value(pad8(body)) <= 10);
    assert(is_check_char(cd));
    assert(!is_paren(cd));

    lemma_strip_parens_id(body);
    lemma_strip_parens_single('(');
    lemma_strip_parens_single(')');
    lemma_strip_parens_single(cd);
    lemma_strip_parens_add(body, seq!['(']);
    lemma_strip_parens_add(body + seq!['('], seq![cd]);
    lemma_strip_parens_add(body + seq!['('] + seq![cd], seq![')']);
    let cleaned = strip_parens(s);
    assert(cleaned =~= body + seq![cd]);

    assert(valid_full_seq(cleaned));
    assert(full_prefix(cleaned) =~= pfx);
    assert(full_body(cleaned) =~= body);
    assert(valid_body_seq(body));
    assert(spec_check_digit(body) == Some(cd));
    assert(cleaned[cleaned.len() - 1] == cd);
}

/// Parenthesis insensitivity: a check character carries the same cleaned
/// form whether or not it is wrapped in parentheses, so `validate_hkid`
/// (whose outcome is a function of the cleaned form alone) decides both
/// spellings identically.
pub proof fn lemma_validate_paren_insensitive(body: Seq<char>, cd: char)
    ensures
        strip_parens(body + seq!['('] + seq![cd] + seq![')']) == strip_parens(body + seq![cd]),
{
    lemma_strip_parens_add(body, seq![cd]);
    lemma_strip_parens_add(body, seq!['(']);
    lemma_strip_parens_add(body + seq!['('], seq![cd]);
    lemma_strip_parens_add(body + seq!['('] + seq![cd], seq![')']);
    lemma_strip_parens_single(cd);
    lemma_strip_parens_single('(');
    lemma_strip_parens_single(')');
    assert(strip_parens(body) + Seq::<char>::empty() =~= strip_parens(body));
    assert(strip_parens(body + seq!['('] + seq![cd] + seq![')']) =~= strip_parens(body)
        + strip_parens(seq![cd]));
}

} // verus!
