//! Generation of synthetic HKID numbers: a prefix (supplied, random-known
//! or random-any), six random digits, and the computed check digit in
//! parentheses.

use vstd::prelude::*;
use vstd::string::*;

use crate::hkid_check_digit::{calculate_check_digit, check_char_of, check_value, pad8};
use crate::hkid_format::{
    is_digit_char, is_upper_char, is_valid_prefix_format, push_char, valid_body_seq,
    valid_prefix_seq,
};
use crate::hkid_prefix::{
    is_known_code, known_prefix_at, known_prefix_count, lemma_known_code_at,
    lemma_known_code_is_valid_prefix, HKIDPrefix,
};

verus! {

/// Relies on `rand::random_range`: a uniformly distributed value in the
/// given range; it panics only when the range is empty.
#[verifier::external_body]
fn rand_u8_below(n: u8) -> (r: u8)
    requires
        n > 0,
    ensures
        r < n,
{
    rand::random_range(0..n)
}

/// The character of a decimal digit value.
pub open spec fn digit_char(d: u8) -> char {
    ((d + '0' as u32) as u8) as char
}

/// The characters of a sequence of decimal digit values.
pub open spec fn digit_chars(ds: Seq<u8>) -> Seq<char> {
    ds.map_values(|d: u8| digit_char(d))
}

/// The full HKID string generated from a prefix and six digit values: the
/// body, then the body's check character wrapped in parentheses.
pub open spec fn hkid_of(pfx: Seq<char>, ds: Seq<u8>) -> Seq<char> {
    let body = pfx + digit_chars(ds);
    body + seq!['('] + seq![check_char_of(check_value(pad8(body)))] + seq![')']
}

/// `s` was generated from the prefix `pfx`: six digit values complete it.
pub open spec fn spec_generated_with(s: Seq<char>, pfx: Seq<char>) -> bool {
    exists|ds: Seq<u8>|
        {
            &&& ds.len() == 6
            &&& (forall|i: int| 0 <= i < 6 ==> ds[i] < 10)
            &&& s == #[trigger] hkid_of(pfx, ds)
        }
}

/// `s` was generated from some well-formed prefix, a known one when
/// `must_exist_in_enum` was set.
pub open spec fn spec_generated(s: Seq<char>, must_exist_in_enum: bool) -> bool {
    exists|pfx: Seq<char>|
        {
            &&& valid_prefix_seq(pfx)
            &&& (must_exist_in_enum ==> is_known_code(pfx))
            &&& #[trigger] spec_generated_with(s, pfx)
        }
}

/// The error text for a supplied prefix that fails the prefix pattern.
pub open spec fn prefix_format_msg(p: Seq<char>) -> Seq<char> {
    "Prefix '"@ + p + "' is not a valid HKID prefix format (must be 1 or 2 uppercase letters)"@
}

/// The error text for a well-formed but unrecognized supplied prefix, when
/// a known one was required.
pub open spec fn prefix_not_recognized_msg(p: Seq<char>) -> Seq<char> {
    "Prefix '"@ + p + "' is not recognized"@
}

/// A random uppercase ASCII letter, `A` to `Z`.
pub fn random_uppercase_letter() -> (c: char)
    ensures
        is_upper_char(c),
{
    let v = rand_u8_below(26);
    (v + 65) as char
}

/// A random known HKID prefix from the fixed table. The table is never
/// empty, so a prefix is always returned.
pub fn random_known_prefix() -> (r: Option<String>)
    ensures
        r matches Some(p) && is_known_code(p@),
{
    let n = known_prefix_count();
    let i = rand_u8_below(n as u8);
    let p = known_prefix_at(i as usize);
    proof {
        lemma_known_code_at(i as int);
    }
    Some(p)
}

/// A random prefix of one or two uppercase letters, each drawn uniformly;
/// the length is an even coin toss.
pub fn random_prefix() -> (r: String)
    ensures
        valid_prefix_seq(r@),
{
    let len: usize = if rand_u8_below(2) == 1 {
        1
    } else {
        2
    };
    let mut s = String::new();
    let mut i: usize = 0;
    while i < len
        invariant
            len == 1 || len == 2,
            i <= len,
            s@.len() == i,
            forall|j: int| 0 <= j < i ==> is_upper_char(#[trigger] s@[j]),
        decreases len - i,
    {
        let c = random_uppercase_letter();
        push_char(&mut s, c);
        i += 1;
    }
    s
}

/// Builds the HKID body: the prefix followed by the six digit characters.
pub(crate) fn make_body(prefix_str: &str, digits: &Vec<u8>) -> (r: String)
    requires
        valid_prefix_seq(prefix_str@),
        digits@.len() == 6,
        forall|i: int| 0 <= i < 6 ==> digits@[i] < 10,
    ensures
        r@ == prefix_str@ + digit_chars(digits@),
        valid_body_seq(r@),
{
    let mut body = String::from_str(prefix_str);
    let mut i: usize = 0;
    while i < digits.len()
        invariant
            valid_prefix_seq(prefix_str@),
            digits@.len() == 6,
            forall|j: int| 0 <= j < 6 ==> digits@[j] < 10,
            i <= 6,
            body@ == prefix_str@ + digit_chars(digits@.subrange(0, i as int)),
        decreases 6 - i,
    {
        let d = digits[i];
        push_char(&mut body, (d + 48) as char);
        proof {
            assert(digit_chars(digits@.subrange(0, i + 1)) =~= digit_chars(
                digits@.subrange(0, i as int),
            ).push(digit_char(digits@[i as int])));
            assert(body@ =~= prefix_str@ + digit_chars(digits@.subrange(0, i + 1)));
        }
        i += 1;
    }
    proof {
        assert(digits@.subrange(0, 6) =~= digits@);
        let b = body@;
        let plen = prefix_str@.len() as int;
        assert forall|k: int| 0 <= k < b.len() implies is_upper_char(#[trigger] b[k])
            || is_digit_char(b[k]) by {
            if k >= plen {
                assert(b[k] == digit_char(digits@[k - plen]));
            }
        }
    }
    body
}

/// Generates a random HKID number in the form `<prefix><6 digits>(<check
/// digit>)`.
///
/// A supplied prefix must match the prefix pattern, and must be a known
/// code when `must_exist_in_enum` is set. With no prefix supplied, a known
/// code is drawn from the table when `must_exist_in_enum` is set, and a
/// random one- or two-letter prefix otherwise. In every non-error case the
/// result carries the check digit computed from its own body.
pub fn generate_hkid(prefix: Option<&str>, must_exist_in_enum: bool) -> (r: Result<String, String>)
    ensures
        ({
            match prefix {
                Some(px) => {
                    &&& (!valid_prefix_seq(px@) ==> (r matches Err(e) && e@ == prefix_format_msg(
                        px@,
                    )))
                    &&& (valid_prefix_seq(px@) && must_exist_in_enum && !is_known_code(px@) ==> (
                    r matches Err(e) && e@ == prefix_not_recognized_msg(px@)))
                    &&& (valid_prefix_seq(px@) && (must_exist_in_enum ==> is_known_code(px@))
                        ==> (r matches Ok(s) && spec_generated_with(s@, px@) && spec_generated(
                        s@,
                        must_exist_in_enum,
                    )))
                },
                None => r matches Ok(s) && spec_generated(s@, must_exist_in_enum),
            }
        }),
{
    let prefix_str: String = match prefix {
        Some(px) => {
            if !is_valid_prefix_format(px) {
                let mut e = String::from_str("Prefix '");
                e.append(px);
                e.append("' is not a valid HKID prefix format (must be 1 or 2 uppercase letters)");
                return Err(e);
            }
            if must_exist_in_enum {
                let parsed = HKIDPrefix::parse(px);
                if !parsed.is_known() {
                    let mut e = String::from_str("Prefix '");
                    e.append(px);
                    e.append("' is not recognized");
                    return Err(e);
                }
            }
            px.to_owned()
        },
        None => {
            if must_exist_in_enum {
                match random_known_prefix() {
                    Some(p) => {
                        proof {
                            lemma_known_code_is_valid_prefix(p@);
                        }
                        p
                    },
                    None => {
                        return Err(String::from_str("No valid prefixes in HKIDPrefix enum"));
                    },
                }
            } else {
                random_prefix()
            }
        },
    };
    let mut digits: Vec<u8> = Vec::new();
    let mut i: usize = 0;
    while i < 6
        invariant
            i <= 6,
            digits@.len() == i,
            forall|j: int| 0 <= j < i ==> digits@[j] < 10,
        decreases 6 - i,
    {
        let d = rand_u8_below(10);
        digits.push(d);
        i += 1;
    }
    let body = make_body(prefix_str.as_str(), &digits);
    let check_digit = match calculate_check_digit(body.as_str()) {
        Some(c) => c,
        None => {
            return Err(String::from_str("Failed to calculate check digit"));
        },
    };
    let mut out = body;
    push_char(&mut out, '(');
    push_char(&mut out, check_digit);
    push_char(&mut out, ')');
    proof {
        assert(out@ =~= hkid_of(prefix_str@, digits@));
        assert(spec_generated_with(out@, prefix_str@));
        assert(spec_generated(out@, must_exist_in_enum));
    }
    Ok(out)
}

} // verus!
