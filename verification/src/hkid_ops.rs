//! The HKID operations bundled as methods of one type, drawing randomness
//! from the process-wide `fastrand` generator.

use vstd::prelude::*;
use vstd::string::*;

use crate::hkid_check_digit::{
    calculate_check_digit, char_to_value, spec_char_value, spec_check_digit,
};
use crate::hkid_format::{
    is_upper_char, is_valid_prefix_format, push_char, strip_parens, valid_prefix_seq,
};
use crate::hkid_generator::{
    hkid_of, make_body, prefix_format_msg, prefix_not_recognized_msg, spec_generated,
    spec_generated_with,
};
use crate::hkid_prefix::{
    is_known_code, known_prefix_at, known_prefix_count, lemma_known_code_at,
    lemma_known_code_is_valid_prefix, HKIDPrefix,
};
use crate::hkid_validator::{validate_hkid, validate_result};

verus! {

/// Relies on `fastrand::u8`: a random value in the given range; it panics
/// only when the range is empty.
#[verifier::external_body]
fn fastrand_u8_below(n: u8) -> (r: u8)
    requires
        n > 0,
    ensures
        r < n,
{
    fastrand::u8(0..n)
}

/// Relies on `fastrand::bool`: a random boolean.
#[verifier::external_body]
fn fastrand_bool() -> (r: bool) {
    fastrand::bool()
}

/// The HKID operations as one value: character mapping, check-digit
/// computation, generation and validation.
pub struct HKIDOps;

impl Default for HKIDOps {
    fn default() -> (r: Self)
        ensures
            r == HKIDOps,
    {
        HKIDOps
    }
}

impl HKIDOps {
    #[inline]
    pub fn new() -> (r: Self)
        ensures
            r == HKIDOps,
    {
        Self::default()
    }

    /// Converts a single character to its HKID numeric value; see
    /// [`char_to_value`].
    pub fn char_to_value(&self, c: char) -> (r: Option<u32>)
        ensures
            r == spec_char_value(c),
    {
        char_to_value(c)
    }

    /// A random uppercase ASCII letter, `A` to `Z`.
    pub fn random_uppercase_letter(&self) -> (c: char)
        ensures
            is_upper_char(c),
    {
        let v = fastrand_u8_below(26);
        (v + 65) as char
    }

    /// A random known HKID prefix from the fixed table. The table is never
    /// empty, so a prefix is always returned.
    pub fn random_known_prefix(&self) -> (r: Option<String>)
        ensures
            r matches Some(p) && is_known_code(p@),
    {
        let n = known_prefix_count();
        let i = fastrand_u8_below(n as u8);
        let p = known_prefix_at(i as usize);
        proof {
            lemma_known_code_at(i as int);
        }
        Some(p)
    }

    /// A random prefix of one or two uppercase letters, each drawn
    /// uniformly; the length is an even coin toss.
    pub fn random_prefix(&self) -> (r: String)
        ensures
            valid_prefix_seq(r@),
    {
        let len: usize = if fastrand_bool() {
            1
        } else {
            2
        };
        let mut s = String::new();
        let mut i: usize = 0;
        while i < len
            invariant
                len == 1 || len == 2,
                i <= len,
                s@.len() == i,
                forall|j: int| 0 <= j < i ==> is_upper_char(#[trigger] s@[j]),
            decreases len - i,
        {
            let c = self.random_uppercase_letter();
            push_char(&mut s, c);
            i += 1;
        }
        s
    }

    /// Calculates the check digit for an HKID body; see
    /// [`calculate_check_digit`].
    pub fn calculate_check_digit(&self, hkid_body: &str) -> (r: Option<char>)
        ensures
            r == spec_check_digit(hkid_body@),
    {
        calculate_check_digit(hkid_body)
    }

    /// Generates a random HKID number in the form `<prefix><6
    /// digits>(<check digit>)`; the prefix rules are those of
    /// [`crate::hkid_generator::generate_hkid`].
    pub fn generate_hkid(&self, prefix: Option<&str>, must_exist_in_enum: bool) -> (r: Result<
        String,
        String,
    >)
        ensures
            ({
                match prefix {
                    Some(px) => {
                        &&& (!valid_prefix_seq(px@) ==> (r matches Err(e) && e@
                            == prefix_format_msg(px@)))
                        &&& (valid_prefix_seq(px@) && must_exist_in_enum && !is_known_code(px@)
                            ==> (r matches Err(e) && e@ == prefix_not_recognized_msg(px@)))
                        &&& (valid_prefix_seq(px@) && (must_exist_in_enum ==> is_known_code(px@))
                            ==> (r matches Ok(s) && spec_generated_with(s@, px@) && spec_generated(
                            s@,
                            must_exist_in_enum,
                        )))
                    },
                    None => r matches Ok(s) && spec_generated(s@, must_exist_in_enum),
                }
            }),
    {
        let prefix_str: String = match prefix {
            Some(px) => {
                if !is_valid_prefix_format(px) {
                    let mut e = String::from_str("Prefix '");
                    e.append(px);
                    e.append(
                        "' is not a valid HKID prefix format (must be 1 or 2 uppercase letters)",
                    );
                    return Err(e);
                }
                if must_exist_in_enum {
                    let parsed = HKIDPrefix::parse(px);
                    if !parsed.is_known() {
                        let mut e = String::from_str("Prefix '");
                        e.append(px);
                        e.append("' is not recognized");
                        return Err(e);
                    }
                }
                px.to_owned()
            },
            None => {
                if must_exist_in_enum {
                    match self.random_known_prefix() {
                        Some(p) => {
                            proof {
                                lemma_known_code_is_valid_prefix(p@);
                            }
                            p
                        },
                        None => {
                            return Err(String::from_str("No valid prefixes in HKIDPrefix enum"));
                        },
                    }
                } else {
                    self.random_prefix()
                }
            },
        };
        let mut digits: Vec<u8> = Vec::new();
        let mut i: usize = 0;
        while i < 6
            invariant
                i <= 6,
                digits@.len() == i,
                forall|j: int| 0 <= j < i ==> digits@[j] < 10,
            decreases 6 - i,
        {
            let d = fastrand_u8_below(10);
            digits.push(d);
            i += 1;
        }
        let body = make_body(prefix_str.as_str(), &digits);
        let check_digit = match calculate_check_digit(body.as_str()) {
            Some(c) => c,
            None => {
                return Err(String::from_str("Failed to calculate check digit"));
            },
        };
        let mut out = body;
        push_char(&mut out, '(');
        push_char(&mut out, check_digit);
        push_char(&mut out, ')');
        proof {
            assert(out@ =~= hkid_of(prefix_str@, digits@));
            assert(spec_generated_with(out@, prefix_str@));
            assert(spec_generated(out@, must_exist_in_enum));
        }
        Ok(out)
    }

    /// Validates a full HKID string; see
    /// [`crate::hkid_validator::validate_hkid`].
    pub fn validate_hkid(&self, hkid_full: &str, must_exist_in_enum: bool) -> (r: Result<
        bool,
        String,
    >)
        ensures
            validate_result(strip_parens(hkid_full@), must_exist_in_enum, r),
    {
        validate_hkid(hkid_full, must_exist_in_enum)
    }
}

} // verus!
