//! The taxonomy of symbols printed on an HKID card: fixed one- and
//! three-character codes, the parametrized issuing-office and lost-card
//! shapes, and an `Unknown` fallback that keeps the original text.

use vstd::prelude::*;
use vstd::string::*;

use crate::hkid_format::{is_digit_char, str_eq};

verus! {

/// A symbol found on an HKID card, describing eligibility, right of abode,
/// birthplace, issuing office or lost-card status.
#[derive(Debug)]
pub enum HKIDSymbol {
    /// `***`: the holder is 18 or over and eligible for a Re-entry Permit.
    AdultEligibleReentryPermit,
    /// `*`: the holder is between 11 and 17 and eligible for a Re-entry
    /// Permit.
    YouthEligibleReentryPermit,
    /// `A`: the holder has the right of abode in Hong Kong.
    RightOfAbode,
    /// `B`: the holder's reported date or place of birth has changed.
    BirthDateOrPlaceChanged,
    /// `C`: the holder's stay is limited by the Director of Immigration.
    StayLimitedByImmigration,
    /// `N`: the holder's reported name has changed.
    NameChanged,
    /// `O`: the holder was born outside Hong Kong, Mainland China or Macau.
    BornOutsideHKChinaMacau,
    /// `R`: the holder has the right to land in Hong Kong.
    RightToLand,
    /// `U`: the holder's stay is not limited by the Director of
    /// Immigration.
    StayUnlimitedByImmigration,
    /// `W`: the holder's reported place of birth is Macau.
    BornInMacau,
    /// `X`: the holder's reported place of birth is Mainland China.
    BornInMainlandChina,
    /// `Y`: the holder's date of birth was confirmed by certificate or
    /// passport.
    BirthDateConfirmed,
    /// `Z`: the holder's reported place of birth is Hong Kong.
    BornInHongKong,
    /// A two-character issuing-office code such as `H1` or `K2`.
    IssuingOfficeCode(String),
    /// `L<n>`: the card was lost `n` times.
    LostCard(u8),
    /// Any unrecognized or custom symbol, kept verbatim.
    Unknown(String),
}

/// The decimal value of a digit sequence, most significant first.
pub open spec fn decimal_value(s: Seq<char>) -> int
    decreases s.len(),
{
    if s.len() == 0 {
        0
    } else {
        decimal_value(s.drop_last()) * 10 + (s.last() as u32 - '0' as u32)
    }
}

/// Every character of `s` is a decimal digit.
pub open spec fn all_digits(s: Seq<char>) -> bool {
    forall|i: int| 0 <= i < s.len() ==> is_digit_char(#[trigger] s[i])
}

/// How `str::parse::<u8>` reads `s`: an optional leading `+`, then at
/// least one digit, with a value that fits in eight bits.
pub open spec fn spec_parse_u8(s: Seq<char>) -> Option<u8> {
    let digits = if s.len() > 0 && s[0] == '+' {
        s.drop_first()
    } else {
        s
    };
    if digits.len() >= 1 && all_digits(digits) && decimal_value(digits) <= 255 {
        Some(decimal_value(digits) as u8)
    } else {
        None
    }
}

/// The value of a digit sequence is never negative.
proof fn lemma_decimal_value_nonneg(s: Seq<char>)
    requires
        all_digits(s),
    ensures
        decimal_value(s) >= 0,
    decreases s.len(),
{
    if s.len() > 0 {
        lemma_decimal_value_nonneg(s.drop_last());
    }
}

/// Extending a digit prefix never decreases its value.
proof fn lemma_decimal_value_prefix_le(s: Seq<char>, k: int)
    requires
        all_digits(s),
        0 <= k <= s.len(),
    ensures
        decimal_value(s.subrange(0, k)) <= decimal_value(s),
    decreases s.len() - k,
{
    if k == s.len() {
        assert(s.subrange(0, k) =~= s);
    } else {
        lemma_decimal_value_prefix_le(s, k + 1);
        let t = s.subrange(0, k + 1);
        assert(t.drop_last() =~= s.subrange(0, k));
        assert(all_digits(t.drop_last()));
        lemma_decimal_value_nonneg(t.drop_last());
    }
}

/// Reads `s` as a `u8` the way `str::parse::<u8>` does: an optional
/// leading `+`, then decimal digits, rejecting values over 255.
pub(crate) fn parse_u8_decimal(s: &str) -> (r: Option<u8>)
    ensures
        r == spec_parse_u8(s@),
{
    let n = s.unicode_len();
    let mut start: usize = 0;
    if n > 0 && s.get_char(0) == '+' {
        start = 1;
    }
    let ghost dseq: Seq<char> = s@.subrange(start as int, n as int);
    proof {
        if start == 1 {
            assert(dseq =~= s@.drop_first());
        } else {
            assert(dseq =~= s@);
        }
    }
    if n == start {
        return None;
    }
    let mut acc: u32 = 0;
    let mut i: usize = start;
    while i < n
        invariant
            n == s@.len(),
            start <= i <= n,
            start <= 1,
            dseq == s@.subrange(start as int, n as int),
            dseq == (if s@.len() > 0 && s@[0] == '+' {
                s@.drop_first()
            } else {
                s@
            }),
            acc <= 255,
            all_digits(dseq.subrange(0, i - start)),
            acc == decimal_value(dseq.subrange(0, i - start)),
        decreases n - i,
    {
        let c = s.get_char(i);
        let u = c as u32;
        proof {
            assert(dseq[i - start] == s@[i as int]);
        }
        if u < '0' as u32 || u > '9' as u32 {
            proof {
                assert(!is_digit_char(dseq[i - start]));
            }
            return None;
        }
        let acc2 = acc * 10 + (u - '0' as u32);
        proof {
            let j = (i - start) as int;
            let t = dseq.subrange(0, j + 1);
            assert(t.drop_last() =~= dseq.subrange(0, j));
            assert(t.last() == dseq[j]);
            assert(all_digits(t));
        }
        if acc2 > 255 {
            proof {
                let j = (i - start) as int;
                if all_digits(dseq) {
                    lemma_decimal_value_prefix_le(dseq, j + 1);
                }
            }
            return None;
        }
        acc = acc2;
        i += 1;
    }
    proof {
        assert(dseq.subrange(0, n - start) =~= dseq);
    }
    Some(acc as u8)
}

/// What `HKIDSymbol::parse` returns for a symbol string: the fixed codes
/// first, then the lost-card shape, then the issuing-office shape, and
/// `Unknown` for everything else.
pub open spec fn symbol_parse_spec(s: Seq<char>, r: HKIDSymbol) -> bool {
    if s == "***"@ {
        r == HKIDSymbol::AdultEligibleReentryPermit
    } else if s == "*"@ {
        r == HKIDSymbol::YouthEligibleReentryPermit
    } else if s == "A"@ {
        r == HKIDSymbol::RightOfAbode
    } else if s == "B"@ {
        r == HKIDSymbol::BirthDateOrPlaceChanged
    } else if s == "C"@ {
        r == HKIDSymbol::StayLimitedByImmigration
    } else if s == "N"@ {
        r == HKIDSymbol::NameChanged
    } else if s == "O"@ {
        r == HKIDSymbol::BornOutsideHKChinaMacau
    } else if s == "R"@ {
        r == HKIDSymbol::RightToLand
    } else if s == "U"@ {
        r == HKIDSymbol::StayUnlimitedByImmigration
    } else if s == "W"@ {
        r == HKIDSymbol::BornInMacau
    } else if s == "X"@ {
        r == HKIDSymbol::BornInMainlandChina
    } else if s == "Y"@ {
        r == HKIDSymbol::BirthDateConfirmed
    } else if s == "Z"@ {
        r == HKIDSymbol::BornInHongKong
    } else if s.len() > 1 && s[0] == 'L' && spec_parse_u8(s.drop_first()) is Some {
        r == HKIDSymbol::LostCard(spec_parse_u8(s.drop_first())->Some_0)
    } else if s.len() == 2 && (s[0] as u32) < 128 && is_digit_char(s[1]) {
        r matches HKIDSymbol::IssuingOfficeCode(t) && t@ == s
    } else {
        r matches HKIDSymbol::Unknown(t) && t@ == s
    }
}

/// The character form of the fixed symbol code literals.
proof fn lemma_symbol_code_chars()
    ensures
        "***"@ =~= seq!['*', '*', '*'],
        "*"@ =~= seq!['*'],
        "A"@ =~= seq!['A'],
        "B"@ =~= seq!['B'],
        "C"@ =~= seq!['C'],
        "N"@ =~= seq!['N'],
        "O"@ =~= seq!['O'],
        "R"@ =~= seq!['R'],
        "U"@ =~= seq!['U'],
        "W"@ =~= seq!['W'],
        "X"@ =~= seq!['X'],
        "Y"@ =~= seq!['Y'],
        "Z"@ =~= seq!['Z'],
{
    reveal_strlit("***");
    reveal_strlit("*");
    reveal_strlit("A");
    reveal_strlit("B");
    reveal_strlit("C");
    reveal_strlit("N");
    reveal_strlit("O");
    reveal_strlit("R");
    reveal_strlit("U");
    reveal_strlit("W");
    reveal_strlit("X");
    reveal_strlit("Y");
    reveal_strlit("Z");
}

impl HKIDSymbol {
    /// Parses a symbol string: the fixed codes match exactly, `L` followed
    /// by a number is a lost-card count, two characters ending in a digit
    /// are an issuing-office code, and anything else is kept as `Unknown`.
    pub fn parse(symbol: &str) -> (r: HKIDSymbol)
        ensures
            symbol_parse_spec(symbol@, r),
    {
        proof {
            lemma_symbol_code_chars();
        }
        let n = symbol.unicode_len();
        if n == 1 {
            let c = symbol.get_char(0);
            proof {
                assert(symbol@ =~= seq![c]);
            }
            let found = match c {
                '*' => Some(HKIDSymbol::YouthEligibleReentryPermit),
                'A' => Some(HKIDSymbol::RightOfAbode),
                'B' => Some(HKIDSymbol::BirthDateOrPlaceChanged),
                'C' => Some(HKIDSymbol::StayLimitedByImmigration),
                'N' => Some(HKIDSymbol::NameChanged),
                'O' => Some(HKIDSymbol::BornOutsideHKChinaMacau),
                'R' => Some(HKIDSymbol::RightToLand),
                'U' => Some(HKIDSymbol::StayUnlimitedByImmigration),
                'W' => Some(HKIDSymbol::BornInMacau),
                'X' => Some(HKIDSymbol::BornInMainlandChina),
                'Y' => Some(HKIDSymbol::BirthDateConfirmed),
                'Z' => Some(HKIDSymbol::BornInHongKong),
                _ => None,
            };
            if let Some(sym) = found {
                return sym;
            }
        } else if n == 3 {
            let c0 = symbol.get_char(0);
            let c1 = symbol.get_char(1);
            let c2 = symbol.get_char(2);
            proof {
                assert(symbol@ =~= seq![c0, c1, c2]);
            }
            if c0 == '*' && c1 == '*' && c2 == '*' {
                return HKIDSymbol::AdultEligibleReentryPermit;
            }
        }
        if n > 1 {
            let c0 = symbol.get_char(0);
            if c0 == 'L' {
                let rest = symbol.substring_char(1, n);
                proof {
                    assert(rest@ =~= symbol@.drop_first());
                }
                if let Some(times) = parse_u8_decimal(rest) {
                    return HKIDSymbol::LostCard(times);
                }
            }
        }
        if n == 2 {
            let c0 = symbol.get_char(0);
            let c1 = symbol.get_char(1);
            let u = c1 as u32;
            // An office code occupies two single-byte characters, so the
            // leading character must be ASCII as well.
            if (c0 as u32) < 128 && '0' as u32 <= u && u <= '9' as u32 {
                return HKIDSymbol::IssuingOfficeCode(symbol.to_owned());
            }
        }
        HKIDSymbol::Unknown(symbol.to_owned())
    }

    /// The description attached to the symbol; every shape, `Unknown`
    /// included, carries one.
    pub fn get_message(&self) -> (r: Option<String>)
        ensures
            r matches Some(m) && m@ == symbol_message(*self),
    {
        match self {
            HKIDSymbol::AdultEligibleReentryPermit => Some(
                String::from_str(
                    "The holder is aged 18 or over and eligible for a Hong Kong Re-entry Permit",
                ),
            ),
            HKIDSymbol::YouthEligibleReentryPermit => Some(
                String::from_str(
                    "The holder is aged between 11 and 17 and eligible for a Hong Kong Re-entry Permit",
                ),
            ),
            HKIDSymbol::RightOfAbode => Some(
                String::from_str("The holder has the right of abode in Hong Kong"),
            ),
            HKIDSymbol::BirthDateOrPlaceChanged => Some(
                String::from_str(
                    "The holder's reported date/place of birth has changed since first registration",
                ),
            ),
            HKIDSymbol::StayLimitedByImmigration => Some(
                String::from_str(
                    "The holder's stay in Hong Kong is limited by the Director of Immigration at registration",
                ),
            ),
            HKIDSymbol::NameChanged => Some(
                String::from_str("The holder's reported name has changed since first registration"),
            ),
            HKIDSymbol::BornOutsideHKChinaMacau => Some(
                String::from_str("The holder was born outside Hong Kong, Mainland China, or Macau"),
            ),
            HKIDSymbol::RightToLand => Some(
                String::from_str("The holder has the right to land in Hong Kong"),
            ),
            HKIDSymbol::StayUnlimitedByImmigration => Some(
                String::from_str(
                    "The holder's stay in Hong Kong is not limited by the Director of Immigration",
                ),
            ),
            HKIDSymbol::BornInMacau => Some(
                String::from_str("The holder's reported place of birth is Macau"),
            ),
            HKIDSymbol::BornInMainlandChina => Some(
                String::from_str("The holder's reported place of birth is Mainland China"),
            ),
            HKIDSymbol::BirthDateConfirmed => Some(
                String::from_str(
                    "The holder's date of birth has been confirmed by birth certificate or passport",
                ),
            ),
            HKIDSymbol::BornInHongKong => Some(
                String::from_str("The holder's reported place of birth is Hong Kong"),
            ),
            HKIDSymbol::IssuingOfficeCode(_) => Some(
                String::from_str("Issuing office code (e.g., H1, K2, S1, P1, V1, etc.)"),
            ),
            HKIDSymbol::LostCard(_) => Some(
                String::from_str(
                    "The holder has lost their ID card. 'L1' for once, 'L2' for twice, etc.",
                ),
            ),
            HKIDSymbol::Unknown(_) => Some(String::from_str("Unknown or custom symbol")),
        }
    }

    /// The value of the named property: the symbol's display tag under the
    /// property name `Symbol`, and nothing under any other name.
    pub fn get_str(&self, prop: &str) -> (r: Option<String>)
        ensures
            prop@ == "Symbol"@ ==> (r matches Some(m) && m@ == symbol_tag(*self)),
            prop@ != "Symbol"@ ==> r is None,
    {
        if !str_eq(prop, "Symbol") {
            return None;
        }
        match self {
            HKIDSymbol::AdultEligibleReentryPermit => Some(String::from_str("***")),
            HKIDSymbol::YouthEligibleReentryPermit => Some(String::from_str("*")),
            HKIDSymbol::RightOfAbode => Some(String::from_str("A")),
            HKIDSymbol::BirthDateOrPlaceChanged => Some(String::from_str("B")),
            HKIDSymbol::StayLimitedByImmigration => Some(String::from_str("C")),
            HKIDSymbol::NameChanged => Some(String::from_str("N")),
            HKIDSymbol::BornOutsideHKChinaMacau => Some(String::from_str("O")),
            HKIDSymbol::RightToLand => Some(String::from_str("R")),
            HKIDSymbol::StayUnlimitedByImmigration => Some(String::from_str("U")),
            HKIDSymbol::BornInMacau => Some(String::from_str("W")),
            HKIDSymbol::BornInMainlandChina => Some(String::from_str("X")),
            HKIDSymbol::BirthDateConfirmed => Some(String::from_str("Y")),
            HKIDSymbol::BornInHongKong => Some(String::from_str("Z")),
            HKIDSymbol::IssuingOfficeCode(_) => Some(String::from_str("<Office Code>")),
            HKIDSymbol::LostCard(_) => Some(String::from_str("<L#>")),
            HKIDSymbol::Unknown(_) => Some(String::from_str("<Unknown>")),
        }
    }
}

/// The description attached to each symbol shape.
pub open spec fn symbol_message(s: HKIDSymbol) -> Seq<char> {
    match s {
        HKIDSymbol::AdultEligibleReentryPermit => "The holder is aged 18 or over and eligible for a Hong Kong Re-entry Permit"@,
        HKIDSymbol::YouthEligibleReentryPermit => "The holder is aged between 11 and 17 and eligible for a Hong Kong Re-entry Permit"@,
        HKIDSymbol::RightOfAbode => "The holder has the right of abode in Hong Kong"@,
        HKIDSymbol::BirthDateOrPlaceChanged => "The holder's reported date/place of birth has changed since first registration"@,
        HKIDSymbol::StayLimitedByImmigration => "The holder's stay in Hong Kong is limited by the Director of Immigration at registration"@,
        HKIDSymbol::NameChanged => "The holder's reported name has changed since first registration"@,
        HKIDSymbol::BornOutsideHKChinaMacau => "The holder was born outside Hong Kong, Mainland China, or Macau"@,
        HKIDSymbol::RightToLand => "The holder has the right to land in Hong Kong"@,
        HKIDSymbol::StayUnlimitedByImmigration => "The holder's stay in Hong Kong is not limited by the Director of Immigration"@,
        HKIDSymbol::BornInMacau => "The holder's reported place of birth is Macau"@,
        HKIDSymbol::BornInMainlandChina => "The holder's reported place of birth is Mainland China"@,
        HKIDSymbol::BirthDateConfirmed => "The holder's date of birth has been confirmed by birth certificate or passport"@,
        HKIDSymbol::BornInHongKong => "The holder's reported place of birth is Hong Kong"@,
        HKIDSymbol::IssuingOfficeCode(_) => "Issuing office code (e.g., H1, K2, S1, P1, V1, etc.)"@,
        HKIDSymbol::LostCard(_) => "The holder has lost their ID card. 'L1' for once, 'L2' for twice, etc."@,
        HKIDSymbol::Unknown(_) => "Unknown or custom symbol"@,
    }
}

/// The display tag of each symbol shape, as printed on the card or as a
/// placeholder for the parametrized shapes.
pub open spec fn symbol_tag(s: HKIDSymbol) -> Seq<char> {
    match s {
        HKIDSymbol::AdultEligibleReentryPermit => "***"@,
        HKIDSymbol::YouthEligibleReentryPermit => "*"@,
        HKIDSymbol::RightOfAbode => "A"@,
        HKIDSymbol::BirthDateOrPlaceChanged => "B"@,
        HKIDSymbol::StayLimitedByImmigration => "C"@,
        HKIDSymbol::NameChanged => "N"@,
        HKIDSymbol::BornOutsideHKChinaMacau => "O"@,
        HKIDSymbol::RightToLand => "R"@,
        HKIDSymbol::StayUnlimitedByImmigration => "U"@,
        HKIDSymbol::BornInMacau => "W"@,
        HKIDSymbol::BornInMainlandChina => "X"@,
        HKIDSymbol::BirthDateConfirmed => "Y"@,
        HKIDSymbol::BornInHongKong => "Z"@,
        HKIDSymbol::IssuingOfficeCode(_) => "<Office Code>"@,
        HKIDSymbol::LostCard(_) => "<L#>"@,
        HKIDSymbol::Unknown(_) => "<Unknown>"@,
    }
}

impl PartialEq for HKIDSymbol {
    /// Structural equality: same shape, and the same payload for the
    /// parametrized shapes.
    fn eq(&self, other: &Self) -> (r: bool) {
        match (self, other) {
            (HKIDSymbol::AdultEligibleReentryPermit, HKIDSymbol::AdultEligibleReentryPermit) => {
                true
            },
            (HKIDSymbol::YouthEligibleReentryPermit, HKIDSymbol::YouthEligibleReentryPermit) => {
                true
            },
            (HKIDSymbol::RightOfAbode, HKIDSymbol::RightOfAbode) => true,
            (HKIDSymbol::BirthDateOrPlaceChanged, HKIDSymbol::BirthDateOrPlaceChanged) => true,
            (HKIDSymbol::StayLimitedByImmigration, HKIDSymbol::StayLimitedByImmigration) => true,
            (HKIDSymbol::NameChanged, HKIDSymbol::NameChanged) => true,
            (HKIDSymbol::BornOutsideHKChinaMacau, HKIDSymbol::BornOutsideHKChinaMacau) => true,
            (HKIDSymbol::RightToLand, HKIDSymbol::RightToLand) => true,
            (HKIDSymbol::StayUnlimitedByImmigration, HKIDSymbol::StayUnlimitedByImmigration) => {
                true
            },
            (HKIDSymbol::BornInMacau, HKIDSymbol::BornInMacau) => true,
            (HKIDSymbol::BornInMainlandChina, HKIDSymbol::BornInMainlandChina) => true,
            (HKIDSymbol::BirthDateConfirmed, HKIDSymbol::BirthDateConfirmed) => true,
            (HKIDSymbol::BornInHongKong, HKIDSymbol::BornInHongKong) => true,
            (HKIDSymbol::IssuingOfficeCode(a), HKIDSymbol::IssuingOfficeCode(b)) => *a == *b,
            (HKIDSymbol::LostCard(a), HKIDSymbol::LostCard(b)) => *a == *b,
            (HKIDSymbol::Unknown(a), HKIDSymbol::Unknown(b)) => *a == *b,
            _ => false,
        }
    }
}

impl vstd::std_specs::cmp::PartialEqSpecImpl for HKIDSymbol {
    open spec fn obeys_eq_spec() -> bool {
        true
    }

    open spec fn eq_spec(&self, other: &Self) -> bool {
        match (self, other) {
            (HKIDSymbol::AdultEligibleReentryPermit, HKIDSymbol::AdultEligibleReentryPermit) => {
                true
            },
            (HKIDSymbol::YouthEligibleReentryPermit, HKIDSymbol::YouthEligibleReentryPermit) => {
                true
            },
            (HKIDSymbol::RightOfAbode, HKIDSymbol::RightOfAbode) => true,
            (HKIDSymbol::BirthDateOrPlaceChanged, HKIDSymbol::BirthDateOrPlaceChanged) => true,
            (HKIDSymbol::StayLimitedByImmigration, HKIDSymbol::StayLimitedByImmigration) => true,
            (HKIDSymbol::NameChanged, HKIDSymbol::NameChanged) => true,
            (HKIDSymbol::BornOutsideHKChinaMacau, HKIDSymbol::BornOutsideHKChinaMacau) => true,
            (HKIDSymbol::RightToLand, HKIDSymbol::RightToLand) => true,
            (HKIDSymbol::StayUnlimitedByImmigration, HKIDSymbol::StayUnlimitedByImmigration) => {
                true
            },
            (HKIDSymbol::BornInMacau, HKIDSymbol::BornInMacau) => true,
            (HKIDSymbol::BornInMainlandChina, HKIDSymbol::BornInMainlandChina) => true,
            (HKIDSymbol::BirthDateConfirmed, HKIDSymbol::BirthDateConfirmed) => true,
            (HKIDSymbol::BornInHongKong, HKIDSymbol::BornInHongKong) => true,
            (HKIDSymbol::IssuingOfficeCode(a), HKIDSymbol::IssuingOfficeCode(b)) => a@ == b@,
            (HKIDSymbol::LostCard(a), HKIDSymbol::LostCard(b)) => a == b,
            (HKIDSymbol::Unknown(a), HKIDSymbol::Unknown(b)) => a@ == b@,
            _ => false,
        }
    }
}

} // verus!
