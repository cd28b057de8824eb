//! The closed taxonomy of known HKID prefixes: one- and two-letter codes
//! historically issued, each with a descriptive message, plus an `Unknown`
//! fallback that keeps the original text.

use vstd::prelude::*;
use vstd::string::*;

use crate::hkid_format::valid_prefix_seq;

verus! {

/// The prefix portion of an HKID number: one of the known one- or
/// two-letter codes, or `Unknown` carrying the unrecognized original text.
/// Matching is exact and case-sensitive.
#[derive(Debug, Clone)]
pub enum HKIDPrefix {
    A,
    B,
    C,
    D,
    E,
    F,
    G,
    H,
    J,
    K,
    L,
    M,
    N,
    P,
    R,
    S,
    T,
    V,
    W,
    Y,
    Z,
    EC,
    WX,
    XA,
    XB,
    XC,
    XD,
    XE,
    XG,
    XH,
    Unknown(String),
}

/// The code string of a prefix: the letter code for known variants, the
/// stored original text for `Unknown`.
pub open spec fn prefix_code(p: HKIDPrefix) -> Seq<char> {
    match p {
        HKIDPrefix::A => "A"@,
        HKIDPrefix::B => "B"@,
        HKIDPrefix::C => "C"@,
        HKIDPrefix::D => "D"@,
        HKIDPrefix::E => "E"@,
        HKIDPrefix::F => "F"@,
        HKIDPrefix::G => "G"@,
        HKIDPrefix::H => "H"@,
        HKIDPrefix::J => "J"@,
        HKIDPrefix::K => "K"@,
        HKIDPrefix::L => "L"@,
        HKIDPrefix::M => "M"@,
        HKIDPrefix::N => "N"@,
        HKIDPrefix::P => "P"@,
        HKIDPrefix::R => "R"@,
        HKIDPrefix::S => "S"@,
        HKIDPrefix::T => "T"@,
        HKIDPrefix::V => "V"@,
        HKIDPrefix::W => "W"@,
        HKIDPrefix::Y => "Y"@,
        HKIDPrefix::Z => "Z"@,
        HKIDPrefix::EC => "EC"@,
        HKIDPrefix::WX => "WX"@,
        HKIDPrefix::XA => "XA"@,
        HKIDPrefix::XB => "XB"@,
        HKIDPrefix::XC => "XC"@,
        HKIDPrefix::XD => "XD"@,
        HKIDPrefix::XE => "XE"@,
        HKIDPrefix::XG => "XG"@,
        HKIDPrefix::XH => "XH"@,
        HKIDPrefix::Unknown(s) => s@,
    }
}

/// `s` is the code of one of the known prefixes.
pub open spec fn is_known_code(s: Seq<char>) -> bool {
    ||| s == "A"@
    ||| s == "B"@
    ||| s == "C"@
    ||| s == "D"@
    ||| s == "E"@
    ||| s == "F"@
    ||| s == "G"@
    ||| s == "H"@
    ||| s == "J"@
    ||| s == "K"@
    ||| s == "L"@
    ||| s == "M"@
    ||| s == "N"@
    ||| s == "P"@
    ||| s == "R"@
    ||| s == "S"@
    ||| s == "T"@
    ||| s == "V"@
    ||| s == "W"@
    ||| s == "Y"@
    ||| s == "Z"@
    ||| s == "EC"@
    ||| s == "WX"@
    ||| s == "XA"@
    ||| s == "XB"@
    ||| s == "XC"@
    ||| s == "XD"@
    ||| s == "XE"@
    ||| s == "XG"@
    ||| s == "XH"@
}

/// The character form of every known code literal, so that proofs may move
/// between string-literal views and individual characters.
pub proof fn lemma_known_code_chars()
    ensures
        "A"@ =~= seq!['A'],
        "B"@ =~= seq!['B'],
        "C"@ =~= seq!['C'],
        "D"@ =~= seq!['D'],
        "E"@ =~= seq!['E'],
        "F"@ =~= seq!['F'],
        "G"@ =~= seq!['G'],
        "H"@ =~= seq!['H'],
        "J"@ =~= seq!['J'],
        "K"@ =~= seq!['K'],
        "L"@ =~= seq!['L'],
        "M"@ =~= seq!['M'],
        "N"@ =~= seq!['N'],
        "P"@ =~= seq!['P'],
        "R"@ =~= seq!['R'],
        "S"@ =~= seq!['S'],
        "T"@ =~= seq!['T'],
        "V"@ =~= seq!['V'],
        "W"@ =~= seq!['W'],
        "Y"@ =~= seq!['Y'],
        "Z"@ =~= seq!['Z'],
        "EC"@ =~= seq!['E', 'C'],
        "WX"@ =~= seq!['W', 'X'],
        "XA"@ =~= seq!['X', 'A'],
        "XB"@ =~= seq!['X', 'B'],
        "XC"@ =~= seq!['X', 'C'],
        "XD"@ =~= seq!['X', 'D'],
        "XE"@ =~= seq!['X', 'E'],
        "XG"@ =~= seq!['X', 'G'],
        "XH"@ =~= seq!['X', 'H'],
{
    reveal_strlit("A");
    reveal_strlit("B");
    reveal_strlit("C");
    reveal_strlit("D");
    reveal_strlit("E");
    reveal_strlit("F");
    reveal_strlit("G");
    reveal_strlit("H");
    reveal_strlit("J");
    reveal_strlit("K");
    reveal_strlit("L");
    reveal_strlit("M");
    reveal_strlit("N");
    reveal_strlit("P");
    reveal_strlit("R");
    reveal_strlit("S");
    reveal_strlit("T");
    reveal_strlit("V");
    reveal_strlit("W");
    reveal_strlit("Y");
    reveal_strlit("Z");
    reveal_strlit("EC");
    reveal_strlit("WX");
    reveal_strlit("XA");
    reveal_strlit("XB");
    reveal_strlit("XC");
    reveal_strlit("XD");
    reveal_strlit("XE");
    reveal_strlit("XG");
    reveal_strlit("XH");
}

/// What `HKIDPrefix::parse` returns for a prefix string: the variant of
/// the matching known code, or `Unknown` keeping the text.
pub open spec fn prefix_parse_spec(s: Seq<char>, r: HKIDPrefix) -> bool {
    if s == "A"@ {
        r == HKIDPrefix::A
    } else if s == "B"@ {
        r == HKIDPrefix::B
    } else if s == "C"@ {
        r == HKIDPrefix::C
    } else if s == "D"@ {
        r == HKIDPrefix::D
    } else if s == "E"@ {
        r == HKIDPrefix::E
    } else if s == "F"@ {
        r == HKIDPrefix::F
    } else if s == "G"@ {
        r == HKIDPrefix::G
    } else if s == "H"@ {
        r == HKIDPrefix::H
    } else if s == "J"@ {
        r == HKIDPrefix::J
    } else if s == "K"@ {
        r == HKIDPrefix::K
    } else if s == "L"@ {
        r == HKIDPrefix::L
    } else if s == "M"@ {
        r == HKIDPrefix::M
    } else if s == "N"@ {
        r == HKIDPrefix::N
    } else if s == "P"@ {
        r == HKIDPrefix::P
    } else if s == "R"@ {
        r == HKIDPrefix::R
    } else if s == "S"@ {
        r == HKIDPrefix::S
    } else if s == "T"@ {
        r == HKIDPrefix::T
    } else if s == "V"@ {
        r == HKIDPrefix::V
    } else if s == "W"@ {
        r == HKIDPrefix::W
    } else if s == "Y"@ {
        r == HKIDPrefix::Y
    } else if s == "Z"@ {
        r == HKIDPrefix::Z
    } else if s == "EC"@ {
        r == HKIDPrefix::EC
    } else if s == "WX"@ {
        r == HKIDPrefix::WX
    } else if s == "XA"@ {
        r == HKIDPrefix::XA
    } else if s == "XB"@ {
        r == HKIDPrefix::XB
    } else if s == "XC"@ {
        r == HKIDPrefix::XC
    } else if s == "XD"@ {
        r == HKIDPrefix::XD
    } else if s == "XE"@ {
        r == HKIDPrefix::XE
    } else if s == "XG"@ {
        r == HKIDPrefix::XG
    } else if s == "XH"@ {
        r == HKIDPrefix::XH
    } else {
        r matches HKIDPrefix::Unknown(t) && t@ == s
    }
}

/// Every known code matches the prefix pattern: 1 or 2 uppercase letters.
pub proof fn lemma_known_code_is_valid_prefix(s: Seq<char>)
    requires
        is_known_code(s),
    ensures
        valid_prefix_seq(s),
{
    lemma_known_code_chars();
}

impl HKIDPrefix {
    /// The prefix is one of the known codes, not `Unknown`.
    pub open spec fn spec_is_known(&self) -> bool {
        !(self is Unknown)
    }

    /// Parses a prefix string into its classification. Known codes match
    /// exactly and case-sensitively; anything else, including lowercase or
    /// non-ASCII text, is kept as `Unknown`.
    pub fn parse(prefix: &str) -> (r: HKIDPrefix)
        ensures
            prefix_parse_spec(prefix@, r),
            r.spec_is_known() <==> is_known_code(prefix@),
            r.spec_is_known() ==> prefix_code(r) == prefix@,
            !r.spec_is_known() ==> (r matches HKIDPrefix::Unknown(t) && t@ == prefix@),
    {
        proof {
            lemma_known_code_chars();
        }
        let n = prefix.unicode_len();
        if n == 1 {
            let c = prefix.get_char(0);
            proof {
                assert(prefix@ =~= seq![c]);
            }
            let found = match c {
                'A' => Some(HKIDPrefix::A),
                'B' => Some(HKIDPrefix::B),
                'C' => Some(HKIDPrefix::C),
                'D' => Some(HKIDPrefix::D),
                'E' => Some(HKIDPrefix::E),
                'F' => Some(HKIDPrefix::F),
                'G' => Some(HKIDPrefix::G),
                'H' => Some(HKIDPrefix::H),
                'J' => Some(HKIDPrefix::J),
                'K' => Some(HKIDPrefix::K),
                'L' => Some(HKIDPrefix::L),
                'M' => Some(HKIDPrefix::M),
                'N' => Some(HKIDPrefix::N),
                'P' => Some(HKIDPrefix::P),
                'R' => Some(HKIDPrefix::R),
                'S' => Some(HKIDPrefix::S),
                'T' => Some(HKIDPrefix::T),
                'V' => Some(HKIDPrefix::V),
                'W' => Some(HKIDPrefix::W),
                'Y' => Some(HKIDPrefix::Y),
                'Z' => Some(HKIDPrefix::Z),
                _ => None,
            };
            if let Some(p) = found {
                return p;
            }
        } else if n == 2 {
            let c0 = prefix.get_char(0);
            let c1 = prefix.get_char(1);
            proof {
                assert(prefix@ =~= seq![c0, c1]);
            }
            let found = match (c0, c1) {
                ('E', 'C') => Some(HKIDPrefix::EC),
                ('W', 'X') => Some(HKIDPrefix::WX),
                ('X', 'A') => Some(HKIDPrefix::XA),
                ('X', 'B') => Some(HKIDPrefix::XB),
                ('X', 'C') => Some(HKIDPrefix::XC),
                ('X', 'D') => Some(HKIDPrefix::XD),
                ('X', 'E') => Some(HKIDPrefix::XE),
                ('X', 'G') => Some(HKIDPrefix::XG),
                ('X', 'H') => Some(HKIDPrefix::XH),
                _ => None,
            };
            if let Some(p) = found {
                return p;
            }
        }
        HKIDPrefix::Unknown(prefix.to_owned())
    }

    /// The string form of the prefix: its code for known variants, the
    /// stored original text for `Unknown`.
    pub fn as_str(&self) -> (r: String)
        ensures
            r@ == prefix_code(*self),
    {
        match self {
            HKIDPrefix::A => String::from_str("A"),
            HKIDPrefix::B => String::from_str("B"),
            HKIDPrefix::C => String::from_str("C"),
            HKIDPrefix::D => String::from_str("D"),
            HKIDPrefix::E => String::from_str("E"),
            HKIDPrefix::F => String::from_str("F"),
            HKIDPrefix::G => String::from_str("G"),
            HKIDPrefix::H => String::from_str("H"),
            HKIDPrefix::J => String::from_str("J"),
            HKIDPrefix::K => String::from_str("K"),
            HKIDPrefix::L => String::from_str("L"),
            HKIDPrefix::M => String::from_str("M"),
            HKIDPrefix::N => String::from_str("N"),
            HKIDPrefix::P => String::from_str("P"),
            HKIDPrefix::R => String::from_str("R"),
            HKIDPrefix::S => String::from_str("S"),
            HKIDPrefix::T => String::from_str("T"),
            HKIDPrefix::V => String::from_str("V"),
            HKIDPrefix::W => String::from_str("W"),
            HKIDPrefix::Y => String::from_str("Y"),
            HKIDPrefix::Z => String::from_str("Z"),
            HKIDPrefix::EC => String::from_str("EC"),
            HKIDPrefix::WX => String::from_str("WX"),
            HKIDPrefix::XA => String::from_str("XA"),
            HKIDPrefix::XB => String::from_str("XB"),
            HKIDPrefix::XC => String::from_str("XC"),
            HKIDPrefix::XD => String::from_str("XD"),
            HKIDPrefix::XE => String::from_str("XE"),
            HKIDPrefix::XG => String::from_str("XG"),
            HKIDPrefix::XH => String::from_str("XH"),
            HKIDPrefix::Unknown(s) => s.clone(),
        }
    }

    /// `true` exactly when the prefix is one of the known codes.
    pub fn is_known(&self) -> (r: bool)
        ensures
            r == self.spec_is_known(),
    {
        !matches!(self, HKIDPrefix::Unknown(_))
    }

    /// The historical or administrative description of a known prefix;
    /// `Unknown` prefixes carry no description.
    pub fn get_message(&self) -> (r: Option<String>)
        ensures
            self.spec_is_known() ==> (r matches Some(m) && m@ == prefix_message(*self)),
            !self.spec_is_known() ==> r is None,
    {
        match self {
            HKIDPrefix::A => Some(
                String::from_str(
                    "Original ID cards, issued between 1949 and 1962, most holders born before 1950",
                ),
            ),
            HKIDPrefix::B => Some(String::from_str("Issued between 1955 and 1960 in city offices")),
            HKIDPrefix::C => Some(
                String::from_str(
                    "Issued between 1960 and 1983 in NT offices, mostly HK-born children (1946-1971)",
                ),
            ),
            HKIDPrefix::D => Some(
                String::from_str(
                    "Issued between 1960 and 1983 at HK Island offices, mostly HK-born children",
                ),
            ),
            HKIDPrefix::E => Some(
                String::from_str(
                    "Issued between 1955 and 1969 in Kowloon offices, mostly HK-born children (1946-1962)",
                ),
            ),
            HKIDPrefix::F => Some(
                String::from_str("First issue of a card commencing from 24 February 2020"),
            ),
            HKIDPrefix::G => Some(
                String::from_str(
                    "Issued between 1967 and 1983 in Kowloon offices, children born 1956-1971",
                ),
            ),
            HKIDPrefix::H => Some(
                String::from_str(
                    "Issued between 1979 and 1983 in HK Island offices, children born 1968-1971",
                ),
            ),
            HKIDPrefix::J => Some(String::from_str("Consular officers")),
            HKIDPrefix::K => Some(
                String::from_str("First issue (1983 - 1990), children born 1972-1979"),
            ),
            HKIDPrefix::L => Some(
                String::from_str(
                    "Issued between 1983 and 2003 during computer malfunctions, very few holders",
                ),
            ),
            HKIDPrefix::M => Some(String::from_str("First issue (2011 - 23 Feb 2020)")),
            HKIDPrefix::N => Some(
                String::from_str("Birth registered in Hong Kong after 1 June 2019"),
            ),
            HKIDPrefix::P => Some(
                String::from_str("First issue (1990 - 2000), children mostly born July-Dec 1979"),
            ),
            HKIDPrefix::R => Some(String::from_str("First issue (2000 - 2011)")),
            HKIDPrefix::S => Some(
                String::from_str("Birth registered in Hong Kong (1 Apr 2005 - 31 May 2019)"),
            ),
            HKIDPrefix::T => Some(
                String::from_str(
                    "Issued between 1983 and 1997 during computer malfunctions, very few holders",
                ),
            ),
            HKIDPrefix::V => Some(
                String::from_str(
                    "Child under 11 issued \"Document of Identity for Visa Purposes\" (1983 - 2003)",
                ),
            ),
            HKIDPrefix::W => Some(
                String::from_str(
                    "First issue to foreign laborer/domestic helper (10 Nov 1989 - 1 Jan 2009)",
                ),
            ),
            HKIDPrefix::Y => Some(
                String::from_str("Birth registered in Hong Kong (1 Jan 1989 - 31 Mar 2005)"),
            ),
            HKIDPrefix::Z => Some(
                String::from_str("Birth registered in Hong Kong (1 Jan 1980 - 31 Dec 1988)"),
            ),
            HKIDPrefix::EC => Some(
                String::from_str("European Community officers and dependents (1993 - 2003)"),
            ),
            HKIDPrefix::WX => Some(
                String::from_str("Foreign laborers/domestic helpers issued since 2 Jan 2009"),
            ),
            HKIDPrefix::XA => Some(
                String::from_str("Persons without Chinese names issued before 27 Mar 1983"),
            ),
            HKIDPrefix::XB => Some(
                String::from_str("Persons without Chinese names issued before 27 Mar 1983"),
            ),
            HKIDPrefix::XC => Some(
                String::from_str("Persons without Chinese names issued before 27 Mar 1983"),
            ),
            HKIDPrefix::XD => Some(
                String::from_str("Persons without Chinese names issued before 27 Mar 1983"),
            ),
            HKIDPrefix::XE => Some(
                String::from_str("Persons without Chinese names issued before 27 Mar 1983"),
            ),
            HKIDPrefix::XG => Some(
                String::from_str("Persons without Chinese names issued before 27 Mar 1983"),
            ),
            HKIDPrefix::XH => Some(
                String::from_str("Persons without Chinese names issued before 27 Mar 1983"),
            ),
            HKIDPrefix::Unknown(_) => None,
        }
    }
}

/// The description attached to each known prefix.
pub open spec fn prefix_message(p: HKIDPrefix) -> Seq<char> {
    match p {
        HKIDPrefix::A => "Original ID cards, issued between 1949 and 1962, most holders born before 1950"@,
        HKIDPrefix::B => "Issued between 1955 and 1960 in city offices"@,
        HKIDPrefix::C => "Issued between 1960 and 1983 in NT offices, mostly HK-born children (1946-1971)"@,
        HKIDPrefix::D => "Issued between 1960 and 1983 at HK Island offices, mostly HK-born children"@,
        HKIDPrefix::E => "Issued between 1955 and 1969 in Kowloon offices, mostly HK-born children (1946-1962)"@,
        HKIDPrefix::F => "First issue of a card commencing from 24 February 2020"@,
        HKIDPrefix::G => "Issued between 1967 and 1983 in Kowloon offices, children born 1956-1971"@,
        HKIDPrefix::H => "Issued between 1979 and 1983 in HK Island offices, children born 1968-1971"@,
        HKIDPrefix::J => "Consular officers"@,
        HKIDPrefix::K => "First issue (1983 - 1990), children born 1972-1979"@,
        HKIDPrefix::L => "Issued between 1983 and 2003 during computer malfunctions, very few holders"@,
        HKIDPrefix::M => "First issue (2011 - 23 Feb 2020)"@,
        HKIDPrefix::N => "Birth registered in Hong Kong after 1 June 2019"@,
        HKIDPrefix::P => "First issue (1990 - 2000), children mostly born July-Dec 1979"@,
        HKIDPrefix::R => "First issue (2000 - 2011)"@,
        HKIDPrefix::S => "Birth registered in Hong Kong (1 Apr 2005 - 31 May 2019)"@,
        HKIDPrefix::T => "Issued between 1983 and 1997 during computer malfunctions, very few holders"@,
        HKIDPrefix::V => "Child under 11 issued \"Document of Identity for Visa Purposes\" (1983 - 2003)"@,
        HKIDPrefix::W => "First issue to foreign laborer/domestic helper (10 Nov 1989 - 1 Jan 2009)"@,
        HKIDPrefix::Y => "Birth registered in Hong Kong (1 Jan 1989 - 31 Mar 2005)"@,
        HKIDPrefix::Z => "Birth registered in Hong Kong (1 Jan 1980 - 31 Dec 1988)"@,
        HKIDPrefix::EC => "European Community officers and dependents (1993 - 2003)"@,
        HKIDPrefix::WX => "Foreign laborers/domestic helpers issued since 2 Jan 2009"@,
        HKIDPrefix::XA => "Persons without Chinese names issued before 27 Mar 1983"@,
        HKIDPrefix::XB => "Persons without Chinese names issued before 27 Mar 1983"@,
        HKIDPrefix::XC => "Persons without Chinese names issued before 27 Mar 1983"@,
        HKIDPrefix::XD => "Persons without Chinese names issued before 27 Mar 1983"@,
        HKIDPrefix::XE => "Persons without Chinese names issued before 27 Mar 1983"@,
        HKIDPrefix::XG => "Persons without Chinese names issued before 27 Mar 1983"@,
        HKIDPrefix::XH => "Persons without Chinese names issued before 27 Mar 1983"@,
        HKIDPrefix::Unknown(_) => Seq::<char>::empty(),
    }
}

impl PartialEq for HKIDPrefix {
    /// Structural equality: same variant, and for `Unknown` the same text.
    fn eq(&self, other: &Self) -> (r: bool) {
        match (self, other) {
            (HKIDPrefix::A, HKIDPrefix::A) => true,
            (HKIDPrefix::B, HKIDPrefix::B) => true,
            (HKIDPrefix::C, HKIDPrefix::C) => true,
            (HKIDPrefix::D, HKIDPrefix::D) => true,
            (HKIDPrefix::E, HKIDPrefix::E) => true,
            (HKIDPrefix::F, HKIDPrefix::F) => true,
            (HKIDPrefix::G, HKIDPrefix::G) => true,
            (HKIDPrefix::H, HKIDPrefix::H) => true,
            (HKIDPrefix::J, HKIDPrefix::J) => true,
            (HKIDPrefix::K, HKIDPrefix::K) => true,
            (HKIDPrefix::L, HKIDPrefix::L) => true,
            (HKIDPrefix::M, HKIDPrefix::M) => true,
            (HKIDPrefix::N, HKIDPrefix::N) => true,
            (HKIDPrefix::P, HKIDPrefix::P) => true,
            (HKIDPrefix::R, HKIDPrefix::R) => true,
            (HKIDPrefix::S, HKIDPrefix::S) => true,
            (HKIDPrefix::T, HKIDPrefix::T) => true,
            (HKIDPrefix::V, HKIDPrefix::V) => true,
            (HKIDPrefix::W, HKIDPrefix::W) => true,
            (HKIDPrefix::Y, HKIDPrefix::Y) => true,
            (HKIDPrefix::Z, HKIDPrefix::Z) => true,
            (HKIDPrefix::EC, HKIDPrefix::EC) => true,
            (HKIDPrefix::WX, HKIDPrefix::WX) => true,
            (HKIDPrefix::XA, HKIDPrefix::XA) => true,
            (HKIDPrefix::XB, HKIDPrefix::XB) => true,
            (HKIDPrefix::XC, HKIDPrefix::XC) => true,
            (HKIDPrefix::XD, HKIDPrefix::XD) => true,
            (HKIDPrefix::XE, HKIDPrefix::XE) => true,
            (HKIDPrefix::XG, HKIDPrefix::XG) => true,
            (HKIDPrefix::XH, HKIDPrefix::XH) => true,
            (HKIDPrefix::Unknown(a), HKIDPrefix::Unknown(b)) => *a == *b,
            _ => false,
        }
    }
}

impl vstd::std_specs::cmp::PartialEqSpecImpl for HKIDPrefix {
    open spec fn obeys_eq_spec() -> bool {
        true
    }

    open spec fn eq_spec(&self, other: &Self) -> bool {
        match (self, other) {
            (HKIDPrefix::A, HKIDPrefix::A) => true,
            (HKIDPrefix::B, HKIDPrefix::B) => true,
            (HKIDPrefix::C, HKIDPrefix::C) => true,
            (HKIDPrefix::D, HKIDPrefix::D) => true,
            (HKIDPrefix::E, HKIDPrefix::E) => true,
            (HKIDPrefix::F, HKIDPrefix::F) => true,
            (HKIDPrefix::G, HKIDPrefix::G) => true,
            (HKIDPrefix::H, HKIDPrefix::H) => true,
            (HKIDPrefix::J, HKIDPrefix::J) => true,
            (HKIDPrefix::K, HKIDPrefix::K) => true,
            (HKIDPrefix::L, HKIDPrefix::L) => true,
            (HKIDPrefix::M, HKIDPrefix::M) => true,
            (HKIDPrefix::N, HKIDPrefix::N) => true,
            (HKIDPrefix::P, HKIDPrefix::P) => true,
            (HKIDPrefix::R, HKIDPrefix::R) => true,
            (HKIDPrefix::S, HKIDPrefix::S) => true,
            (HKIDPrefix::T, HKIDPrefix::T) => true,
            (HKIDPrefix::V, HKIDPrefix::V) => true,
            (HKIDPrefix::W, HKIDPrefix::W) => true,
            (HKIDPrefix::Y, HKIDPrefix::Y) => true,
            (HKIDPrefix::Z, HKIDPrefix::Z) => true,
            (HKIDPrefix::EC, HKIDPrefix::EC) => true,
            (HKIDPrefix::WX, HKIDPrefix::WX) => true,
            (HKIDPrefix::XA, HKIDPrefix::XA) => true,
            (HKIDPrefix::XB, HKIDPrefix::XB) => true,
            (HKIDPrefix::XC, HKIDPrefix::XC) => true,
            (HKIDPrefix::XD, HKIDPrefix::XD) => true,
            (HKIDPrefix::XE, HKIDPrefix::XE) => true,
            (HKIDPrefix::XG, HKIDPrefix::XG) => true,
            (HKIDPrefix::XH, HKIDPrefix::XH) => true,
            (HKIDPrefix::Unknown(a), HKIDPrefix::Unknown(b)) => a@ == b@,
            _ => false,
        }
    }
}

/// How many known prefixes there are.
pub fn known_prefix_count() -> (r: usize)
    ensures
        r == 30,
{
    30
}

/// The code of the known prefix at position `i` of the fixed table.
pub open spec fn known_code_at(i: int) -> Seq<char> {
    if i == 0 {
        "A"@
    } else if i == 1 {
        "B"@
    } else if i == 2 {
        "C"@
    } else if i == 3 {
        "D"@
    } else if i == 4 {
        "E"@
    } else if i == 5 {
        "F"@
    } else if i == 6 {
        "G"@
    } else if i == 7 {
        "H"@
    } else if i == 8 {
        "J"@
    } else if i == 9 {
        "K"@
    } else if i == 10 {
        "L"@
    } else if i == 11 {
        "M"@
    } else if i == 12 {
        "N"@
    } else if i == 13 {
        "P"@
    } else if i == 14 {
        "R"@
    } else if i == 15 {
        "S"@
    } else if i == 16 {
        "T"@
    } else if i == 17 {
        "V"@
    } else if i == 18 {
        "W"@
    } else if i == 19 {
        "Y"@
    } else if i == 20 {
        "Z"@
    } else if i == 21 {
        "EC"@
    } else if i == 22 {
        "WX"@
    } else if i == 23 {
        "XA"@
    } else if i == 24 {
        "XB"@
    } else if i == 25 {
        "XC"@
    } else if i == 26 {
        "XD"@
    } else if i == 27 {
        "XE"@
    } else if i == 28 {
        "XG"@
    } else {
        "XH"@
    }
}

/// Every table entry is a known code.
pub proof fn lemma_known_code_at(i: int)
    requires
        0 <= i < 30,
    ensures
        is_known_code(known_code_at(i)),
{
}

/// The known prefix at position `i` of the fixed table, as a string.
pub fn known_prefix_at(i: usize) -> (r: String)
    requires
        i < 30,
    ensures
        r@ == known_code_at(i as int),
{
    if i == 0 {
        String::from_str("A")
    } else if i == 1 {
        String::from_str("B")
    } else if i == 2 {
        String::from_str("C")
    } else if i == 3 {
        String::from_str("D")
    } else if i == 4 {
        String::from_str("E")
    } else if i == 5 {
        String::from_str("F")
    } else if i == 6 {
        String::from_str("G")
    } else if i == 7 {
        String::from_str("H")
    } else if i == 8 {
        String::from_str("J")
    } else if i == 9 {
        String::from_str("K")
    } else if i == 10 {
        String::from_str("L")
    } else if i == 11 {
        String::from_str("M")
    } else if i == 12 {
        String::from_str("N")
    } else if i == 13 {
        String::from_str("P")
    } else if i == 14 {
        String::from_str("R")
    } else if i == 15 {
        String::from_str("S")
    } else if i == 16 {
        String::from_str("T")
    } else if i == 17 {
        String::from_str("V")
    } else if i == 18 {
        String::from_str("W")
    } else if i == 19 {
        String::from_str("Y")
    } else if i == 20 {
        String::from_str("Z")
    } else if i == 21 {
        String::from_str("EC")
    } else if i == 22 {
        String::from_str("WX")
    } else if i == 23 {
        String::from_str("XA")
    } else if i == 24 {
        String::from_str("XB")
    } else if i == 25 {
        String::from_str("XC")
    } else if i == 26 {
        String::from_str("XD")
    } else if i == 27 {
        String::from_str("XE")
    } else if i == 28 {
        String::from_str("XG")
    } else {
        String::from_str("XH")
    }
}

} // verus!
