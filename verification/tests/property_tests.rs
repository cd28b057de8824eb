use hkid_ops::hkid_check_digit::{calculate_check_digit, char_to_value};
use hkid_ops::hkid_generator::generate_hkid;
use hkid_ops::hkid_prefix::{known_prefix_at, HKIDPrefix};
use hkid_ops::hkid_symbol::HKIDSymbol;
use hkid_ops::hkid_validator::validate_hkid;

#[test]
fn test_char_value_case_insensitive_letters() {
    let lower = "abcdefghijklmnopqrstuvwxyz";
    let upper = "ABCDEFGHIJKLMNOPQRSTUVWXYZ";
    for (lo, up) in lower.chars().zip(upper.chars()) {
        assert_eq!(char_to_value(lo), char_to_value(up));
    }
}

#[test]
fn test_check_digit_padding_is_internal() {
    // The 7-character body gets its space padding inside the algorithm; an
    // explicitly padded body contains a space and fails the body pattern.
    assert_eq!(calculate_check_digit("A123456"), Some('3'));
    assert_eq!(calculate_check_digit(" A123456"), None);
}

#[test]
fn test_check_digit_always_in_range() {
    let bodies = [
        "A123456", "B987654", "Z999999", "AB123456", "WX000000", "ZZ111111", "C668668", "K700217",
    ];
    for body in bodies {
        let cd = calculate_check_digit(body).unwrap();
        assert!(cd.is_ascii_digit() || cd == 'A', "unexpected check digit {}", cd);
    }
}

#[test]
fn test_check_digit_letter_a_case() {
    // A body whose weighted sum is 1 mod 11 yields the check character 'A'.
    assert_eq!(calculate_check_digit("A123458"), Some('A'));
    assert_eq!(validate_hkid("A123458(A)", false), Ok(true));
    assert_eq!(validate_hkid("A123458A", false), Ok(true));
}

#[test]
fn test_concrete_check_digit_vectors() {
    assert_eq!(calculate_check_digit("A123456"), Some('3'));
    assert_eq!(calculate_check_digit("AB123456"), Some('9'));
    assert_eq!(calculate_check_digit("A12345"), None);
    assert!(HKIDPrefix::parse("A").is_known());
    assert!(!HKIDPrefix::parse("ZZ").is_known());
    assert_eq!(HKIDSymbol::parse("L2"), HKIDSymbol::LostCard(2));
    assert_eq!(
        HKIDSymbol::parse("H1"),
        HKIDSymbol::IssuingOfficeCode("H1".to_string())
    );
    assert_eq!(validate_hkid("A123456(9)", false), Ok(false));
    let err = validate_hkid("XX123456(1)", true).unwrap_err();
    assert!(err.contains("XX"));
}

#[test]
fn test_generate_then_validate_every_known_prefix() {
    for i in 0..30 {
        let prefix = known_prefix_at(i);
        let hkid = generate_hkid(Some(&prefix), true).unwrap();
        assert_eq!(validate_hkid(&hkid, true), Ok(true), "prefix {}", prefix);
    }
}

#[test]
fn test_generate_then_validate_random_prefixes() {
    for _ in 0..20 {
        let hkid = generate_hkid(None, true).unwrap();
        assert_eq!(validate_hkid(&hkid, true), Ok(true));

        let hkid = generate_hkid(None, false).unwrap();
        assert_eq!(validate_hkid(&hkid, false), Ok(true));
    }
}

#[test]
fn test_validate_parenthesization_equivalent() {
    assert_eq!(
        validate_hkid("A123456(3)", false),
        validate_hkid("A1234563", false)
    );
    assert_eq!(
        validate_hkid("A123456(9)", false),
        validate_hkid("A1234569", false)
    );
    assert_eq!(validate_hkid("AB123456(9)", false), Ok(true));
    assert_eq!(validate_hkid("AB1234569", false), Ok(true));
}

#[test]
fn test_validate_boundary_inputs_are_rejected() {
    let rejected = ["", "a123456(3)", "abcdefgh", "A123456()", "()", "((((("];
    for input in rejected {
        let result = validate_hkid(input, false);
        assert_eq!(
            result.unwrap_err(),
            "Invalid HKID format: incorrect structure.",
            "input {:?}",
            input
        );
    }
    // Parentheses are cosmetic wherever they appear: stripping them first
    // can still leave a structurally valid string.
    assert_eq!(validate_hkid("A1234(5)63", false), Ok(true));
}

#[test]
fn test_generate_boundary_prefixes_are_rejected() {
    for bad in ["", "a", "ABC", "A1", "(", "ΩΩ"] {
        let result = generate_hkid(Some(bad), false);
        let err = result.unwrap_err();
        assert_eq!(
            err,
            format!(
                "Prefix '{}' is not a valid HKID prefix format (must be 1 or 2 uppercase letters)",
                bad
            )
        );
    }
}

#[test]
fn test_generate_unknown_prefix_error_message() {
    let err = generate_hkid(Some("ZZ"), true).unwrap_err();
    assert_eq!(err, "Prefix 'ZZ' is not recognized");
}

#[test]
fn test_generate_output_shape() {
    let hkid = generate_hkid(Some("WX"), true).unwrap();
    assert_eq!(hkid.len(), 11);
    assert!(hkid.starts_with("WX"));
    assert_eq!(&hkid[8..9], "(");
    assert_eq!(&hkid[10..11], ")");
    let digits = &hkid[2..8];
    assert!(digits.chars().all(|c| c.is_ascii_digit()));
    let cd = hkid.chars().nth(9).unwrap();
    assert_eq!(calculate_check_digit(&hkid[..8]), Some(cd));
}

#[test]
fn test_lost_card_count_parsing_edges() {
    // The count is read the way str::parse::<u8> reads it.
    assert_eq!(HKIDSymbol::parse("L+5"), HKIDSymbol::LostCard(5));
    assert_eq!(HKIDSymbol::parse("L007"), HKIDSymbol::LostCard(7));
    assert_eq!(HKIDSymbol::parse("L255"), HKIDSymbol::LostCard(255));
    assert_eq!(
        HKIDSymbol::parse("L256"),
        HKIDSymbol::Unknown("L256".to_string())
    );
    assert_eq!(
        HKIDSymbol::parse("L-5"),
        HKIDSymbol::Unknown("L-5".to_string())
    );
    assert_eq!(HKIDSymbol::parse("L"), HKIDSymbol::Unknown("L".to_string()));
    assert_eq!(
        HKIDSymbol::parse("L+"),
        HKIDSymbol::Unknown("L+".to_string())
    );
}

#[test]
fn test_office_code_needs_ascii_lead() {
    // Two single-byte characters form an office code; a wider leading
    // character does not, even with a digit after it.
    assert_eq!(
        HKIDSymbol::parse("15"),
        HKIDSymbol::IssuingOfficeCode("15".to_string())
    );
    assert_eq!(
        HKIDSymbol::parse("é5"),
        HKIDSymbol::Unknown("é5".to_string())
    );
}

#[test]
fn test_symbol_get_str_other_property() {
    assert_eq!(HKIDSymbol::RightOfAbode.get_str("Other"), None);
    assert_eq!(HKIDSymbol::LostCard(1).get_str(""), None);
}

#[test]
fn test_prefix_message_for_every_known_prefix() {
    for i in 0..30 {
        let code = known_prefix_at(i);
        let prefix = HKIDPrefix::parse(&code);
        assert!(prefix.is_known());
        assert!(prefix.get_message().is_some());
        assert_eq!(prefix.as_str(), code);
    }
}
