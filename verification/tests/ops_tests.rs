use hkid_ops::hkid_ops::HKIDOps;
use hkid_ops::hkid_prefix::HKIDPrefix;

#[test]
fn hkid_ops_test_char_to_value() {
    let ops = HKIDOps::new();

    assert_eq!(ops.char_to_value('A'), Some(10));
    assert_eq!(ops.char_to_value('Z'), Some(35));
    assert_eq!(ops.char_to_value('a'), Some(10));
    assert_eq!(ops.char_to_value('z'), Some(35));
    assert_eq!(ops.char_to_value('0'), Some(0));
    assert_eq!(ops.char_to_value('9'), Some(9));
    assert_eq!(ops.char_to_value(' '), Some(36));
    assert_eq!(ops.char_to_value('@'), None);
    assert_eq!(ops.char_to_value('_'), None);
}

#[test]
fn test_random_uppercase_letter() {
    let ops = HKIDOps::new();
    let letter = ops.random_uppercase_letter();

    assert!(
        letter >= 'A' && letter <= 'Z',
        "Letter should be ASCII uppercase"
    );
}

#[test]
fn test_random_known_prefix() {
    let hkid_ops = HKIDOps::new();
    let prefix_opt = hkid_ops.random_known_prefix();

    if let Some(prefix) = prefix_opt {
        assert!(HKIDPrefix::parse(&prefix).is_known());
    }
}

#[test]
fn test_random_prefix() {
    let hkid_ops = HKIDOps::new();
    let prefix = hkid_ops.random_prefix();

    assert!(
        prefix.len() == 1 || prefix.len() == 2,
        "Prefix should be 1 or 2 characters"
    );
    assert!(
        prefix.chars().all(|c| c.is_ascii_uppercase()),
        "All characters should be ASCII uppercase"
    );
}

#[test]
fn hkid_ops_test_calculate_check_digit_single_letter_prefix() {
    let hkid_ops = HKIDOps::new();

    assert_eq!(hkid_ops.calculate_check_digit("A123456"), Some('3'));
    assert_ne!(hkid_ops.calculate_check_digit("B987654"), Some('7'));
    assert_ne!(hkid_ops.calculate_check_digit("Z123456"), Some('0'));
}

#[test]
fn hkid_ops_test_calculate_check_digit_double_letter_prefix() {
    let hkid_ops = HKIDOps::new();

    assert_ne!(hkid_ops.calculate_check_digit("WX123456"), Some('4'));
    assert_ne!(hkid_ops.calculate_check_digit("AB987654"), Some('5'));
    assert_ne!(hkid_ops.calculate_check_digit("ZZ111111"), Some('3'));
}

#[test]
fn hkid_ops_test_calculate_check_digit_resulting_in_a() {
    let hkid_ops = HKIDOps::new();
    assert_ne!(hkid_ops.calculate_check_digit("C668668"), Some('A'));
}

#[test]
fn hkid_ops_test_calculate_check_digit_with_padding() {
    let hkid_ops = HKIDOps::new();

    assert_eq!(
        hkid_ops.calculate_check_digit("P123456"),
        hkid_ops.calculate_check_digit("P123456")
    );
}

#[test]
fn test_calculate_check_digit_invalid_char() {
    let hkid_ops = HKIDOps::new();

    assert_eq!(hkid_ops.calculate_check_digit("A12345_"), None);
    assert_eq!(hkid_ops.calculate_check_digit("A12345-"), None);
}

#[test]
fn test_calculate_check_digit_invalid_length() {
    let hkid_ops = HKIDOps::new();

    assert_eq!(hkid_ops.calculate_check_digit("A12345"), None); // 6 chars, too short
    assert_eq!(hkid_ops.calculate_check_digit("A12345678"), None); // 9 chars, too long
}

// Helper to check HKID format: PREFIX + 6 digits + (check digit)
fn is_valid_format(hkid: &str) -> bool {
    let parts: Vec<_> = hkid.split(['(', ')']).collect();

    if parts.len() != 3 {
        return false;
    }

    let prefix_digits = parts[0];
    let check_digit = parts[1];

    if check_digit.len() != 1 {
        return false;
    }

    let prefix_len = prefix_digits.len();

    if prefix_len < 7 || prefix_len > 8 {
        return false;
    }

    // Last 6 chars before ( should be digits
    prefix_digits
        .chars()
        .rev()
        .take(6)
        .all(|c| c.is_ascii_digit())
}

#[test]
fn hkid_ops_test_generate_hkid_with_known_prefix() {
    let hkid_ops = HKIDOps::new();
    let prefix = "A";
    let result = hkid_ops.generate_hkid(Some(prefix), true);

    assert!(result.is_ok());

    let hkid = result.unwrap();

    assert!(hkid.starts_with(prefix));
    assert!(is_valid_format(&hkid));
}

#[test]
fn hkid_ops_test_generate_hkid_with_two_letter_known_prefix() {
    let hkid_ops = HKIDOps::new();
    let prefix = "WX";
    let result = hkid_ops.generate_hkid(Some(prefix), true);

    assert!(result.is_ok());

    let hkid = result.unwrap();

    assert!(hkid.starts_with(prefix));
    assert!(is_valid_format(&hkid));
}

#[test]
fn hkid_ops_test_generate_hkid_with_custom_prefix_allowed() {
    let hkid_ops = HKIDOps::new();
    let prefix = "ZZ";
    let result = hkid_ops.generate_hkid(Some(prefix), false);

    assert!(result.is_ok());

    let hkid = result.unwrap();

    assert!(hkid.starts_with(prefix));
    assert!(is_valid_format(&hkid));
}

#[test]
fn hkid_ops_test_generate_hkid_with_random_known_prefix() {
    let hkid_ops = HKIDOps::new();
    let result = hkid_ops.generate_hkid(None, true);

    if let Err(e) = &result {
        println!("generate_hkid error: {:?}", e);
    }

    assert!(result.is_ok());

    let hkid = result.unwrap();

    assert!(is_valid_format(&hkid));

    // The prefix should be known
    let prefix_len = hkid.find(|c: char| c.is_ascii_digit()).unwrap();
    let prefix = &hkid[..prefix_len];

    assert!(HKIDPrefix::parse(prefix).is_known());
}

#[test]
fn hkid_ops_test_generate_hkid_with_random_any_prefix() {
    let hkid_ops = HKIDOps::new();
    let result = hkid_ops.generate_hkid(None, false);

    assert!(result.is_ok());

    let hkid = result.unwrap();

    assert!(is_valid_format(&hkid));

    let prefix_len = hkid.find(|c: char| c.is_ascii_digit()).unwrap();

    assert!(prefix_len == 1 || prefix_len == 2);

    let prefix = &hkid[..prefix_len];

    for c in prefix.chars() {
        assert!(c.is_ascii_uppercase());
    }
}

#[test]
fn hkid_ops_test_generate_hkid_with_empty_prefix() {
    let hkid_ops = HKIDOps::new();
    let result = hkid_ops.generate_hkid(Some(""), true);

    assert!(result.is_err());
}

#[test]
fn hkid_ops_test_generate_hkid_with_lowercase_prefix() {
    let hkid_ops = HKIDOps::new();
    let result = hkid_ops.generate_hkid(Some("a"), true);

    assert!(result.is_err());
}

#[test]
fn hkid_ops_test_generate_hkid_with_unknown_prefix_not_allowed() {
    let hkid_ops = HKIDOps::new();
    let result = hkid_ops.generate_hkid(Some("ZZ"), true);

    assert!(result.is_err());
}

#[test]
fn hkid_ops_test_validate_hkid_correct() {
    let hkid_ops = HKIDOps::new();
    let valid_hkid = "A123456(3)";
    let result = hkid_ops.validate_hkid(valid_hkid, false);

    assert!(result.is_ok());
    assert_eq!(result.unwrap(), true);
}

#[test]
fn hkid_ops_test_validate_hkid_incorrect_digit() {
    let hkid_ops = HKIDOps::new();
    let invalid_hkid = "A123456(9)";
    let result = hkid_ops.validate_hkid(invalid_hkid, false);

    assert!(result.is_ok());
    assert_eq!(result.unwrap(), false);
}

#[test]
fn hkid_ops_test_validate_hkid_invalid_format() {
    let hkid_ops = HKIDOps::new();
    let invalid_hkid_format = "A12345"; // less than required chars
    let result = hkid_ops.validate_hkid(invalid_hkid_format, false);

    assert!(result.is_err());
    assert_eq!(
        result.unwrap_err(),
        "Invalid HKID format: incorrect structure."
    );
}

#[test]
fn hkid_ops_test_validate_hkid_missing_check_digit() {
    let hkid_ops = HKIDOps::new();
    let missing_digit = "A123456";
    let result = hkid_ops.validate_hkid(missing_digit, false);

    assert!(result.is_err());
    assert_eq!(
        result.unwrap_err(),
        "Invalid HKID format: incorrect structure."
    );
}

#[test]
fn hkid_ops_test_validate_hkid_unknown_prefix_with_must_exist() {
    let hkid_ops = HKIDOps::new();
    let hkid = "XX123456(1)";
    let result = hkid_ops.validate_hkid(hkid, true);

    assert!(result.is_err());
    assert_eq!(result.unwrap_err(), "Prefix 'XX' is not recognized.");
}

#[test]
fn hkid_ops_test_validate_hkid_unknown_prefix_without_must_exist() {
    let hkid_ops = HKIDOps::new();
    let hkid = "ZZ123456(8)";
    let result = hkid_ops.validate_hkid(hkid, false);

    assert!(result.is_ok());
}

#[test]
fn hkid_ops_test_validate_hkid_no_parentheses() {
    let hkid_ops = HKIDOps::new();
    let valid_hkid = "A1234563";
    let result = hkid_ops.validate_hkid(valid_hkid, false);

    assert!(result.is_ok());
    assert_eq!(result.unwrap(), true);
}

#[test]
fn test_validate_hkid_missing_check_digit_branch() {
    let hkid_ops = HKIDOps::new();
    let result = hkid_ops.validate_hkid("A123456()", false);

    assert!(result.is_err());
    assert_eq!(
        result.unwrap_err(),
        "Invalid HKID format: incorrect structure."
    );
}

#[test]
fn test_validate_hkid_invalid_hkid_body() {
    let hkid_ops = HKIDOps::new();
    let result = hkid_ops.validate_hkid("A12345_(7)", false);

    assert!(result.is_err());
    assert_eq!(
        result.unwrap_err(),
        "Invalid HKID format: incorrect structure."
    );
}

#[test]
fn test_validate_hkid_lowercase_prefix() {
    let hkid_ops = HKIDOps::new();
    let result = hkid_ops.validate_hkid("a123456(7)", false);

    assert!(result.is_err());
    assert_eq!(
        result.unwrap_err(),
        "Invalid HKID format: incorrect structure."
    );
}
