use hkid_ops::hkid_generator::{
    generate_hkid, random_known_prefix, random_prefix, random_uppercase_letter,
};
use hkid_ops::hkid_prefix::HKIDPrefix;

#[test]
fn test_random_uppercase_letter_range() {
    // Run the function multiple times to check its range and type
    for _ in 0..100 {
        let c = random_uppercase_letter();

        assert!(
            c.is_ascii_uppercase(),
            "Generated char '{}' is not ASCII uppercase",
            c
        );
        assert!(
            ('A'..='Z').contains(&c),
            "Generated char '{}' is not in 'A'..='Z'",
            c
        );
    }
}

#[test]
fn test_random_prefix_length_and_case() {
    for _ in 0..100 {
        let prefix = random_prefix();
        assert!(
            prefix.len() == 1 || prefix.len() == 2,
            "Prefix length should be 1 or 2, got '{}'",
            prefix
        );
        assert!(
            prefix.chars().all(|c| c.is_ascii_uppercase()),
            "Prefix '{}' should be all uppercase",
            prefix
        );
    }
}

#[test]
fn test_random_known_prefix_is_known() {
    for _ in 0..20 {
        if let Some(prefix) = random_known_prefix() {
            // Must be one of the known prefixes in the enum
            let parsed = HKIDPrefix::parse(&prefix);
            assert!(
                parsed.is_known(),
                "random_known_prefix produced unknown prefix: {}",
                prefix
            );
        }
    }
}

// Helper to check HKID format: PREFIX + 6 digits + (check digit)
fn is_valid_format(hkid: &str) -> bool {
    let parts: Vec<_> = hkid.split(['(', ')']).collect();

    if parts.len() != 3 {
        return false;
    }

    let prefix_digits = parts[0];
    let check_digit = parts[1];

    if check_digit.len() != 1 {
        return false;
    }

    let prefix_len = prefix_digits.len();

    if prefix_len < 7 || prefix_len > 8 {
        return false;
    }

    // Last 6 chars before ( should be digits
    prefix_digits
        .chars()
        .rev()
        .take(6)
        .all(|c| c.is_ascii_digit())
}

#[test]
fn hkid_generator_test_generate_hkid_with_known_prefix() {
    let prefix = "A";
    let result = generate_hkid(Some(prefix), true);

    assert!(result.is_ok());

    let hkid = result.unwrap();

    assert!(hkid.starts_with(prefix));
    assert!(is_valid_format(&hkid));
}

#[test]
fn hkid_generator_test_generate_hkid_with_two_letter_known_prefix() {
    let prefix = "WX";
    let result = generate_hkid(Some(prefix), true);

    assert!(result.is_ok());

    let hkid = result.unwrap();

    assert!(hkid.starts_with(prefix));
    assert!(is_valid_format(&hkid));
}

#[test]
fn hkid_generator_test_generate_hkid_with_custom_prefix_allowed() {
    let prefix = "ZZ";
    let result = generate_hkid(Some(prefix), false);

    assert!(result.is_ok());

    let hkid = result.unwrap();

    assert!(hkid.starts_with(prefix));
    assert!(is_valid_format(&hkid));
}

#[test]
fn hkid_generator_test_generate_hkid_with_random_known_prefix() {
    // Should generate HKID with a valid known prefix
    let result = generate_hkid(None, true);

    assert!(result.is_ok());

    let hkid = result.unwrap();

    assert!(is_valid_format(&hkid));

    // The prefix should be known
    let prefix_len = hkid.find(|c: char| c.is_ascii_digit()).unwrap();
    let prefix = &hkid[..prefix_len];

    assert!(HKIDPrefix::parse(prefix).is_known());
}

#[test]
fn hkid_generator_test_generate_hkid_with_random_any_prefix() {
    let result = generate_hkid(None, false);

    assert!(result.is_ok());

    let hkid = result.unwrap();

    assert!(is_valid_format(&hkid));

    let prefix_len = hkid.find(|c: char| c.is_ascii_digit()).unwrap();

    assert!(prefix_len == 1 || prefix_len == 2);

    let prefix = &hkid[..prefix_len];

    for c in prefix.chars() {
        assert!(c.is_ascii_uppercase());
    }
}

#[test]
fn hkid_generator_test_generate_hkid_with_empty_prefix() {
    // Should treat empty string as invalid and return error when must_exist_in_enum is true
    let result = generate_hkid(Some(""), true);
    assert!(result.is_err());
}

#[test]
fn hkid_generator_test_generate_hkid_with_lowercase_prefix() {
    // Should treat lowercase prefix as not valid
    let result = generate_hkid(Some("a"), true);
    assert!(result.is_err());
}

#[test]
fn hkid_generator_test_generate_hkid_with_unknown_prefix_not_allowed() {
    // Custom prefix "ZZ" not allowed if must_exist_in_enum is true
    let result = generate_hkid(Some("ZZ"), true);
    assert!(result.is_err());
}
