use hkid_ops::hkid_symbol::HKIDSymbol;

#[test]
fn test_symbol_and_message_basic_variants() {
    let symbol = HKIDSymbol::RightOfAbode;

    assert_eq!(symbol.get_str("Symbol"), Some("A".to_string()));
    assert_eq!(
        symbol.get_message(),
        Some("The holder has the right of abode in Hong Kong".to_string())
    );

    let symbol = HKIDSymbol::StayLimitedByImmigration;

    assert_eq!(symbol.get_str("Symbol"), Some("C".to_string()));
    assert_eq!(
        symbol.get_message(),
        Some("The holder's stay in Hong Kong is limited by the Director of Immigration at registration".to_string())
    );
}

#[test]
fn test_symbol_and_message_lost_card() {
    let symbol = HKIDSymbol::LostCard(2);

    assert_eq!(symbol.get_str("Symbol"), Some("<L#>".to_string()));
    assert_eq!(
        symbol.get_message(),
        Some("The holder has lost their ID card. 'L1' for once, 'L2' for twice, etc.".to_string())
    );
}

#[test]
fn test_symbol_and_message_issuing_office_code() {
    let symbol = HKIDSymbol::IssuingOfficeCode("K2".to_string());
    assert_eq!(symbol.get_str("Symbol"), Some("<Office Code>".to_string()));
    assert_eq!(
        symbol.get_message(),
        Some("Issuing office code (e.g., H1, K2, S1, P1, V1, etc.)".to_string())
    );
}

#[test]
fn test_symbol_and_message_unknown() {
    let symbol = HKIDSymbol::Unknown("XYZ".to_string());
    assert_eq!(symbol.get_str("Symbol"), Some("<Unknown>".to_string()));
    assert_eq!(
        symbol.get_message(),
        Some("Unknown or custom symbol".to_string())
    );
}

#[test]
fn test_parse_standard_symbols() {
    assert_eq!(
        HKIDSymbol::parse("***"),
        HKIDSymbol::AdultEligibleReentryPermit
    );
    assert_eq!(
        HKIDSymbol::parse("*"),
        HKIDSymbol::YouthEligibleReentryPermit
    );
    assert_eq!(HKIDSymbol::parse("A"), HKIDSymbol::RightOfAbode);
    assert_eq!(HKIDSymbol::parse("B"), HKIDSymbol::BirthDateOrPlaceChanged);
    assert_eq!(HKIDSymbol::parse("C"), HKIDSymbol::StayLimitedByImmigration);
    assert_eq!(HKIDSymbol::parse("N"), HKIDSymbol::NameChanged);
    assert_eq!(HKIDSymbol::parse("O"), HKIDSymbol::BornOutsideHKChinaMacau);
    assert_eq!(HKIDSymbol::parse("R"), HKIDSymbol::RightToLand);
    assert_eq!(
        HKIDSymbol::parse("U"),
        HKIDSymbol::StayUnlimitedByImmigration
    );
    assert_eq!(HKIDSymbol::parse("W"), HKIDSymbol::BornInMacau);
    assert_eq!(HKIDSymbol::parse("X"), HKIDSymbol::BornInMainlandChina);
    assert_eq!(HKIDSymbol::parse("Y"), HKIDSymbol::BirthDateConfirmed);
    assert_eq!(HKIDSymbol::parse("Z"), HKIDSymbol::BornInHongKong);
}

#[test]
fn test_parse_lost_card() {
    assert_eq!(HKIDSymbol::parse("L1"), HKIDSymbol::LostCard(1));
    assert_eq!(HKIDSymbol::parse("L2"), HKIDSymbol::LostCard(2));
    assert_eq!(HKIDSymbol::parse("L10"), HKIDSymbol::LostCard(10));
    // Invalid lost card (not a number after L)
    assert_eq!(
        HKIDSymbol::parse("Lab"),
        HKIDSymbol::Unknown("Lab".to_string())
    );
}

#[test]
fn test_parse_issuing_office_code() {
    assert_eq!(
        HKIDSymbol::parse("H1"),
        HKIDSymbol::IssuingOfficeCode("H1".to_string())
    );
    assert_eq!(
        HKIDSymbol::parse("K2"),
        HKIDSymbol::IssuingOfficeCode("K2".to_string())
    );
    assert_eq!(
        HKIDSymbol::parse("S9"),
        HKIDSymbol::IssuingOfficeCode("S9".to_string())
    );
    // Should not be recognized as issuing office code if not two characters or second not a digit
    assert_eq!(
        HKIDSymbol::parse("HF"),
        HKIDSymbol::Unknown("HF".to_string())
    );
}

#[test]
fn test_parse_unknown() {
    assert_eq!(
        HKIDSymbol::parse("XYZ"),
        HKIDSymbol::Unknown("XYZ".to_string())
    );
    assert_eq!(HKIDSymbol::parse(""), HKIDSymbol::Unknown("".to_string()));
    assert_eq!(HKIDSymbol::parse("Q"), HKIDSymbol::Unknown("Q".to_string()));
    assert_eq!(HKIDSymbol::parse("1"), HKIDSymbol::Unknown("1".to_string()));
}
