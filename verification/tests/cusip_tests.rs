use istr::cusip_parsing::{Cusip, CusipError};

#[test]
fn cusip_apple_scenario() {
    let c = Cusip::parse("037833100").expect("valid CUSIP");
    assert_eq!(c.issuer_num(), "037833");
    assert_eq!(c.issue_num(), "10");
    assert_eq!(c.check_digit(), '0');
    assert_eq!(c.check_digit_str(), "0");
    assert_eq!(c.payload(), "03783310");
    assert!(!c.is_cins());
    assert_eq!(c.country_code(), None);
}

#[test]
fn cusip_invalid_length() {
    assert_eq!(Cusip::parse("03783310").unwrap_err(), CusipError::InvalidLength);
    assert_eq!(Cusip::parse("").unwrap_err(), CusipError::InvalidLength);
    assert_eq!(Cusip::parse("0378331000").unwrap_err(), CusipError::InvalidLength);
}

#[test]
fn cusip_invalid_character() {
    assert_eq!(Cusip::parse("03783!100").unwrap_err(), CusipError::InvalidCharacter);
    // the check digit position must be a digit
    assert_eq!(Cusip::parse("03783310A").unwrap_err(), CusipError::InvalidCharacter);
}

#[test]
fn cusip_checksum_mismatch() {
    assert_eq!(Cusip::parse("037833101").unwrap_err(), CusipError::ChecksumMismatch);
    assert_eq!(Cusip::parse("037833109").unwrap_err(), CusipError::ChecksumMismatch);
}

#[test]
fn cusip_letters_case_insensitive() {
    let upper = Cusip::parse("09739D100").expect("valid CUSIP");
    assert_eq!(upper.issuer_num(), "09739D");
    assert_eq!(upper.check_digit(), '0');
    // lowercase letters carry the same numeral value
    let lower = Cusip::parse("09739d100").expect("valid CUSIP, lowercase letter");
    assert_eq!(lower.issuer_num(), "09739d");
    assert_eq!(lower.check_digit(), '0');
}

#[test]
fn cusip_extension_characters() {
    // '*' maps to numeral value 36
    let c = Cusip::parse("12345*109").expect("valid CUSIP with extension character");
    assert_eq!(c.issuer_num(), "12345*");
    assert!(!c.is_cins());
}

#[test]
fn cusip_cins_interpretation() {
    let c = Cusip::parse("S08000127").expect("valid CINS");
    assert!(c.is_cins());
    assert_eq!(c.country_code().as_deref(), Some("S"));
    assert!(c.is_cins_base());
    assert!(!c.is_cins_extended());

    let j = Cusip::parse("J0176K103").expect("valid CINS");
    assert!(j.is_cins());
    assert_eq!(j.country_code().as_deref(), Some("J"));
    assert!(j.is_cins_base());
}

#[test]
fn cusip_private_use_ranges() {
    // issuer positions 4-5 are "99"
    let c = Cusip::parse("123994568").expect("valid CUSIP");
    assert!(c.has_private_issuer());
    assert!(!c.is_private_issue());
    assert!(c.is_private_use());

    // issue number "98" is in the private range
    let d = Cusip::parse("037833985").expect("valid CUSIP");
    assert!(!d.has_private_issuer());
    assert!(d.is_private_issue());
    assert!(d.is_private_use());

    // the scenario identifier is not private at all
    let e = Cusip::parse("037833100").expect("valid CUSIP");
    assert!(!e.is_private_use());
}

#[test]
fn cusip_check_digit_round_trip_samples() {
    // re-deriving the check digit from the payload reproduces it, for a
    // spread of valid identifiers
    for s in ["037833100", "09739D100", "S08000127", "J0176K103", "12345*109"] {
        let c = Cusip::parse(s).expect("valid CUSIP");
        let payload = c.payload();
        let mut sum: u32 = 0;
        for (i, ch) in payload.chars().enumerate() {
            let v: u32 = if ch.is_ascii_digit() {
                ch as u32 - 48
            } else if ch.is_ascii_alphabetic() {
                (ch.to_ascii_uppercase() as u32) - 55
            } else {
                match ch {
                    '*' => 36,
                    '@' => 37,
                    _ => 38,
                }
            };
            let vv = if i % 2 == 1 { v * 2 } else { v };
            sum += vv / 10 + vv % 10;
        }
        let check = (10 - sum % 10) % 10;
        assert_eq!(c.check_digit(), char::from_digit(check, 10).unwrap(), "for {s}");
    }
}

#[test]
fn cusip_agrees_with_reference_crate() {
    let candidates = [
        "037833100",
        "09739D100",
        "S08000127",
        "J0176K103",
        "123994568",
        "037833985",
        "037833101",
        "000000000",
        "ABCDEFGH9",
        "912828YV6",
    ];
    for s in candidates {
        let mine = Cusip::parse(s);
        let theirs = cusip::CUSIP::parse(s);
        assert_eq!(mine.is_ok(), theirs.is_ok(), "disagreement on {s}");
        if let (Ok(m), Ok(t)) = (mine, theirs) {
            assert_eq!(m.issuer_num(), t.issuer_num());
            assert_eq!(m.issue_num(), t.issue_num());
            assert_eq!(m.check_digit(), t.check_digit());
            assert_eq!(m.is_cins(), t.is_cins());
            assert_eq!(m.has_private_issuer(), t.has_private_issuer());
            assert_eq!(m.is_private_issue(), t.is_private_issue());
            assert_eq!(m.is_private_use(), t.is_private_use());
        }
    }
}
