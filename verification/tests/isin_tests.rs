use istr::isin_parsing::{validate, Isin, IsinError};

#[test]
fn isin_apple_scenario() {
    let x = Isin::parse("US0378331005").expect("valid ISIN");
    assert_eq!(x.prefix(), "US");
    assert_eq!(x.basic_code(), "037833100");
    assert_eq!(x.check_digit(), '5');
    assert_eq!(x.check_digit_str(), "5");
}

#[test]
fn isin_more_valid_samples() {
    for s in ["GB0002634946", "DE000BASF111"] {
        assert!(validate(s), "{s} should validate");
        let x = Isin::parse(s).expect("valid ISIN");
        assert_eq!(x.prefix(), &s[0..2]);
        assert_eq!(x.basic_code(), &s[2..11]);
    }
}

#[test]
fn isin_invalid_length() {
    assert_eq!(Isin::parse("US037833100").unwrap_err(), IsinError::InvalidLength);
    assert_eq!(Isin::parse("US03783310055").unwrap_err(), IsinError::InvalidLength);
    assert!(!validate(""));
}

#[test]
fn isin_invalid_character() {
    // lowercase is not accepted
    assert_eq!(Isin::parse("us0378331005").unwrap_err(), IsinError::InvalidCharacter);
    // the prefix must be alphabetic
    assert_eq!(Isin::parse("0S0378331005").unwrap_err(), IsinError::InvalidCharacter);
    // the check digit must be numeric
    assert_eq!(Isin::parse("US037833100A").unwrap_err(), IsinError::InvalidCharacter);
}

#[test]
fn isin_checksum_mismatch() {
    assert_eq!(Isin::parse("US0378331004").unwrap_err(), IsinError::ChecksumMismatch);
    assert!(!validate("US0378331006"));
}

#[test]
fn isin_check_digit_round_trip_samples() {
    // the double-add-double sum over the expanded 11-character payload
    // reproduces the twelfth character
    for s in ["US0378331005", "GB0002634946", "DE000BASF111"] {
        let mut digits: Vec<u32> = Vec::new();
        for ch in s[0..11].chars() {
            let v: u32 = if ch.is_ascii_digit() { ch as u32 - 48 } else { ch as u32 - 55 };
            if v < 10 {
                digits.push(v);
            } else {
                digits.push(v / 10);
                digits.push(v % 10);
            }
        }
        let mut sum: u32 = 0;
        for (k, d) in digits.iter().rev().enumerate() {
            let v = if k % 2 == 0 { d * 2 } else { *d };
            sum += v / 10 + v % 10;
        }
        let check = (10 - sum % 10) % 10;
        let expected = s.chars().nth(11).unwrap();
        assert_eq!(char::from_digit(check, 10).unwrap(), expected, "for {s}");
        assert!(validate(s));
    }
}

#[test]
fn isin_agrees_with_reference_crate() {
    let candidates = [
        "US0378331005",
        "GB0002634946",
        "DE000BASF111",
        "US0378331004",
        "US037833100A",
        "XX0000000000",
        "AU0000XVGZA3",
    ];
    for s in candidates {
        let mine = Isin::parse(s);
        let theirs = isin::parse(s);
        assert_eq!(mine.is_ok(), theirs.is_ok(), "disagreement on {s}");
        if let (Ok(m), Ok(t)) = (mine, theirs) {
            assert_eq!(m.prefix(), t.prefix());
            assert_eq!(m.basic_code(), t.basic_code());
            assert_eq!(m.check_digit(), t.check_digit());
        }
    }
}
