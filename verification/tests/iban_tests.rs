use istr::iban_parsing::{iban_diagnostic, Iban, IbanError};
use istr::iban_registry::{lookup_country_layout, BbanClass};
use std::str::FromStr;
use iban::IbanLike;

fn mod97_of(s: &str) -> u32 {
    let rearranged: String = format!("{}{}", &s[4..], &s[..4]);
    let mut acc: u32 = 0;
    for c in rearranged.chars() {
        if c.is_ascii_digit() {
            acc = (acc * 10 + (c as u32 - 48)) % 97;
        } else {
            acc = (acc * 100 + (c as u32 - 55)) % 97;
        }
    }
    acc
}

#[test]
fn iban_gb_scenario() {
    let x = Iban::parse("GB29NWBK60161331926819").expect("valid IBAN");
    assert_eq!(x.country_code(), "GB");
    assert_eq!(x.check_digits(), "29");
    assert_eq!(x.bban(), "NWBK60161331926819");
    assert_eq!(x.bank_identifier().as_deref(), Some("NWBK"));
    assert_eq!(x.branch_identifier().as_deref(), Some("601613"));
}

#[test]
fn iban_truncated_is_invalid_format() {
    // one character removed: the length no longer matches the GB layout
    let e = Iban::parse("GB29NWBK6016133192681").unwrap_err();
    assert_eq!(e, IbanError::InvalidFormat);
    assert_eq!(iban_diagnostic(e), "Invalid format (len/char)");
}

#[test]
fn iban_unknown_country() {
    let e = Iban::parse("ZZ89370400440532013000").unwrap_err();
    assert_eq!(e, IbanError::UnknownCountry);
    assert_eq!(iban_diagnostic(e), "Invalid country code");
}

#[test]
fn iban_invalid_checksum() {
    // valid GB structure, wrong check digits
    let e = Iban::parse("GB30NWBK60161331926819").unwrap_err();
    assert_eq!(e, IbanError::InvalidChecksum);
    assert_eq!(iban_diagnostic(e), "Invalid checksum");
}

#[test]
fn iban_invalid_bban() {
    // a digit where the GB layout requires an uppercase letter
    let e = Iban::parse("GB291WBK60161331926819").unwrap_err();
    assert_eq!(e, IbanError::InvalidBban);
    assert_eq!(iban_diagnostic(e), "Invalid Bban");
}

#[test]
fn iban_basic_shape_violations() {
    assert_eq!(Iban::parse("").unwrap_err(), IbanError::InvalidFormat);
    assert_eq!(Iban::parse("GB2").unwrap_err(), IbanError::InvalidFormat);
    // lowercase country code
    assert_eq!(Iban::parse("gb29NWBK60161331926819").unwrap_err(), IbanError::InvalidFormat);
    // letters in the check-digit positions
    assert_eq!(Iban::parse("GBXXNWBK60161331926819").unwrap_err(), IbanError::InvalidFormat);
    // whitespace is not part of the electronic format
    assert_eq!(Iban::parse("GB29 NWBK 6016 1331 9268 19").unwrap_err(), IbanError::InvalidFormat);
}

#[test]
fn iban_partial_validity_poland() {
    // Poland registers no bank identifier position, only a branch: the IBAN
    // is still valid while bank_identifier is absent
    let x = Iban::parse("PL61109010140000071219812874").expect("valid IBAN");
    assert_eq!(x.bank_identifier(), None);
    assert_eq!(x.branch_identifier().as_deref(), Some("10901014"));
}

#[test]
fn iban_subfield_spreads() {
    let de = Iban::parse("DE44500105175407324931").expect("valid IBAN");
    assert_eq!(de.bank_identifier().as_deref(), Some("50010517"));
    assert_eq!(de.branch_identifier(), None);

    let fr = Iban::parse("FR1420041010050500013M02606").expect("valid IBAN");
    assert_eq!(fr.bank_identifier().as_deref(), Some("20041"));
    assert_eq!(fr.branch_identifier(), None);

    let is = Iban::parse("IS140159260076545510730339").expect("valid IBAN");
    assert_eq!(is.bank_identifier().as_deref(), Some("01"));
    assert_eq!(is.branch_identifier().as_deref(), Some("59"));
}

#[test]
fn iban_single_digit_errors_always_caught() {
    // mutate every digit position of a valid IBAN to every other digit:
    // validation must fail each time
    let original = "GB29NWBK60161331926819";
    for (i, c) in original.char_indices() {
        if !c.is_ascii_digit() {
            continue;
        }
        for d in '0'..='9' {
            if d == c {
                continue;
            }
            let mut mutated: Vec<char> = original.chars().collect();
            mutated[i] = d;
            let m: String = mutated.into_iter().collect();
            assert!(Iban::parse(&m).is_err(), "mutation {m} must be invalid");
        }
    }
}

#[test]
fn iban_single_letter_errors_always_caught() {
    let original = "GB29NWBK60161331926819";
    for (i, c) in original.char_indices() {
        if !c.is_ascii_uppercase() {
            continue;
        }
        for d in 'A'..='Z' {
            if d == c {
                continue;
            }
            let mut mutated: Vec<char> = original.chars().collect();
            mutated[i] = d;
            let m: String = mutated.into_iter().collect();
            assert!(Iban::parse(&m).is_err(), "mutation {m} must be invalid");
        }
    }
}

#[test]
fn iban_digit_for_letter_substitution_can_evade_checksum() {
    // In a character class that admits both digits and letters, exchanging a
    // digit for a letter changes the length of the numeral expansion, and the
    // mod-97 single-error guarantee no longer applies: this mutation of a
    // valid French IBAN is itself valid.
    assert!(Iban::parse("FR1420041010050500013M02606").is_ok());
    assert!(Iban::parse("FR1420041010050Q00013M02606").is_ok());
}

#[test]
fn iban_agrees_with_reference_crate() {
    let candidates = [
        "GB29NWBK60161331926819",
        "DE44500105175407324931",
        "FR1420041010050500013M02606",
        "PL61109010140000071219812874",
        "IS140159260076545510730339",
        "KZ86125KZT5004100100",
        "GB30NWBK60161331926819",
        "GB291WBK60161331926819",
        "ZZ89370400440532013000",
        "GB29NWBK6016133192681",
    ];
    for s in candidates {
        let mine = Iban::parse(s);
        let theirs = iban::Iban::from_str(s);
        assert_eq!(mine.is_ok(), theirs.is_ok(), "disagreement on {s}");
        if let (Ok(m), Ok(t)) = (mine, theirs) {
            assert_eq!(m.country_code(), t.country_code());
            assert_eq!(m.check_digits(), t.check_digits_str());
            assert_eq!(m.bban(), t.bban());
            assert_eq!(m.bank_identifier().as_deref(), t.bank_identifier());
            assert_eq!(m.branch_identifier().as_deref(), t.branch_identifier());
        }
    }
}

#[test]
fn iban_registry_agrees_with_reference_crate_for_every_country() {
    // For every country in the layout table, build a synthetic IBAN that
    // matches the registered classes, give it correct check digits, and
    // confirm that both this library and the reference crate accept it and
    // agree on every subfield. A wrong length, class run, or identifier
    // position in the table would make one side reject or disagree.
    let mut countries = 0;
    for c0 in b'A'..=b'Z' {
        for c1 in b'A'..=b'Z' {
            let layout = match lookup_country_layout(c0 as char, c1 as char) {
                Some(l) => l,
                None => continue,
            };
            countries += 1;
            let mut bban = String::new();
            for (len, class) in [
                (layout.g1_len, layout.g1),
                (layout.g2_len, layout.g2),
                (layout.g3_len, layout.g3),
            ] {
                let fill = match class {
                    BbanClass::Digit => '0',
                    BbanClass::Upper => 'A',
                    BbanClass::Alnum => '0',
                };
                for _ in 0..len {
                    bban.push(fill);
                }
            }
            let provisional = format!("{}{}00{}", c0 as char, c1 as char, bban);
            let check = 98 - mod97_of(&provisional);
            let s = format!("{}{}{:02}{}", c0 as char, c1 as char, check, bban);
            assert_eq!(mod97_of(&s), 1, "construction for {s}");

            let mine = Iban::parse(&s).unwrap_or_else(|e| panic!("{s} rejected here: {e:?}"));
            let theirs =
                iban::Iban::from_str(&s).unwrap_or_else(|e| panic!("{s} rejected by crate: {e}"));
            assert_eq!(mine.bban(), theirs.bban());
            assert_eq!(mine.bank_identifier().as_deref(), theirs.bank_identifier());
            assert_eq!(mine.branch_identifier().as_deref(), theirs.branch_identifier());
        }
    }
    assert!(countries > 80, "the registry should cover the known countries");
}
