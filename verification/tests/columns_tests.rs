use istr::cusip_columns;
use istr::iban_columns;
use istr::isin_columns;
use istr::url_columns;

fn col(items: &[Option<&str>]) -> Vec<Option<String>> {
    items.iter().map(|o| o.map(|s| s.to_string())).collect()
}

#[test]
fn cusip_full_column() {
    let inputs = col(&[Some("037833100"), Some("S08000127"), Some("bad"), None]);
    let rows = cusip_columns::cusip_full(&inputs);
    assert_eq!(rows.len(), 4);

    assert_eq!(rows[0].country_code, None);
    assert_eq!(rows[0].issuer.as_deref(), Some("037833"));
    assert_eq!(rows[0].issue.as_deref(), Some("10"));
    assert_eq!(rows[0].check_digit.as_deref(), Some("0"));

    assert_eq!(rows[1].country_code.as_deref(), Some("S"));
    assert_eq!(rows[1].issuer.as_deref(), Some("S08000"));

    assert_eq!(rows[2].issuer, None);
    assert_eq!(rows[3].issuer, None);
}

#[test]
fn cusip_single_field_columns() {
    let inputs = col(&[Some("037833100"), None, Some("037833101")]);
    assert_eq!(
        cusip_columns::cusip_issue_num(&inputs),
        vec![Some("10".to_string()), None, None]
    );
    assert_eq!(
        cusip_columns::cusip_issuer_num(&inputs),
        vec![Some("037833".to_string()), None, None]
    );
    assert_eq!(
        cusip_columns::cusip_payload(&inputs),
        vec![Some("03783310".to_string()), None, None]
    );
    assert_eq!(
        cusip_columns::cusip_check_digit(&inputs),
        vec![Some("0".to_string()), None, None]
    );
    assert_eq!(cusip_columns::cusip_is_cins(&inputs), vec![Some(false), None, None]);
    assert_eq!(cusip_columns::cusip_is_private_use(&inputs), vec![Some(false), None, None]);
}

#[test]
fn cusip_cins_columns_null_for_non_cins() {
    let inputs = col(&[Some("S08000127"), Some("037833100"), None]);
    assert_eq!(
        cusip_columns::cusip_country_code(&inputs),
        vec![Some("S".to_string()), None, None]
    );
    assert_eq!(cusip_columns::cusip_is_cins_base(&inputs), vec![Some(true), None, None]);
    assert_eq!(cusip_columns::cusip_is_cins_extended(&inputs), vec![Some(false), None, None]);
}

#[test]
fn isin_columns_basic() {
    let inputs = col(&[Some("US0378331005"), Some("US0378331004"), None]);
    let rows = isin_columns::isin_full(&inputs);
    assert_eq!(rows.len(), 3);
    assert_eq!(rows[0].country_code.as_deref(), Some("US"));
    assert_eq!(rows[0].security_id.as_deref(), Some("037833100"));
    assert_eq!(rows[0].check_digit.as_deref(), Some("5"));
    assert_eq!(rows[1].country_code, None);
    assert_eq!(rows[2].country_code, None);

    assert_eq!(
        isin_columns::isin_country_code(&inputs),
        vec![Some("US".to_string()), None, None]
    );
    assert_eq!(
        isin_columns::isin_security_id(&inputs),
        vec![Some("037833100".to_string()), None, None]
    );
    assert_eq!(
        isin_columns::isin_check_digit(&inputs),
        vec![Some("5".to_string()), None, None]
    );
    // a present invalid row is reported false; an absent row stays absent
    assert_eq!(isin_columns::isin_is_valid(&inputs), vec![Some(true), Some(false), None]);
}

#[test]
fn iban_columns_basic() {
    let inputs = col(&[
        Some("GB29NWBK60161331926819"),
        Some("PL61109010140000071219812874"),
        Some("GB29NWBK6016133192681"),
        None,
    ]);
    let rows = iban_columns::iban_extract_all(&inputs);
    assert_eq!(rows.len(), 4);
    assert_eq!(rows[0].country_code.as_deref(), Some("GB"));
    assert_eq!(rows[0].check_digits.as_deref(), Some("29"));
    assert_eq!(rows[0].bban.as_deref(), Some("NWBK60161331926819"));
    assert_eq!(rows[0].bank_id.as_deref(), Some("NWBK"));
    assert_eq!(rows[0].branch_id.as_deref(), Some("601613"));
    // valid, but Poland registers no bank identifier
    assert_eq!(rows[1].country_code.as_deref(), Some("PL"));
    assert_eq!(rows[1].bank_id, None);
    assert_eq!(rows[1].branch_id.as_deref(), Some("10901014"));
    // invalid row: all subfields absent
    assert_eq!(rows[2].country_code, None);
    assert_eq!(rows[2].bban, None);
    // absent row: all subfields absent
    assert_eq!(rows[3].country_code, None);

    assert_eq!(
        iban_columns::iban_is_valid(&inputs),
        vec![Some(true), Some(true), Some(false), None]
    );
}

#[test]
fn iban_check_column_diagnostics() {
    let inputs = col(&[
        Some("GB29NWBK60161331926819"),
        Some("GB29NWBK6016133192681"),
        Some("GB30NWBK60161331926819"),
        Some("GB291WBK60161331926819"),
        Some("ZZ89370400440532013000"),
        None,
    ]);
    let checks = iban_columns::iban_check(&inputs);
    assert_eq!(
        checks,
        vec![
            Some("ok".to_string()),
            Some("Invalid format (len/char)".to_string()),
            Some("Invalid checksum".to_string()),
            Some("Invalid Bban".to_string()),
            Some("Invalid country code".to_string()),
            None,
        ]
    );
}

#[test]
fn url_columns_basic() {
    let inputs = col(&[
        Some("https://user@example.com:8080/path?q=1#frag"),
        Some("mailto:someone@example.com"),
        Some("no-scheme-here"),
        None,
    ]);
    assert_eq!(
        url_columns::url_host(&inputs),
        vec![Some("example.com".to_string()), None, None, None]
    );
    assert_eq!(
        url_columns::url_domain(&inputs),
        vec![Some("example.com".to_string()), None, None, None]
    );
    assert_eq!(
        url_columns::url_path(&inputs),
        vec![Some("/path".to_string()), Some("someone@example.com".to_string()), None, None]
    );
    assert_eq!(
        url_columns::url_query(&inputs),
        vec![Some("q=1".to_string()), None, None, None]
    );
    assert_eq!(
        url_columns::url_fragment(&inputs),
        vec![Some("frag".to_string()), None, None, None]
    );
    assert_eq!(
        url_columns::url_is_special(&inputs),
        vec![Some(true), Some(false), None, None]
    );
    assert_eq!(
        url_columns::url_is_valid(&inputs),
        vec![Some(true), Some(true), Some(false), None]
    );
}

#[test]
fn url_check_column_diagnostics() {
    let inputs = col(&[
        Some("https://example.com/"),
        Some("http://"),
        Some("no-scheme-here"),
        Some("http://example.com:port"),
        None,
    ]);
    let checks = url_columns::url_check(&inputs);
    assert_eq!(
        checks,
        vec![
            Some("ok".to_string()),
            Some("empty host".to_string()),
            Some("relative URL without a base".to_string()),
            Some("invalid port number".to_string()),
            None,
        ]
    );
}

#[test]
fn absent_input_yields_absent_output_everywhere() {
    let inputs: Vec<Option<String>> = vec![None];
    assert_eq!(cusip_columns::cusip_issuer_num(&inputs), vec![None]);
    assert_eq!(cusip_columns::cusip_is_cins(&inputs), vec![None]);
    let cusip_rows = cusip_columns::cusip_full(&inputs);
    assert!(cusip_rows[0].country_code.is_none() && cusip_rows[0].issuer.is_none());
    assert_eq!(isin_columns::isin_country_code(&inputs), vec![None]);
    assert_eq!(isin_columns::isin_is_valid(&inputs), vec![None]);
    assert_eq!(iban_columns::iban_bban(&inputs), vec![None]);
    assert_eq!(iban_columns::iban_country_code(&inputs), vec![None]);
    assert_eq!(iban_columns::iban_check_digits(&inputs), vec![None]);
    assert_eq!(iban_columns::iban_bank_identifier(&inputs), vec![None]);
    assert_eq!(iban_columns::iban_branch_identifier(&inputs), vec![None]);
    assert_eq!(iban_columns::iban_is_valid(&inputs), vec![None]);
    assert_eq!(iban_columns::iban_check(&inputs), vec![None]);
    assert_eq!(url_columns::url_host(&inputs), vec![None]);
    assert_eq!(url_columns::url_is_valid(&inputs), vec![None]);
    assert_eq!(url_columns::url_check(&inputs), vec![None]);
}
