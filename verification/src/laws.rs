//! Cross-format laws of the columnar dispatch layer.

use vstd::prelude::*;
use crate::cusip_parsing::{spec_is_cins, spec_is_cins_base, spec_is_cins_extended};
use crate::cusip_columns::{
    cusip_check_digit_cell, cusip_cins_flag_cell, cusip_country_cell, cusip_flag_cell,
    cusip_issue_cell, cusip_issuer_cell, cusip_payload_cell,
};
use crate::iban_columns::{
    iban_bank_cell, iban_bban_cell, iban_branch_cell, iban_check_cell, iban_check_digits_cell,
    iban_country_cell, iban_valid_cell,
};
use crate::iban_parsing::iban_valid;
use crate::iban_registry::country_layout;
use crate::isin_columns::{
    isin_check_digit_cell, isin_country_cell, isin_security_cell, isin_valid_cell,
};
use crate::url_columns::{
    url_check_cell, url_domain_cell, url_fragment_cell, url_host_cell, url_path_cell,
    url_query_cell, url_special_cell, url_valid_cell,
};

verus! {

/// Null propagation: for a row with absent input, every projection of every
/// format yields an absent output, as each column function's contract is
/// stated over these per-cell functions.
pub proof fn lemma_null_propagation(flag: spec_fn(Seq<char>) -> bool)
    ensures
        cusip_country_cell(None) is None,
        cusip_issuer_cell(None) is None,
        cusip_issue_cell(None) is None,
        cusip_check_digit_cell(None) is None,
        cusip_payload_cell(None) is None,
        cusip_flag_cell(None, flag) is None,
        cusip_cins_flag_cell(None, flag) is None,
        isin_country_cell(None) is None,
        isin_security_cell(None) is None,
        isin_check_digit_cell(None) is None,
        isin_valid_cell(None) is None,
        iban_country_cell(None) is None,
        iban_check_digits_cell(None) is None,
        iban_bban_cell(None) is None,
        iban_bank_cell(None) is None,
        iban_branch_cell(None) is None,
        iban_valid_cell(None) is None,
        iban_check_cell(None) is None,
        url_host_cell(None) is None,
        url_domain_cell(None) is None,
        url_fragment_cell(None) is None,
        url_path_cell(None) is None,
        url_query_cell(None) is None,
        url_special_cell(None) is None,
        url_valid_cell(None) is None,
        url_check_cell(None) is None,
{
}

/// Partial validity: a valid IBAN from a country whose registered layout
/// defines no bank identifier position is still reported valid, while its
/// bank identifier is absent.
pub proof fn lemma_iban_partial_validity(s: Seq<char>)
    requires
        iban_valid(s),
        match country_layout(s[0], s[1]) {
            Some(l) => l.bank is None,
            None => false,
        },
    ensures
        iban_valid_cell(Some(s)) == Some(true),
        iban_bank_cell(Some(s)) is None,
{
}

/// The CINS base and extended country-code classes are disjoint: no CUSIP is
/// both, and a CINS identifier is one of the two.
pub proof fn lemma_cins_base_extended_partition(s: Seq<char>)
    requires
        s.len() == 9,
    ensures
        !(spec_is_cins_base(s) && spec_is_cins_extended(s)),
        spec_is_cins(s) ==> (spec_is_cins_base(s) || spec_is_cins_extended(s)),
{
}

} // verus!
