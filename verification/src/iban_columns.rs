//! Columnar IBAN projections: each function applies the IBAN recognizer to
//! an ordered sequence of optional input strings and produces an output
//! sequence of equal length. An absent input, or one that fails to parse,
//! yields an absent output; bank and branch identifiers may be legitimately
//! absent for a valid IBAN whose country registers no such position.

use vstd::prelude::*;
use crate::iban_parsing::{
    iban_diag, iban_diagnostic, iban_error, iban_valid, spec_bank_id, spec_branch_id, Iban,
};
use crate::optview::opt_str_view;

verus! {

/// One output row of the full IBAN projection, with independently absent
/// subfields.
pub struct IbanRow {
    /// 2-letter country code.
    pub country_code: Option<String>,
    /// 2 check digits.
    pub check_digits: Option<String>,
    /// Country-specific BBAN.
    pub bban: Option<String>,
    /// Registered bank identifier, when the country defines one.
    pub bank_id: Option<String>,
    /// Registered branch identifier, when the country defines one.
    pub branch_id: Option<String>,
}

/// Expected `country_code` output for one input cell.
pub open spec fn iban_country_cell(inp: Option<Seq<char>>) -> Option<Seq<char>> {
    match inp {
        None => None,
        Some(s) => if iban_valid(s) {
            Some(s.subrange(0, 2))
        } else {
            None
        },
    }
}

/// Expected `check_digits` output for one input cell.
pub open spec fn iban_check_digits_cell(inp: Option<Seq<char>>) -> Option<Seq<char>> {
    match inp {
        None => None,
        Some(s) => if iban_valid(s) {
            Some(s.subrange(2, 4))
        } else {
            None
        },
    }
}

/// Expected `bban` output for one input cell.
pub open spec fn iban_bban_cell(inp: Option<Seq<char>>) -> Option<Seq<char>> {
    match inp {
        None => None,
        Some(s) => if iban_valid(s) {
            Some(s.subrange(4, s.len() as int))
        } else {
            None
        },
    }
}

/// Expected `bank_id` output for one input cell: absent for invalid inputs
/// and for countries with no registered bank-identifier position.
pub open spec fn iban_bank_cell(inp: Option<Seq<char>>) -> Option<Seq<char>> {
    match inp {
        None => None,
        Some(s) => if iban_valid(s) {
            spec_bank_id(s)
        } else {
            None
        },
    }
}

/// Expected `branch_id` output for one input cell: absent for invalid inputs
/// and for countries with no registered branch-identifier position.
pub open spec fn iban_branch_cell(inp: Option<Seq<char>>) -> Option<Seq<char>> {
    match inp {
        None => None,
        Some(s) => if iban_valid(s) {
            spec_branch_id(s)
        } else {
            None
        },
    }
}

/// Expected validity output for one input cell.
pub open spec fn iban_valid_cell(inp: Option<Seq<char>>) -> Option<bool> {
    match inp {
        None => None,
        Some(s) => Some(iban_valid(s)),
    }
}

/// Expected diagnostic output for one input cell: `ok` for a valid IBAN,
/// else the failure's stable category string.
pub open spec fn iban_check_cell(inp: Option<Seq<char>>) -> Option<Seq<char>> {
    match inp {
        None => None,
        Some(s) => if iban_valid(s) {
            Some("ok"@)
        } else {
            Some(iban_diag(iban_error(s)))
        },
    }
}

/// Full projection: one row per input with the five named subfields.
pub fn iban_extract_all(inputs: &Vec<Option<String>>) -> (r: Vec<IbanRow>)
    ensures
        r@.len() == inputs@.len(),
        forall|i: int|
            0 <= i < inputs@.len() ==> {
                let row = #[trigger] r@[i];
                let inp = opt_str_view(inputs@[i]);
                &&& opt_str_view(row.country_code) == iban_country_cell(inp)
                &&& opt_str_view(row.check_digits) == iban_check_digits_cell(inp)
                &&& opt_str_view(row.bban) == iban_bban_cell(inp)
                &&& opt_str_view(row.bank_id) == iban_bank_cell(inp)
                &&& opt_str_view(row.branch_id) == iban_branch_cell(inp)
            },
{
    let n = inputs.len();
    let mut out: Vec<IbanRow> = Vec::new();
    let mut i: usize = 0;
    while i < n
        invariant
            i <= n,
            n == inputs@.len(),
            out@.len() == i,
            forall|j: int|
                0 <= j < i ==> {
                    let row = #[trigger] out@[j];
                    let inp = opt_str_view(inputs@[j]);
                    &&& opt_str_view(row.country_code) == iban_country_cell(inp)
                    &&& opt_str_view(row.check_digits) == iban_check_digits_cell(inp)
                    &&& opt_str_view(row.bban) == iban_bban_cell(inp)
                    &&& opt_str_view(row.bank_id) == iban_bank_cell(inp)
                    &&& opt_str_view(row.branch_id) == iban_branch_cell(inp)
                },
        decreases n - i,
    {
        match &inputs[i] {
            None => out.push(
                IbanRow {
                    country_code: None,
                    check_digits: None,
                    bban: None,
                    bank_id: None,
                    branch_id: None,
                },
            ),
            Some(s) => match Iban::parse(s.as_str()) {
                Ok(x) => {
                    let row = IbanRow {
                        country_code: Some(x.country_code()),
                        check_digits: Some(x.check_digits()),
                        bban: Some(x.bban()),
                        bank_id: x.bank_identifier(),
                        branch_id: x.branch_identifier(),
                    };
                    out.push(row);
                },
                Err(_) => out.push(
                    IbanRow {
                        country_code: None,
                        check_digits: None,
                        bban: None,
                        bank_id: None,
                        branch_id: None,
                    },
                ),
            },
        }
        i += 1;
    }
    out
}

/// Country-code column: the 2-letter country code of each valid input.
pub fn iban_country_code(inputs: &Vec<Option<String>>) -> (r: Vec<Option<String>>)
    ensures
        r@.len() == inputs@.len(),
        forall|i: int|
            0 <= i < inputs@.len() ==> opt_str_view(#[trigger] r@[i]) == iban_country_cell(
                opt_str_view(inputs@[i]),
            ),
{
    let n = inputs.len();
    let mut out: Vec<Option<String>> = Vec::new();
    let mut i: usize = 0;
    while i < n
        invariant
            i <= n,
            n == inputs@.len(),
            out@.len() == i,
            forall|j: int|
                0 <= j < i ==> opt_str_view(#[trigger] out@[j]) == iban_country_cell(
                    opt_str_view(inputs@[j]),
                ),
        decreases n - i,
    {
        match &inputs[i] {
            None => out.push(None),
            Some(s) => match Iban::parse(s.as_str()) {
                Ok(x) => out.push(Some(x.country_code())),
                Err(_) => out.push(None),
            },
        }
        i += 1;
    }
    out
}

/// Check-digits column: the 2 check digits of each valid input.
pub fn iban_check_digits(inputs: &Vec<Option<String>>) -> (r: Vec<Option<String>>)
    ensures
        r@.len() == inputs@.len(),
        forall|i: int|
            0 <= i < inputs@.len() ==> opt_str_view(#[trigger] r@[i]) == iban_check_digits_cell(
                opt_str_view(inputs@[i]),
            ),
{
    let n = inputs.len();
    let mut out: Vec<Option<String>> = Vec::new();
    let mut i: usize = 0;
    while i < n
        invariant
            i <= n,
            n == inputs@.len(),
            out@.len() == i,
            forall|j: int|
                0 <= j < i ==> opt_str_view(#[trigger] out@[j]) == iban_check_digits_cell(
                    opt_str_view(inputs@[j]),
                ),
        decreases n - i,
    {
        match &inputs[i] {
            None => out.push(None),
            Some(s) => match Iban::parse(s.as_str()) {
                Ok(x) => out.push(Some(x.check_digits())),
                Err(_) => out.push(None),
            },
        }
        i += 1;
    }
    out
}

/// BBAN column: the country-specific BBAN of each valid input.
pub fn iban_bban(inputs: &Vec<Option<String>>) -> (r: Vec<Option<String>>)
    ensures
        r@.len() == inputs@.len(),
        forall|i: int|
            0 <= i < inputs@.len() ==> opt_str_view(#[trigger] r@[i]) == iban_bban_cell(
                opt_str_view(inputs@[i]),
            ),
{
    let n = inputs.len();
    let mut out: Vec<Option<String>> = Vec::new();
    let mut i: usize = 0;
    while i < n
        invariant
            i <= n,
            n == inputs@.len(),
            out@.len() == i,
            forall|j: int|
                0 <= j < i ==> opt_str_view(#[trigger] out@[j]) == iban_bban_cell(
                    opt_str_view(inputs@[j]),
                ),
        decreases n - i,
    {
        match &inputs[i] {
            None => out.push(None),
            Some(s) => match Iban::parse(s.as_str()) {
                Ok(x) => out.push(Some(x.bban())),
                Err(_) => out.push(None),
            },
        }
        i += 1;
    }
    out
}

/// Bank-identifier column: the registered bank identifier of each valid
/// input whose country defines one.
pub fn iban_bank_identifier(inputs: &Vec<Option<String>>) -> (r: Vec<Option<String>>)
    ensures
        r@.len() == inputs@.len(),
        forall|i: int|
            0 <= i < inputs@.len() ==> opt_str_view(#[trigger] r@[i]) == iban_bank_cell(
                opt_str_view(inputs@[i]),
            ),
{
    let n = inputs.len();
    let mut out: Vec<Option<String>> = Vec::new();
    let mut i: usize = 0;
    while i < n
        invariant
            i <= n,
            n == inputs@.len(),
            out@.len() == i,
            forall|j: int|
                0 <= j < i ==> opt_str_view(#[trigger] out@[j]) == iban_bank_cell(
                    opt_str_view(inputs@[j]),
                ),
        decreases n - i,
    {
        match &inputs[i] {
            None => out.push(None),
            Some(s) => match Iban::parse(s.as_str()) {
                Ok(x) => out.push(x.bank_identifier()),
                Err(_) => out.push(None),
            },
        }
        i += 1;
    }
    out
}

/// Branch-identifier column: the registered branch identifier of each valid
/// input whose country defines one.
pub fn iban_branch_identifier(inputs: &Vec<Option<String>>) -> (r: Vec<Option<String>>)
    ensures
        r@.len() == inputs@.len(),
        forall|i: int|
            0 <= i < inputs@.len() ==> opt_str_view(#[trigger] r@[i]) == iban_branch_cell(
                opt_str_view(inputs@[i]),
            ),
{
    let n = inputs.len();
    let mut out: Vec<Option<String>> = Vec::new();
    let mut i: usize = 0;
    while i < n
        invariant
            i <= n,
            n == inputs@.len(),
            out@.len() == i,
            forall|j: int|
                0 <= j < i ==> opt_str_view(#[trigger] out@[j]) == iban_branch_cell(
                    opt_str_view(inputs@[j]),
                ),
        decreases n - i,
    {
        match &inputs[i] {
            None => out.push(None),
            Some(s) => match Iban::parse(s.as_str()) {
                Ok(x) => out.push(x.branch_identifier()),
                Err(_) => out.push(None),
            },
        }
        i += 1;
    }
    out
}

/// Validity column: whether each present input is a valid IBAN; absent
/// inputs stay absent.
pub fn iban_is_valid(inputs: &Vec<Option<String>>) -> (r: Vec<Option<bool>>)
    ensures
        r@.len() == inputs@.len(),
        forall|i: int|
            0 <= i < inputs@.len() ==> #[trigger] r@[i] == iban_valid_cell(
                opt_str_view(inputs@[i]),
            ),
{
    let n = inputs.len();
    let mut out: Vec<Option<bool>> = Vec::new();
    let mut i: usize = 0;
    while i < n
        invariant
            i <= n,
            n == inputs@.len(),
            out@.len() == i,
            forall|j: int|
                0 <= j < i ==> #[trigger] out@[j] == iban_valid_cell(opt_str_view(inputs@[j])),
        decreases n - i,
    {
        match &inputs[i] {
            None => out.push(None),
            Some(s) => match Iban::parse(s.as_str()) {
                Ok(_) => out.push(Some(true)),
                Err(_) => out.push(Some(false)),
            },
        }
        i += 1;
    }
    out
}

/// Diagnostic column: `ok` for each valid input, else the failure's stable
/// category string; absent inputs stay absent.
pub fn iban_check(inputs: &Vec<Option<String>>) -> (r: Vec<Option<String>>)
    ensures
        r@.len() == inputs@.len(),
        forall|i: int|
            0 <= i < inputs@.len() ==> opt_str_view(#[trigger] r@[i]) == iban_check_cell(
                opt_str_view(inputs@[i]),
            ),
{
    let n = inputs.len();
    let mut out: Vec<Option<String>> = Vec::new();
    let mut i: usize = 0;
    while i < n
        invariant
            i <= n,
            n == inputs@.len(),
            out@.len() == i,
            forall|j: int|
                0 <= j < i ==> opt_str_view(#[trigger] out@[j]) == iban_check_cell(
                    opt_str_view(inputs@[j]),
                ),
        decreases n - i,
    {
        match &inputs[i] {
            None => out.push(None),
            Some(s) => match Iban::parse(s.as_str()) {
                Ok(_) => out.push(Some("ok".to_owned())),
                Err(e) => out.push(Some(iban_diagnostic(e))),
            },
        }
        i += 1;
    }
    out
}

} // verus!
