//! Columnar ISIN projections: each function applies the ISIN recognizer to
//! an ordered sequence of optional input strings and produces an output
//! sequence of equal length, propagating absence per row.

use vstd::prelude::*;
use crate::isin_parsing::{isin_valid, validate, Isin};
use crate::optview::opt_str_view;

verus! {

/// One output row of the full ISIN projection, with independently absent
/// subfields.
pub struct IsinRow {
    /// 2-letter country or supranational prefix.
    pub country_code: Option<String>,
    /// 9-character basic code (NSIN).
    pub security_id: Option<String>,
    /// Check digit (1 character).
    pub check_digit: Option<String>,
}

/// Expected `country_code` output for one input cell.
pub open spec fn isin_country_cell(inp: Option<Seq<char>>) -> Option<Seq<char>> {
    match inp {
        None => None,
        Some(s) => if isin_valid(s) {
            Some(s.subrange(0, 2))
        } else {
            None
        },
    }
}

/// Expected `security_id` output for one input cell.
pub open spec fn isin_security_cell(inp: Option<Seq<char>>) -> Option<Seq<char>> {
    match inp {
        None => None,
        Some(s) => if isin_valid(s) {
            Some(s.subrange(2, 11))
        } else {
            None
        },
    }
}

/// Expected `check_digit` output for one input cell.
pub open spec fn isin_check_digit_cell(inp: Option<Seq<char>>) -> Option<Seq<char>> {
    match inp {
        None => None,
        Some(s) => if isin_valid(s) {
            Some(s.subrange(11, 12))
        } else {
            None
        },
    }
}

/// Expected validity output for one input cell.
pub open spec fn isin_valid_cell(inp: Option<Seq<char>>) -> Option<bool> {
    match inp {
        None => None,
        Some(s) => Some(isin_valid(s)),
    }
}

/// Full projection: one row per input with the three named subfields.
pub fn isin_full(inputs: &Vec<Option<String>>) -> (r: Vec<IsinRow>)
    ensures
        r@.len() == inputs@.len(),
        forall|i: int|
            0 <= i < inputs@.len() ==> {
                let row = #[trigger] r@[i];
                let inp = opt_str_view(inputs@[i]);
                &&& opt_str_view(row.country_code) == isin_country_cell(inp)
                &&& opt_str_view(row.security_id) == isin_security_cell(inp)
                &&& opt_str_view(row.check_digit) == isin_check_digit_cell(inp)
            },
{
    let n = inputs.len();
    let mut out: Vec<IsinRow> = Vec::new();
    let mut i: usize = 0;
    while i < n
        invariant
            i <= n,
            n == inputs@.len(),
            out@.len() == i,
            forall|j: int|
                0 <= j < i ==> {
                    let row = #[trigger] out@[j];
                    let inp = opt_str_view(inputs@[j]);
                    &&& opt_str_view(row.country_code) == isin_country_cell(inp)
                    &&& opt_str_view(row.security_id) == isin_security_cell(inp)
                    &&& opt_str_view(row.check_digit) == isin_check_digit_cell(inp)
                },
        decreases n - i,
    {
        match &inputs[i] {
            None => out.push(IsinRow { country_code: None, security_id: None, check_digit: None }),
            Some(s) => match Isin::parse(s.as_str()) {
                Ok(x) => {
                    let row = IsinRow {
                        country_code: Some(x.prefix()),
                        security_id: Some(x.basic_code()),
                        check_digit: Some(x.check_digit_str()),
                    };
                    out.push(row);
                },
                Err(_) => out.push(
                    IsinRow { country_code: None, security_id: None, check_digit: None },
                ),
            },
        }
        i += 1;
    }
    out
}

/// Country-code column: the 2-letter prefix of each valid input.
pub fn isin_country_code(inputs: &Vec<Option<String>>) -> (r: Vec<Option<String>>)
    ensures
        r@.len() == inputs@.len(),
        forall|i: int|
            0 <= i < inputs@.len() ==> opt_str_view(#[trigger] r@[i]) == isin_country_cell(
                opt_str_view(inputs@[i]),
            ),
{
    let n = inputs.len();
    let mut out: Vec<Option<String>> = Vec::new();
    let mut i: usize = 0;
    while i < n
        invariant
            i <= n,
            n == inputs@.len(),
            out@.len() == i,
            forall|j: int|
                0 <= j < i ==> opt_str_view(#[trigger] out@[j]) == isin_country_cell(
                    opt_str_view(inputs@[j]),
                ),
        decreases n - i,
    {
        match &inputs[i] {
            None => out.push(None),
            Some(s) => match Isin::parse(s.as_str()) {
                Ok(x) => out.push(Some(x.prefix())),
                Err(_) => out.push(None),
            },
        }
        i += 1;
    }
    out
}

/// Security-identifier column: the 9-character basic code of each valid input.
pub fn isin_security_id(inputs: &Vec<Option<String>>) -> (r: Vec<Option<String>>)
    ensures
        r@.len() == inputs@.len(),
        forall|i: int|
            0 <= i < inputs@.len() ==> opt_str_view(#[trigger] r@[i]) == isin_security_cell(
                opt_str_view(inputs@[i]),
            ),
{
    let n = inputs.len();
    let mut out: Vec<Option<String>> = Vec::new();
    let mut i: usize = 0;
    while i < n
        invariant
            i <= n,
            n == inputs@.len(),
            out@.len() == i,
            forall|j: int|
                0 <= j < i ==> opt_str_view(#[trigger] out@[j]) == isin_security_cell(
                    opt_str_view(inputs@[j]),
                ),
        decreases n - i,
    {
        match &inputs[i] {
            None => out.push(None),
            Some(s) => match Isin::parse(s.as_str()) {
                Ok(x) => out.push(Some(x.basic_code())),
                Err(_) => out.push(None),
            },
        }
        i += 1;
    }
    out
}

/// Check-digit column: the check digit of each valid input, as a string.
pub fn isin_check_digit(inputs: &Vec<Option<String>>) -> (r: Vec<Option<String>>)
    ensures
        r@.len() == inputs@.len(),
        forall|i: int|
            0 <= i < inputs@.len() ==> opt_str_view(#[trigger] r@[i]) == isin_check_digit_cell(
                opt_str_view(inputs@[i]),
            ),
{
    let n = inputs.len();
    let mut out: Vec<Option<String>> = Vec::new();
    let mut i: usize = 0;
    while i < n
        invariant
            i <= n,
            n == inputs@.len(),
            out@.len() == i,
            forall|j: int|
                0 <= j < i ==> opt_str_view(#[trigger] out@[j]) == isin_check_digit_cell(
                    opt_str_view(inputs@[j]),
                ),
        decreases n - i,
    {
        match &inputs[i] {
            None => out.push(None),
            Some(s) => match Isin::parse(s.as_str()) {
                Ok(x) => out.push(Some(x.check_digit_str())),
                Err(_) => out.push(None),
            },
        }
        i += 1;
    }
    out
}

/// Validity column: whether each present input is a valid ISIN; absent
/// inputs stay absent.
pub fn isin_is_valid(inputs: &Vec<Option<String>>) -> (r: Vec<Option<bool>>)
    ensures
        r@.len() == inputs@.len(),
        forall|i: int|
            0 <= i < inputs@.len() ==> #[trigger] r@[i] == isin_valid_cell(
                opt_str_view(inputs@[i]),
            ),
{
    let n = inputs.len();
    let mut out: Vec<Option<bool>> = Vec::new();
    let mut i: usize = 0;
    while i < n
        invariant
            i <= n,
            n == inputs@.len(),
            out@.len() == i,
            forall|j: int|
                0 <= j < i ==> #[trigger] out@[j] == isin_valid_cell(opt_str_view(inputs@[j])),
        decreases n - i,
    {
        match &inputs[i] {
            None => out.push(None),
            Some(s) => out.push(Some(validate(s.as_str()))),
        }
        i += 1;
    }
    out
}

} // verus!
