//! Columnar CUSIP projections: each function applies the CUSIP recognizer to
//! an ordered sequence of optional input strings and produces an output
//! sequence of equal length. An absent input, or one that fails to parse,
//! yields an absent output; a subfield that is legitimately absent for a
//! valid identifier (the CINS country code of a non-CINS CUSIP) yields an
//! absent output for that field only.

use vstd::prelude::*;
use crate::cusip_parsing::{
    cusip_valid, spec_has_private_issuer, spec_is_cins, spec_is_cins_base, spec_is_cins_extended,
    spec_is_private_issue, spec_is_private_use, Cusip,
};
use crate::optview::opt_str_view;

verus! {

/// One output row of the full CUSIP projection, with independently absent
/// subfields.
pub struct CusipRow {
    /// CINS country code (1 character), absent for non-CINS identifiers.
    pub country_code: Option<String>,
    /// Issuer number (6 characters).
    pub issuer: Option<String>,
    /// Issue number (2 characters).
    pub issue: Option<String>,
    /// Check digit (1 character).
    pub check_digit: Option<String>,
}

/// Expected `country_code` output for one input cell.
pub open spec fn cusip_country_cell(inp: Option<Seq<char>>) -> Option<Seq<char>> {
    match inp {
        None => None,
        Some(s) => if cusip_valid(s) && spec_is_cins(s) {
            Some(s.subrange(0, 1))
        } else {
            None
        },
    }
}

/// Expected `issuer` output for one input cell.
pub open spec fn cusip_issuer_cell(inp: Option<Seq<char>>) -> Option<Seq<char>> {
    match inp {
        None => None,
        Some(s) => if cusip_valid(s) {
            Some(s.subrange(0, 6))
        } else {
            None
        },
    }
}

/// Expected `issue` output for one input cell.
pub open spec fn cusip_issue_cell(inp: Option<Seq<char>>) -> Option<Seq<char>> {
    match inp {
        None => None,
        Some(s) => if cusip_valid(s) {
            Some(s.subrange(6, 8))
        } else {
            None
        },
    }
}

/// Expected `check_digit` output for one input cell.
pub open spec fn cusip_check_digit_cell(inp: Option<Seq<char>>) -> Option<Seq<char>> {
    match inp {
        None => None,
        Some(s) => if cusip_valid(s) {
            Some(s.subrange(8, 9))
        } else {
            None
        },
    }
}

/// Expected `payload` output for one input cell.
pub open spec fn cusip_payload_cell(inp: Option<Seq<char>>) -> Option<Seq<char>> {
    match inp {
        None => None,
        Some(s) => if cusip_valid(s) {
            Some(s.subrange(0, 8))
        } else {
            None
        },
    }
}

/// Expected boolean output for one input cell, for a predicate defined on
/// every valid CUSIP.
pub open spec fn cusip_flag_cell(inp: Option<Seq<char>>, flag: spec_fn(Seq<char>) -> bool) -> Option<
    bool,
> {
    match inp {
        None => None,
        Some(s) => if cusip_valid(s) {
            Some(flag(s))
        } else {
            None
        },
    }
}

/// Expected boolean output for one input cell, for a predicate defined only
/// on CINS identifiers.
pub open spec fn cusip_cins_flag_cell(
    inp: Option<Seq<char>>,
    flag: spec_fn(Seq<char>) -> bool,
) -> Option<bool> {
    match inp {
        None => None,
        Some(s) => if cusip_valid(s) && spec_is_cins(s) {
            Some(flag(s))
        } else {
            None
        },
    }
}

/// Full projection: one row per input with the four named subfields.
pub fn cusip_full(inputs: &Vec<Option<String>>) -> (r: Vec<CusipRow>)
    ensures
        r@.len() == inputs@.len(),
        forall|i: int|
            0 <= i < inputs@.len() ==> {
                let row = #[trigger] r@[i];
                let inp = opt_str_view(inputs@[i]);
                &&& opt_str_view(row.country_code) == cusip_country_cell(inp)
                &&& opt_str_view(row.issuer) == cusip_issuer_cell(inp)
                &&& opt_str_view(row.issue) == cusip_issue_cell(inp)
                &&& opt_str_view(row.check_digit) == cusip_check_digit_cell(inp)
            },
{
    let n = inputs.len();
    let mut out: Vec<CusipRow> = Vec::new();
    let mut i: usize = 0;
    while i < n
        invariant
            i <= n,
            n == inputs@.len(),
            out@.len() == i,
            forall|j: int|
                0 <= j < i ==> {
                    let row = #[trigger] out@[j];
                    let inp = opt_str_view(inputs@[j]);
                    &&& opt_str_view(row.country_code) == cusip_country_cell(inp)
                    &&& opt_str_view(row.issuer) == cusip_issuer_cell(inp)
                    &&& opt_str_view(row.issue) == cusip_issue_cell(inp)
                    &&& opt_str_view(row.check_digit) == cusip_check_digit_cell(inp)
                },
        decreases n - i,
    {
        match &inputs[i] {
            None => out.push(
                CusipRow { country_code: None, issuer: None, issue: None, check_digit: None },
            ),
            Some(s) => match Cusip::parse(s.as_str()) {
                Ok(c) => {
                    let row = CusipRow {
                        country_code: c.country_code(),
                        issuer: Some(c.issuer_num()),
                        issue: Some(c.issue_num()),
                        check_digit: Some(c.check_digit_str()),
                    };
                    out.push(row);
                },
                Err(_) => out.push(
                    CusipRow { country_code: None, issuer: None, issue: None, check_digit: None },
                ),
            },
        }
        i += 1;
    }
    out
}

/// Issue-number column: the 2-character issue number of each valid input.
pub fn cusip_issue_num(inputs: &Vec<Option<String>>) -> (r: Vec<Option<String>>)
    ensures
        r@.len() == inputs@.len(),
        forall|i: int|
            0 <= i < inputs@.len() ==> opt_str_view(#[trigger] r@[i]) == cusip_issue_cell(
                opt_str_view(inputs@[i]),
            ),
{
    let n = inputs.len();
    let mut out: Vec<Option<String>> = Vec::new();
    let mut i: usize = 0;
    while i < n
        invariant
            i <= n,
            n == inputs@.len(),
            out@.len() == i,
            forall|j: int|
                0 <= j < i ==> opt_str_view(#[trigger] out@[j]) == cusip_issue_cell(
                    opt_str_view(inputs@[j]),
                ),
        decreases n - i,
    {
        match &inputs[i] {
            None => out.push(None),
            Some(s) => match Cusip::parse(s.as_str()) {
                Ok(c) => out.push(Some(c.issue_num())),
                Err(_) => out.push(None),
            },
        }
        i += 1;
    }
    out
}

/// Issuer-number column: the 6-character issuer number of each valid input.
pub fn cusip_issuer_num(inputs: &Vec<Option<String>>) -> (r: Vec<Option<String>>)
    ensures
        r@.len() == inputs@.len(),
        forall|i: int|
            0 <= i < inputs@.len() ==> opt_str_view(#[trigger] r@[i]) == cusip_issuer_cell(
                opt_str_view(inputs@[i]),
            ),
{
    let n = inputs.len();
    let mut out: Vec<Option<String>> = Vec::new();
    let mut i: usize = 0;
    while i < n
        invariant
            i <= n,
            n == inputs@.len(),
            out@.len() == i,
            forall|j: int|
                0 <= j < i ==> opt_str_view(#[trigger] out@[j]) == cusip_issuer_cell(
                    opt_str_view(inputs@[j]),
                ),
        decreases n - i,
    {
        match &inputs[i] {
            None => out.push(None),
            Some(s) => match Cusip::parse(s.as_str()) {
                Ok(c) => out.push(Some(c.issuer_num())),
                Err(_) => out.push(None),
            },
        }
        i += 1;
    }
    out
}

/// Country-code column: the CINS country code of each valid CINS input.
pub fn cusip_country_code(inputs: &Vec<Option<String>>) -> (r: Vec<Option<String>>)
    ensures
        r@.len() == inputs@.len(),
        forall|i: int|
            0 <= i < inputs@.len() ==> opt_str_view(#[trigger] r@[i]) == cusip_country_cell(
                opt_str_view(inputs@[i]),
            ),
{
    let n = inputs.len();
    let mut out: Vec<Option<String>> = Vec::new();
    let mut i: usize = 0;
    while i < n
        invariant
            i <= n,
            n == inputs@.len(),
            out@.len() == i,
            forall|j: int|
                0 <= j < i ==> opt_str_view(#[trigger] out@[j]) == cusip_country_cell(
                    opt_str_view(inputs@[j]),
                ),
        decreases n - i,
    {
        match &inputs[i] {
            None => out.push(None),
            Some(s) => match Cusip::parse(s.as_str()) {
                Ok(c) => out.push(c.country_code()),
                Err(_) => out.push(None),
            },
        }
        i += 1;
    }
    out
}

/// Check-digit column: the check digit of each valid input, as a string.
pub fn cusip_check_digit(inputs: &Vec<Option<String>>) -> (r: Vec<Option<String>>)
    ensures
        r@.len() == inputs@.len(),
        forall|i: int|
            0 <= i < inputs@.len() ==> opt_str_view(#[trigger] r@[i]) == cusip_check_digit_cell(
                opt_str_view(inputs@[i]),
            ),
{
    let n = inputs.len();
    let mut out: Vec<Option<String>> = Vec::new();
    let mut i: usize = 0;
    while i < n
        invariant
            i <= n,
            n == inputs@.len(),
            out@.len() == i,
            forall|j: int|
                0 <= j < i ==> opt_str_view(#[trigger] out@[j]) == cusip_check_digit_cell(
                    opt_str_view(inputs@[j]),
                ),
        decreases n - i,
    {
        match &inputs[i] {
            None => out.push(None),
            Some(s) => match Cusip::parse(s.as_str()) {
                Ok(c) => out.push(Some(c.check_digit_str())),
                Err(_) => out.push(None),
            },
        }
        i += 1;
    }
    out
}

/// Payload column: the 8-character payload of each valid input.
pub fn cusip_payload(inputs: &Vec<Option<String>>) -> (r: Vec<Option<String>>)
    ensures
        r@.len() == inputs@.len(),
        forall|i: int|
            0 <= i < inputs@.len() ==> opt_str_view(#[trigger] r@[i]) == cusip_payload_cell(
                opt_str_view(inputs@[i]),
            ),
{
    let n = inputs.len();
    let mut out: Vec<Option<String>> = Vec::new();
    let mut i: usize = 0;
    while i < n
        invariant
            i <= n,
            n == inputs@.len(),
            out@.len() == i,
            forall|j: int|
                0 <= j < i ==> opt_str_view(#[trigger] out@[j]) == cusip_payload_cell(
                    opt_str_view(inputs@[j]),
                ),
        decreases n - i,
    {
        match &inputs[i] {
            None => out.push(None),
            Some(s) => match Cusip::parse(s.as_str()) {
                Ok(c) => out.push(Some(c.payload())),
                Err(_) => out.push(None),
            },
        }
        i += 1;
    }
    out
}

/// Private-issue column: whether each valid input's issue number is in the
/// private-use range.
pub fn cusip_is_private_issue(inputs: &Vec<Option<String>>) -> (r: Vec<Option<bool>>)
    ensures
        r@.len() == inputs@.len(),
        forall|i: int|
            0 <= i < inputs@.len() ==> #[trigger] r@[i] == cusip_flag_cell(
                opt_str_view(inputs@[i]),
                |s: Seq<char>| spec_is_private_issue(s),
            ),
{
    let n = inputs.len();
    let mut out: Vec<Option<bool>> = Vec::new();
    let mut i: usize = 0;
    while i < n
        invariant
            i <= n,
            n == inputs@.len(),
            out@.len() == i,
            forall|j: int|
                0 <= j < i ==> #[trigger] out@[j] == cusip_flag_cell(
                    opt_str_view(inputs@[j]),
                    |s: Seq<char>| spec_is_private_issue(s),
                ),
        decreases n - i,
    {
        match &inputs[i] {
            None => out.push(None),
            Some(s) => match Cusip::parse(s.as_str()) {
                Ok(c) => out.push(Some(c.is_private_issue())),
                Err(_) => out.push(None),
            },
        }
        i += 1;
    }
    out
}

/// Private-issuer column: whether each valid input's issuer number is in a
/// private-use range.
pub fn cusip_has_private_issuer(inputs: &Vec<Option<String>>) -> (r: Vec<Option<bool>>)
    ensures
        r@.len() == inputs@.len(),
        forall|i: int|
            0 <= i < inputs@.len() ==> #[trigger] r@[i] == cusip_flag_cell(
                opt_str_view(inputs@[i]),
                |s: Seq<char>| spec_has_private_issuer(s),
            ),
{
    let n = inputs.len();
    let mut out: Vec<Option<bool>> = Vec::new();
    let mut i: usize = 0;
    while i < n
        invariant
            i <= n,
            n == inputs@.len(),
            out@.len() == i,
            forall|j: int|
                0 <= j < i ==> #[trigger] out@[j] == cusip_flag_cell(
                    opt_str_view(inputs@[j]),
                    |s: Seq<char>| spec_has_private_issuer(s),
                ),
        decreases n - i,
    {
        match &inputs[i] {
            None => out.push(None),
            Some(s) => match Cusip::parse(s.as_str()) {
                Ok(c) => out.push(Some(c.has_private_issuer())),
                Err(_) => out.push(None),
            },
        }
        i += 1;
    }
    out
}

/// Private-use column: whether each valid input is reserved for private use.
pub fn cusip_is_private_use(inputs: &Vec<Option<String>>) -> (r: Vec<Option<bool>>)
    ensures
        r@.len() == inputs@.len(),
        forall|i: int|
            0 <= i < inputs@.len() ==> #[trigger] r@[i] == cusip_flag_cell(
                opt_str_view(inputs@[i]),
                |s: Seq<char>| spec_is_private_use(s),
            ),
{
    let n = inputs.len();
    let mut out: Vec<Option<bool>> = Vec::new();
    let mut i: usize = 0;
    while i < n
        invariant
            i <= n,
            n == inputs@.len(),
            out@.len() == i,
            forall|j: int|
                0 <= j < i ==> #[trigger] out@[j] == cusip_flag_cell(
                    opt_str_view(inputs@[j]),
                    |s: Seq<char>| spec_is_private_use(s),
                ),
        decreases n - i,
    {
        match &inputs[i] {
            None => out.push(None),
            Some(s) => match Cusip::parse(s.as_str()) {
                Ok(c) => out.push(Some(c.is_private_use())),
                Err(_) => out.push(None),
            },
        }
        i += 1;
    }
    out
}

/// CINS column: whether each valid input reads as a CINS identifier.
pub fn cusip_is_cins(inputs: &Vec<Option<String>>) -> (r: Vec<Option<bool>>)
    ensures
        r@.len() == inputs@.len(),
        forall|i: int|
            0 <= i < inputs@.len() ==> #[trigger] r@[i] == cusip_flag_cell(
                opt_str_view(inputs@[i]),
                |s: Seq<char>| spec_is_cins(s),
            ),
{
    let n = inputs.len();
    let mut out: Vec<Option<bool>> = Vec::new();
    let mut i: usize = 0;
    while i < n
        invariant
            i <= n,
            n == inputs@.len(),
            out@.len() == i,
            forall|j: int|
                0 <= j < i ==> #[trigger] out@[j] == cusip_flag_cell(
                    opt_str_view(inputs@[j]),
                    |s: Seq<char>| spec_is_cins(s),
                ),
        decreases n - i,
    {
        match &inputs[i] {
            None => out.push(None),
            Some(s) => match Cusip::parse(s.as_str()) {
                Ok(c) => out.push(Some(c.is_cins())),
                Err(_) => out.push(None),
            },
        }
        i += 1;
    }
    out
}

/// CINS-base column: whether each valid CINS input has a base country code;
/// absent for non-CINS inputs.
pub fn cusip_is_cins_base(inputs: &Vec<Option<String>>) -> (r: Vec<Option<bool>>)
    ensures
        r@.len() == inputs@.len(),
        forall|i: int|
            0 <= i < inputs@.len() ==> #[trigger] r@[i] == cusip_cins_flag_cell(
                opt_str_view(inputs@[i]),
                |s: Seq<char>| spec_is_cins_base(s),
            ),
{
    let n = inputs.len();
    let mut out: Vec<Option<bool>> = Vec::new();
    let mut i: usize = 0;
    while i < n
        invariant
            i <= n,
            n == inputs@.len(),
            out@.len() == i,
            forall|j: int|
                0 <= j < i ==> #[trigger] out@[j] == cusip_cins_flag_cell(
                    opt_str_view(inputs@[j]),
                    |s: Seq<char>| spec_is_cins_base(s),
                ),
        decreases n - i,
    {
        match &inputs[i] {
            None => out.push(None),
            Some(s) => match Cusip::parse(s.as_str()) {
                Ok(c) => if c.is_cins() {
                    out.push(Some(c.is_cins_base()));
                } else {
                    out.push(None);
                },
                Err(_) => out.push(None),
            },
        }
        i += 1;
    }
    out
}

/// CINS-extended column: whether each valid CINS input has an extended
/// country code; absent for non-CINS inputs.
pub fn cusip_is_cins_extended(inputs: &Vec<Option<String>>) -> (r: Vec<Option<bool>>)
    ensures
        r@.len() == inputs@.len(),
        forall|i: int|
            0 <= i < inputs@.len() ==> #[trigger] r@[i] == cusip_cins_flag_cell(
                opt_str_view(inputs@[i]),
                |s: Seq<char>| spec_is_cins_extended(s),
            ),
{
    let n = inputs.len();
    let mut out: Vec<Option<bool>> = Vec::new();
    let mut i: usize = 0;
    while i < n
        invariant
            i <= n,
            n == inputs@.len(),
            out@.len() == i,
            forall|j: int|
                0 <= j < i ==> #[trigger] out@[j] == cusip_cins_flag_cell(
                    opt_str_view(inputs@[j]),
                    |s: Seq<char>| spec_is_cins_extended(s),
                ),
        decreases n - i,
    {
        match &inputs[i] {
            None => out.push(None),
            Some(s) => match Cusip::parse(s.as_str()) {
                Ok(c) => if c.is_cins() {
                    out.push(Some(c.is_cins_extended()));
                } else {
                    out.push(None);
                },
                Err(_) => out.push(None),
            },
        }
        i += 1;
    }
    out
}

} // verus!
