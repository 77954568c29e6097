//! Columnar URL projections: each function applies the URL recognizer to an
//! ordered sequence of optional input strings and produces an output
//! sequence of equal length. An absent input, or one the parser rejects,
//! yields an absent output; a subfield that is legitimately absent for a
//! parsed URL (no authority, no query, ...) yields an absent output for that
//! field only.

use vstd::prelude::*;
use crate::optview::opt_str_view;
use crate::url_parsing::{
    parse_url, spec_is_special, url_diag, url_diagnostic, url_domain_of, url_error_code_of,
    url_error_from_code, url_fragment_of, url_host_of, url_ok, url_path_of, url_query_of,
    url_scheme_of,
};

verus! {

/// Expected `host` output for one input cell.
pub open spec fn url_host_cell(inp: Option<Seq<char>>) -> Option<Seq<char>> {
    match inp {
        None => None,
        Some(s) => if url_ok(s) {
            url_host_of(s)
        } else {
            None
        },
    }
}

/// Expected `domain` output for one input cell.
pub open spec fn url_domain_cell(inp: Option<Seq<char>>) -> Option<Seq<char>> {
    match inp {
        None => None,
        Some(s) => if url_ok(s) {
            url_domain_of(s)
        } else {
            None
        },
    }
}

/// Expected `fragment` output for one input cell.
pub open spec fn url_fragment_cell(inp: Option<Seq<char>>) -> Option<Seq<char>> {
    match inp {
        None => None,
        Some(s) => if url_ok(s) {
            url_fragment_of(s)
        } else {
            None
        },
    }
}

/// Expected `path` output for one input cell.
pub open spec fn url_path_cell(inp: Option<Seq<char>>) -> Option<Seq<char>> {
    match inp {
        None => None,
        Some(s) => if url_ok(s) {
            Some(url_path_of(s))
        } else {
            None
        },
    }
}

/// Expected `query` output for one input cell.
pub open spec fn url_query_cell(inp: Option<Seq<char>>) -> Option<Seq<char>> {
    match inp {
        None => None,
        Some(s) => if url_ok(s) {
            url_query_of(s)
        } else {
            None
        },
    }
}

/// Expected special-scheme output for one input cell.
pub open spec fn url_special_cell(inp: Option<Seq<char>>) -> Option<bool> {
    match inp {
        None => None,
        Some(s) => if url_ok(s) {
            Some(spec_is_special(url_scheme_of(s)))
        } else {
            None
        },
    }
}

/// Expected validity output for one input cell.
pub open spec fn url_valid_cell(inp: Option<Seq<char>>) -> Option<bool> {
    match inp {
        None => None,
        Some(s) => Some(url_ok(s)),
    }
}

/// Expected diagnostic output for one input cell: `ok` for an accepted URL,
/// else the failure's stable category string.
pub open spec fn url_check_cell(inp: Option<Seq<char>>) -> Option<Seq<char>> {
    match inp {
        None => None,
        Some(s) => if url_ok(s) {
            Some("ok"@)
        } else {
            Some(url_diag(url_error_from_code(url_error_code_of(s))))
        },
    }
}

/// Host column: the host of each accepted input that has an authority.
pub fn url_host(inputs: &Vec<Option<String>>) -> (r: Vec<Option<String>>)
    ensures
        r@.len() == inputs@.len(),
        forall|i: int|
            0 <= i < inputs@.len() ==> opt_str_view(#[trigger] r@[i]) == url_host_cell(
                opt_str_view(inputs@[i]),
            ),
{
    let n = inputs.len();
    let mut out: Vec<Option<String>> = Vec::new();
    let mut i: usize = 0;
    while i < n
        invariant
            i <= n,
            n == inputs@.len(),
            out@.len() == i,
            forall|j: int|
                0 <= j < i ==> opt_str_view(#[trigger] out@[j]) == url_host_cell(
                    opt_str_view(inputs@[j]),
                ),
        decreases n - i,
    {
        match &inputs[i] {
            None => out.push(None),
            Some(s) => match parse_url(s.as_str()) {
                Ok(p) => out.push(p.host),
                Err(_) => out.push(None),
            },
        }
        i += 1;
    }
    out
}

/// Domain column: the registrable domain of each accepted input whose host
/// is not a literal IP address.
pub fn url_domain(inputs: &Vec<Option<String>>) -> (r: Vec<Option<String>>)
    ensures
        r@.len() == inputs@.len(),
        forall|i: int|
            0 <= i < inputs@.len() ==> opt_str_view(#[trigger] r@[i]) == url_domain_cell(
                opt_str_view(inputs@[i]),
            ),
{
    let n = inputs.len();
    let mut out: Vec<Option<String>> = Vec::new();
    let mut i: usize = 0;
    while i < n
        invariant
            i <= n,
            n == inputs@.len(),
            out@.len() == i,
            forall|j: int|
                0 <= j < i ==> opt_str_view(#[trigger] out@[j]) == url_domain_cell(
                    opt_str_view(inputs@[j]),
                ),
        decreases n - i,
    {
        match &inputs[i] {
            None => out.push(None),
            Some(s) => match parse_url(s.as_str()) {
                Ok(p) => out.push(p.domain),
                Err(_) => out.push(None),
            },
        }
        i += 1;
    }
    out
}

/// Fragment column: the fragment of each accepted input that has one.
pub fn url_fragment(inputs: &Vec<Option<String>>) -> (r: Vec<Option<String>>)
    ensures
        r@.len() == inputs@.len(),
        forall|i: int|
            0 <= i < inputs@.len() ==> opt_str_view(#[trigger] r@[i]) == url_fragment_cell(
                opt_str_view(inputs@[i]),
            ),
{
    let n = inputs.len();
    let mut out: Vec<Option<String>> = Vec::new();
    let mut i: usize = 0;
    while i < n
        invariant
            i <= n,
            n == inputs@.len(),
            out@.len() == i,
            forall|j: int|
                0 <= j < i ==> opt_str_view(#[trigger] out@[j]) == url_fragment_cell(
                    opt_str_view(inputs@[j]),
                ),
        decreases n - i,
    {
        match &inputs[i] {
            None => out.push(None),
            Some(s) => match parse_url(s.as_str()) {
                Ok(p) => out.push(p.fragment),
                Err(_) => out.push(None),
            },
        }
        i += 1;
    }
    out
}

/// Path column: the path of each accepted input.
pub fn url_path(inputs: &Vec<Option<String>>) -> (r: Vec<Option<String>>)
    ensures
        r@.len() == inputs@.len(),
        forall|i: int|
            0 <= i < inputs@.len() ==> opt_str_view(#[trigger] r@[i]) == url_path_cell(
                opt_str_view(inputs@[i]),
            ),
{
    let n = inputs.len();
    let mut out: Vec<Option<String>> = Vec::new();
    let mut i: usize = 0;
    while i < n
        invariant
            i <= n,
            n == inputs@.len(),
            out@.len() == i,
            forall|j: int|
                0 <= j < i ==> opt_str_view(#[trigger] out@[j]) == url_path_cell(
                    opt_str_view(inputs@[j]),
                ),
        decreases n - i,
    {
        match &inputs[i] {
            None => out.push(None),
            Some(s) => match parse_url(s.as_str()) {
                Ok(p) => out.push(Some(p.path)),
                Err(_) => out.push(None),
            },
        }
        i += 1;
    }
    out
}

/// Query column: the query string of each accepted input that has one.
pub fn url_query(inputs: &Vec<Option<String>>) -> (r: Vec<Option<String>>)
    ensures
        r@.len() == inputs@.len(),
        forall|i: int|
            0 <= i < inputs@.len() ==> opt_str_view(#[trigger] r@[i]) == url_query_cell(
                opt_str_view(inputs@[i]),
            ),
{
    let n = inputs.len();
    let mut out: Vec<Option<String>> = Vec::new();
    let mut i: usize = 0;
    while i < n
        invariant
            i <= n,
            n == inputs@.len(),
            out@.len() == i,
            forall|j: int|
                0 <= j < i ==> opt_str_view(#[trigger] out@[j]) == url_query_cell(
                    opt_str_view(inputs@[j]),
                ),
        decreases n - i,
    {
        match &inputs[i] {
            None => out.push(None),
            Some(s) => match parse_url(s.as_str()) {
                Ok(p) => out.push(p.query),
                Err(_) => out.push(None),
            },
        }
        i += 1;
    }
    out
}

/// Special-scheme column: whether each accepted input has one of the six
/// special schemes.
pub fn url_is_special(inputs: &Vec<Option<String>>) -> (r: Vec<Option<bool>>)
    ensures
        r@.len() == inputs@.len(),
        forall|i: int|
            0 <= i < inputs@.len() ==> #[trigger] r@[i] == url_special_cell(
                opt_str_view(inputs@[i]),
            ),
{
    let n = inputs.len();
    let mut out: Vec<Option<bool>> = Vec::new();
    let mut i: usize = 0;
    while i < n
        invariant
            i <= n,
            n == inputs@.len(),
            out@.len() == i,
            forall|j: int|
                0 <= j < i ==> #[trigger] out@[j] == url_special_cell(opt_str_view(inputs@[j])),
        decreases n - i,
    {
        match &inputs[i] {
            None => out.push(None),
            Some(s) => match parse_url(s.as_str()) {
                Ok(p) => out.push(Some(p.is_special())),
                Err(_) => out.push(None),
            },
        }
        i += 1;
    }
    out
}

/// Validity column: whether each present input is accepted by the parser;
/// absent inputs stay absent.
pub fn url_is_valid(inputs: &Vec<Option<String>>) -> (r: Vec<Option<bool>>)
    ensures
        r@.len() == inputs@.len(),
        forall|i: int|
            0 <= i < inputs@.len() ==> #[trigger] r@[i] == url_valid_cell(
                opt_str_view(inputs@[i]),
            ),
{
    let n = inputs.len();
    let mut out: Vec<Option<bool>> = Vec::new();
    let mut i: usize = 0;
    while i < n
        invariant
            i <= n,
            n == inputs@.len(),
            out@.len() == i,
            forall|j: int|
                0 <= j < i ==> #[trigger] out@[j] == url_valid_cell(opt_str_view(inputs@[j])),
        decreases n - i,
    {
        match &inputs[i] {
            None => out.push(None),
            Some(s) => match parse_url(s.as_str()) {
                Ok(_) => out.push(Some(true)),
                Err(_) => out.push(Some(false)),
            },
        }
        i += 1;
    }
    out
}

/// Diagnostic column: `ok` for each accepted input, else the failure's
/// stable category string; absent inputs stay absent.
pub fn url_check(inputs: &Vec<Option<String>>) -> (r: Vec<Option<String>>)
    ensures
        r@.len() == inputs@.len(),
        forall|i: int|
            0 <= i < inputs@.len() ==> opt_str_view(#[trigger] r@[i]) == url_check_cell(
                opt_str_view(inputs@[i]),
            ),
{
    let n = inputs.len();
    let mut out: Vec<Option<String>> = Vec::new();
    let mut i: usize = 0;
    while i < n
        invariant
            i <= n,
            n == inputs@.len(),
            out@.len() == i,
            forall|j: int|
                0 <= j < i ==> opt_str_view(#[trigger] out@[j]) == url_check_cell(
                    opt_str_view(inputs@[j]),
                ),
        decreases n - i,
    {
        match &inputs[i] {
            None => out.push(None),
            Some(s) => match parse_url(s.as_str()) {
                Ok(_) => out.push(Some("ok".to_owned())),
                Err(e) => out.push(Some(url_diagnostic(e))),
            },
        }
        i += 1;
    }
    out
}

} // verus!
