//! URL recognizer. The WHATWG URL parsing algorithm itself is delegated to
//! the `url` crate as an external grammar black box: given a string with no
//! base URL, it either yields a structured breakdown or one of the
//! enumerated failure kinds. Both outcomes depend on the input string alone,
//! so they are given names (`url_ok`, `url_scheme_of`, ...) that the trusted
//! wrappers tie to the calls and every contract here speaks of exactly.
//!
//! The special-scheme classification (http, https, ws, wss, ftp, file) is
//! computed from the parsed scheme by verified code.

use vstd::prelude::*;
use crate::optview::{opt_str_view, str_eq};
use url::ParseError as PE;

verus! {

/// Structured breakdown of a successfully parsed URL. `host` and `domain`
/// are absent for non-authority schemes; `domain` is additionally absent
/// when the host is a literal IP address.
#[derive(Debug)]
pub struct UrlParts {
    /// The (lowercased) scheme, without the trailing colon.
    pub scheme: String,
    /// The host, when the URL has an authority.
    pub host: Option<String>,
    /// The host again, when it is a registrable domain rather than an IP address.
    pub domain: Option<String>,
    /// The path, possibly empty.
    pub path: String,
    /// The query string, without the leading question mark.
    pub query: Option<String>,
    /// The fragment, without the leading hash mark.
    pub fragment: Option<String>,
}

/// Failure kinds of the WHATWG URL parser, as classified for diagnostics.
#[derive(Clone, Copy, Debug, PartialEq, Eq)]
pub enum UrlError {
    /// The URL requires a host but has an empty one.
    EmptyHost,
    /// The international domain name could not be processed.
    IdnaError,
    /// The port number is invalid.
    InvalidPort,
    /// A host that looks like an IPv4 address is invalid.
    InvalidIpv4Address,
    /// A bracketed IPv6 address is invalid.
    InvalidIpv6Address,
    /// The domain contains a forbidden character.
    InvalidDomainCharacter,
    /// The input is relative and no base URL was supplied.
    RelativeUrlWithoutBase,
    /// The input is relative to a cannot-be-a-base URL.
    RelativeUrlWithCannotBeABaseBase,
    /// A host was set on a cannot-be-a-base URL.
    SetHostOnCannotBeABaseUrl,
    /// The URL exceeds the parser's four-gigabyte limit.
    Overflow,
    /// Any other, unclassified failure.
    Other,
}

/// Whether the WHATWG parser accepts `s` (with no base URL).
pub uninterp spec fn url_ok(s: Seq<char>) -> bool;

/// The scheme of the parse of `s`.
pub uninterp spec fn url_scheme_of(s: Seq<char>) -> Seq<char>;

/// The host of the parse of `s`, when it has an authority.
pub uninterp spec fn url_host_of(s: Seq<char>) -> Option<Seq<char>>;

/// The registrable domain of the parse of `s`, when the host is not an IP address.
pub uninterp spec fn url_domain_of(s: Seq<char>) -> Option<Seq<char>>;

/// The path of the parse of `s`.
pub uninterp spec fn url_path_of(s: Seq<char>) -> Seq<char>;

/// The query of the parse of `s`, when present.
pub uninterp spec fn url_query_of(s: Seq<char>) -> Option<Seq<char>>;

/// The fragment of the parse of `s`, when present.
pub uninterp spec fn url_fragment_of(s: Seq<char>) -> Option<Seq<char>>;

/// The failure kind the parser reports for `s`, as a classification code.
pub uninterp spec fn url_error_code_of(s: Seq<char>) -> int;

/// Classification code of a failure kind; distinct per variant.
pub open spec fn url_error_code(e: UrlError) -> int {
    match e {
        UrlError::EmptyHost => 0,
        UrlError::IdnaError => 1,
        UrlError::InvalidPort => 2,
        UrlError::InvalidIpv4Address => 3,
        UrlError::InvalidIpv6Address => 4,
        UrlError::InvalidDomainCharacter => 5,
        UrlError::RelativeUrlWithoutBase => 6,
        UrlError::RelativeUrlWithCannotBeABaseBase => 7,
        UrlError::SetHostOnCannotBeABaseUrl => 8,
        UrlError::Overflow => 9,
        UrlError::Other => 10,
    }
}

/// The failure kind with classification code `c` (`Other` for any other code).
pub open spec fn url_error_from_code(c: int) -> UrlError {
    if c == 0 {
        UrlError::EmptyHost
    } else if c == 1 {
        UrlError::IdnaError
    } else if c == 2 {
        UrlError::InvalidPort
    } else if c == 3 {
        UrlError::InvalidIpv4Address
    } else if c == 4 {
        UrlError::InvalidIpv6Address
    } else if c == 5 {
        UrlError::InvalidDomainCharacter
    } else if c == 6 {
        UrlError::RelativeUrlWithoutBase
    } else if c == 7 {
        UrlError::RelativeUrlWithCannotBeABaseBase
    } else if c == 8 {
        UrlError::SetHostOnCannotBeABaseUrl
    } else if c == 9 {
        UrlError::Overflow
    } else {
        UrlError::Other
    }
}

/// Relies on `url::Url::parse` (the WHATWG URL parser, invoked with no base
/// URL) and on its accessors `scheme`, `host_str`, `domain`, `path`, `query`
/// and `fragment`, which project fields out of the parsed value. Parsing is
/// deterministic, so acceptance and every projected field are functions of
/// the input string alone, named by the `url_*` spec functions above.
#[verifier::external_body]
fn url_parse_parts(s: &str) -> (r: Option<UrlParts>)
    ensures
        r is Some <==> url_ok(s@),
        r matches Some(p) ==> {
            &&& p.scheme@ == url_scheme_of(s@)
            &&& opt_str_view(p.host) == url_host_of(s@)
            &&& opt_str_view(p.domain) == url_domain_of(s@)
            &&& p.path@ == url_path_of(s@)
            &&& opt_str_view(p.query) == url_query_of(s@)
            &&& opt_str_view(p.fragment) == url_fragment_of(s@)
        },
{
    let u = url::Url::parse(s).ok()?;
    Some(UrlParts {
        scheme: u.scheme().to_string(),
        host: u.host_str().map(|h| h.to_string()),
        domain: u.domain().map(|d| d.to_string()),
        path: u.path().to_string(),
        query: u.query().map(|q| q.to_string()),
        fragment: u.fragment().map(|f| f.to_string()),
    })
}

/// Relies on `url::Url::parse`: which error a failing input is rejected with
/// is deterministic, so its classification is a function of the input string
/// alone, named by `url_error_code_of`. Each arm only renames one variant of
/// the crate's error enum.
#[verifier::external_body]
fn url_parse_error(s: &str) -> (r: Option<UrlError>)
    ensures
        r is None <==> url_ok(s@),
        r matches Some(e) ==> url_error_code(e) == url_error_code_of(s@),
{
    match url::Url::parse(s) {
        Ok(_) => None,
        Err(PE::EmptyHost) => Some(UrlError::EmptyHost),
        Err(PE::IdnaError) => Some(UrlError::IdnaError),
        Err(PE::InvalidPort) => Some(UrlError::InvalidPort),
        Err(PE::InvalidIpv4Address) => Some(UrlError::InvalidIpv4Address),
        Err(PE::InvalidIpv6Address) => Some(UrlError::InvalidIpv6Address),
        Err(PE::InvalidDomainCharacter) => Some(UrlError::InvalidDomainCharacter),
        Err(PE::RelativeUrlWithoutBase) => Some(UrlError::RelativeUrlWithoutBase),
        Err(PE::RelativeUrlWithCannotBeABaseBase) => Some(UrlError::RelativeUrlWithCannotBeABaseBase),
        Err(PE::SetHostOnCannotBeABaseUrl) => Some(UrlError::SetHostOnCannotBeABaseUrl),
        Err(PE::Overflow) => Some(UrlError::Overflow),
        Err(_) => Some(UrlError::Other),
    }
}

/// The parts of the parse of `s` agree with the named projections.
pub open spec fn url_parts_match(p: UrlParts, s: Seq<char>) -> bool {
    &&& p.scheme@ == url_scheme_of(s)
    &&& opt_str_view(p.host) == url_host_of(s)
    &&& opt_str_view(p.domain) == url_domain_of(s)
    &&& p.path@ == url_path_of(s)
    &&& opt_str_view(p.query) == url_query_of(s)
    &&& opt_str_view(p.fragment) == url_fragment_of(s)
}

/// Recognize `s` as a URL (no base), or classify why it is rejected.
pub fn parse_url(s: &str) -> (r: Result<UrlParts, UrlError>)
    ensures
        r is Ok <==> url_ok(s@),
        r matches Ok(p) ==> url_parts_match(p, s@),
        r matches Err(e) ==> e == url_error_from_code(url_error_code_of(s@)),
{
    match url_parse_parts(s) {
        Some(p) => Ok(p),
        None => match url_parse_error(s) {
            Some(e) => {
                proof {
                    assert(e == url_error_from_code(url_error_code(e)));
                }
                Err(e)
            },
            None => {
                proof {
                    assert(false);
                }
                Err(UrlError::Other)
            },
        },
    }
}

/// Whether `scheme` is one of the six special schemes of the WHATWG standard.
pub open spec fn spec_is_special(scheme: Seq<char>) -> bool {
    ||| scheme == "http"@
    ||| scheme == "https"@
    ||| scheme == "ws"@
    ||| scheme == "wss"@
    ||| scheme == "ftp"@
    ||| scheme == "file"@
}

impl UrlParts {
    /// Whether the URL is special: its scheme is http, https, ws, wss, ftp
    /// or file, which changes default-port and empty-host handling.
    pub fn is_special(&self) -> (r: bool)
        ensures
            r == spec_is_special(self.scheme@),
    {
        let s = self.scheme.as_str();
        str_eq(s, "http") || str_eq(s, "https") || str_eq(s, "ws") || str_eq(s, "wss") || str_eq(
            s,
            "ftp",
        ) || str_eq(s, "file")
    }
}

/// Diagnostic category string for a URL parse failure.
pub open spec fn url_diag(e: UrlError) -> Seq<char> {
    match e {
        UrlError::EmptyHost => "empty host"@,
        UrlError::IdnaError => "invalid international domain name"@,
        UrlError::InvalidPort => "invalid port number"@,
        UrlError::InvalidIpv4Address => "invalid IPv4 address"@,
        UrlError::InvalidIpv6Address => "invalid IPv6 address"@,
        UrlError::InvalidDomainCharacter => "invalid domain character"@,
        UrlError::RelativeUrlWithoutBase => "relative URL without a base"@,
        UrlError::RelativeUrlWithCannotBeABaseBase => "relative URL with a cannot-be-a-base base"@,
        UrlError::SetHostOnCannotBeABaseUrl => "a cannot-be-a-base URL doesn't have a host to set"@,
        UrlError::Overflow => "URLs more than 4 GB are not supported"@,
        UrlError::Other => "unknown error"@,
    }
}

/// Map a URL parse failure to its stable diagnostic category string.
pub fn url_diagnostic(e: UrlError) -> (r: String)
    ensures
        r@ == url_diag(e),
{
    match e {
        UrlError::EmptyHost => "empty host".to_owned(),
        UrlError::IdnaError => "invalid international domain name".to_owned(),
        UrlError::InvalidPort => "invalid port number".to_owned(),
        UrlError::InvalidIpv4Address => "invalid IPv4 address".to_owned(),
        UrlError::InvalidIpv6Address => "invalid IPv6 address".to_owned(),
        UrlError::InvalidDomainCharacter => "invalid domain character".to_owned(),
        UrlError::RelativeUrlWithoutBase => "relative URL without a base".to_owned(),
        UrlError::RelativeUrlWithCannotBeABaseBase => "relative URL with a cannot-be-a-base base".to_owned(),
        UrlError::SetHostOnCannotBeABaseUrl => "a cannot-be-a-base URL doesn't have a host to set".to_owned(),
        UrlError::Overflow => "URLs more than 4 GB are not supported".to_owned(),
        UrlError::Other => "unknown error".to_owned(),
    }
}

} // verus!
