use istr::url_parsing::{parse_url, url_diagnostic, UrlError};

#[test]
fn url_full_scenario() {
    let p = parse_url("https://user@example.com:8080/path?q=1#frag").expect("accepted URL");
    assert_eq!(p.scheme, "https");
    assert_eq!(p.host.as_deref(), Some("example.com"));
    assert_eq!(p.domain.as_deref(), Some("example.com"));
    assert_eq!(p.path, "/path");
    assert_eq!(p.query.as_deref(), Some("q=1"));
    assert_eq!(p.fragment.as_deref(), Some("frag"));
    assert!(p.is_special());
}

#[test]
fn url_non_authority_scheme() {
    let p = parse_url("mailto:someone@example.com").expect("accepted URL");
    assert_eq!(p.scheme, "mailto");
    assert_eq!(p.host, None);
    assert_eq!(p.domain, None);
    assert!(!p.is_special());
}

#[test]
fn url_ip_host_has_no_domain() {
    let p = parse_url("http://127.0.0.1/index.html").expect("accepted URL");
    assert_eq!(p.host.as_deref(), Some("127.0.0.1"));
    assert_eq!(p.domain, None);
    assert_eq!(p.path, "/index.html");
    assert!(p.is_special());
}

#[test]
fn url_empty_host_error() {
    let e = parse_url("http://").unwrap_err();
    assert_eq!(e, UrlError::EmptyHost);
    assert_eq!(url_diagnostic(e), "empty host");
}

#[test]
fn url_relative_without_base_error() {
    let e = parse_url("no-scheme-here").unwrap_err();
    assert_eq!(e, UrlError::RelativeUrlWithoutBase);
    assert_eq!(url_diagnostic(e), "relative URL without a base");
}

#[test]
fn url_invalid_port_error() {
    let e = parse_url("http://example.com:port").unwrap_err();
    assert_eq!(e, UrlError::InvalidPort);
    assert_eq!(url_diagnostic(e), "invalid port number");
}

#[test]
fn url_address_error_variants() {
    // five dotted parts cannot be an IPv4 address
    let e = parse_url("http://1.2.3.4.5").unwrap_err();
    assert_eq!(e, UrlError::InvalidIpv4Address);
    assert_eq!(url_diagnostic(e), "invalid IPv4 address");

    // a bracketed host with too few groups is a bad IPv6 address
    let e = parse_url("http://[1:2:3]").unwrap_err();
    assert_eq!(e, UrlError::InvalidIpv6Address);
    assert_eq!(url_diagnostic(e), "invalid IPv6 address");

    // a space in the opaque host of a non-special scheme
    let e = parse_url("foo://a b").unwrap_err();
    assert_eq!(e, UrlError::InvalidDomainCharacter);
    assert_eq!(url_diagnostic(e), "invalid domain character");

    // a space in the domain of a special scheme fails IDNA processing
    let e = parse_url("http://exa mple.com").unwrap_err();
    assert_eq!(e, UrlError::IdnaError);
    assert_eq!(url_diagnostic(e), "invalid international domain name");
}

#[test]
fn url_agrees_with_reference_crate() {
    let candidates = [
        "https://user@example.com:8080/path?q=1#frag",
        "mailto:someone@example.com",
        "http://127.0.0.1/index.html",
        "ftp://ftp.example.org/pub",
        "file:///tmp/data.txt",
        "moz:///tmp/data.txt",
        "http://",
        "no-scheme-here",
    ];
    for s in candidates {
        let mine = parse_url(s);
        let theirs = url::Url::parse(s);
        assert_eq!(mine.is_ok(), theirs.is_ok(), "disagreement on {s}");
        if let (Ok(m), Ok(t)) = (mine, theirs) {
            assert_eq!(m.scheme.as_str(), t.scheme());
            assert_eq!(m.host.as_deref(), t.host_str());
            assert_eq!(m.domain.as_deref(), t.domain());
            assert_eq!(m.path.as_str(), t.path());
            assert_eq!(m.query.as_deref(), t.query());
            assert_eq!(m.fragment.as_deref(), t.fragment());
            assert_eq!(m.is_special(), t.is_special());
        }
    }
}
