use spider_window::address::UrlParts;
use spider_window::domains::{domain_covers, uri_allowed, url_allowed};

fn only(domains: &[&str]) -> Option<Vec<String>> {
    Some(domains.iter().map(|d| d.to_string()).collect())
}

fn host(name: &str) -> UrlParts {
    UrlParts {
        scheme: "https".to_string(),
        host: Some(name.to_string()),
        port: None,
    }
}

#[test]
fn without_restriction_everything_is_allowed() {
    assert!(uri_allowed(&None, "https://example.org/"));
    assert!(uri_allowed(&None, "not a url"));
    assert!(uri_allowed(&None, ""));
}

#[test]
fn what_is_no_url_is_refused() {
    let allowed = only(&["example.com"]);
    assert!(!uri_allowed(&allowed, "not a url"));
    assert!(!uri_allowed(&allowed, "/relative/path"));
    assert!(!uri_allowed(&allowed, ""));
}

#[test]
fn domain_and_subdomains_are_allowed() {
    let allowed = only(&["example.com"]);
    assert!(uri_allowed(&allowed, "https://example.com/"));
    assert!(uri_allowed(&allowed, "https://mail.example.com/inbox?x=1"));
    assert!(uri_allowed(&allowed, "http://a.b.example.com:8080"));
    assert!(!uri_allowed(&allowed, "https://example.org/"));
    assert!(!uri_allowed(&allowed, "https://evilexample.com/"));
    assert!(!uri_allowed(&allowed, "https://example.com.evil.org/"));
}

#[test]
fn any_of_several_domains() {
    let allowed = only(&["example.com", "example.org"]);
    assert!(uri_allowed(&allowed, "https://example.org/"));
    assert!(uri_allowed(&allowed, "https://www.example.com/"));
    assert!(!uri_allowed(&allowed, "https://example.net/"));
    assert!(!uri_allowed(&only(&[]), "https://example.net/"));
}

#[test]
fn hostless_addresses_are_allowed() {
    let allowed = only(&["example.com"]);
    assert!(uri_allowed(&allowed, "about:blank"));
    assert!(uri_allowed(&allowed, "data:text/plain,Stuff"));
    assert!(uri_allowed(&allowed, "blob:https://example.org/1234"));
    assert!(uri_allowed(&allowed, "file:///tmp/foo"));
    assert!(uri_allowed(&only(&[]), "about:blank"));
}

#[test]
fn case_of_the_host_does_not_matter() {
    let allowed = only(&["example.com"]);
    assert!(uri_allowed(&allowed, "https://EXAMPLE.com/"));
    assert!(uri_allowed(&allowed, "HTTPS://Www.Example.COM/"));
    // The hosts of other schemes are kept as written until they are compared
    assert!(uri_allowed(&allowed, "app://Mail.EXAMPLE.com/"));
    assert!(!uri_allowed(&only(&["Example.com"]), "https://example.com/"));
}

#[test]
fn parsed_urls() {
    let allowed = vec!["example.com".to_string()];
    assert!(url_allowed(&allowed, &host("Sub.EXAMPLE.com")));
    assert!(!url_allowed(&allowed, &host("example.co")));
    let hostless = UrlParts {
        scheme: "about".to_string(),
        host: None,
        port: None,
    };
    assert!(url_allowed(&allowed, &hostless));
}

#[test]
fn coverage_of_one_domain() {
    assert!(domain_covers("example.com", "example.com"));
    assert!(domain_covers("example.com", "www.example.com"));
    assert!(domain_covers("example.com", ".example.com"));
    assert!(!domain_covers("example.com", "xexample.com"));
    assert!(!domain_covers("www.example.com", "example.com"));
    assert!(domain_covers("", ""));
    assert!(domain_covers("", "trailing."));
    assert!(!domain_covers("", "plain"));
}

#[test]
fn another_domain_takes_nothing_away() {
    let uris = ["https://a.example.com/", "about:blank", "https://example.com"];
    for uri in uris {
        assert!(uri_allowed(&only(&["example.com"]), uri));
        assert!(uri_allowed(&only(&["example.com", "other.net"]), uri));
    }
}
