use spider_window::address::{page_origin, url_origin, UrlParts};

fn origin(uri: &str) -> Option<String> {
    page_origin(Some(uri))
}

#[test]
fn origin_of_a_page() {
    assert_eq!(
        origin("https://example.com/path?q=1#f"),
        Some("https://example.com".to_string())
    );
    assert_eq!(
        origin("http://localhost:8080/index.html"),
        Some("http://localhost:8080".to_string())
    );
    assert_eq!(
        origin("HTTPS://User:Pw@Example.COM/"),
        Some("https://example.com".to_string())
    );
    assert_eq!(
        origin("https://[::1]:3000/"),
        Some("https://[::1]:3000".to_string())
    );
    assert_eq!(
        origin("https://b\u{fc}cher.example/"),
        Some("https://xn--bcher-kva.example".to_string())
    );
}

#[test]
fn default_ports_are_left_out() {
    assert_eq!(
        origin("https://example.com:443/"),
        Some("https://example.com".to_string())
    );
    assert_eq!(
        origin("http://example.com:443/"),
        Some("http://example.com:443".to_string())
    );
}

#[test]
fn pages_without_an_origin() {
    assert_eq!(page_origin(None), None);
    assert_eq!(origin("about:blank"), None);
    assert_eq!(origin("data:text/plain,Stuff"), None);
    assert_eq!(origin("no url at all"), None);
    assert_eq!(origin("https://"), None);
}

#[test]
fn origins_tell_sites_apart() {
    let sites = [
        "https://example.com/a",
        "http://example.com/a",
        "https://example.com:8443/a",
        "https://www.example.com/a",
    ];
    for (i, left) in sites.iter().enumerate() {
        for (j, right) in sites.iter().enumerate() {
            assert_eq!(origin(left) == origin(right), i == j);
        }
    }
    assert_eq!(
        origin("https://example.com/a"),
        origin("https://example.com/b?c")
    );
}

#[test]
fn origin_of_parts() {
    let mut url = UrlParts {
        scheme: "https".to_string(),
        host: Some("example.com".to_string()),
        port: Some(0),
    };
    assert_eq!(url_origin(&url), Some("https://example.com:0".to_string()));
    url.port = Some(65535);
    assert_eq!(
        url_origin(&url),
        Some("https://example.com:65535".to_string())
    );
    url.port = None;
    assert_eq!(url_origin(&url), Some("https://example.com".to_string()));
    url.host = None;
    assert_eq!(url_origin(&url), None);
}

#[test]
fn an_origin_is_its_own_origin() {
    let uris = [
        "https://example.com/path?q=1#f",
        "http://localhost:8080/index.html",
        "HTTPS://User:Pw@Example.COM:8443/",
        "https://under_score.1a.-x-.example/",
        "https://example.com./",
        "https://127.1/",
        "https://0x7f000001:81/",
        "https://[2001:DB8:0:0:1:0:0:1]:3000/",
        "https://[::]/",
        "https://[1:2:3:4:5:6:0:0]/",
        "https://[::ffff:1.2.3.4]/",
        "https://\u{ff45}xample.com/",
        "ftp://files.example.com/x",
        "file://server/share",
        "app://Mixed%20Case~Host:99/x",
        "app://h\u{e4}ndler/x",
        "app://xn--bad--/x",
        "app://[::1]/x",
        "app://user@1.2.3/x",
    ];
    for uri in uris {
        let found = origin(uri);
        assert!(found.is_some());
        assert_eq!(origin(found.as_ref().unwrap()), found);
    }
}

#[test]
fn an_encoded_label_can_be_too_long_to_read_back() {
    let short = origin("https://b\u{fc}cher.example/");
    assert_eq!(origin(short.as_ref().unwrap()), short);

    let label: String = (0..900u32)
        .map(|i| char::from_u32(0x4e00 + (i * 7919) % 20000).unwrap())
        .collect();
    let long = origin(&format!("https://{}/", label));
    assert!(long.is_some());
    assert_eq!(origin(long.as_ref().unwrap()), None);
}

#[test]
fn an_origin_is_read_as_itself_or_not_at_all() {
    let labels = [
        "b\u{fc}cher",
        "xn--bcher-kva",
        "XN--BCHER-KVA",
        "\u{ff58}n--bcher-kva",
        "\u{5d0}\u{5d1}",
        "fa\u{df}",
        "\u{1f600}",
        "\u{130}",
        "a\u{ad}\u{e9}",
        "e\u{301}",
    ];
    for label in labels {
        for uri in [
            format!("https://{}.example:8443/x", label),
            format!("https://www.{}/", label),
            format!("file://{}/x", label),
        ] {
            if let Some(found) = origin(&uri) {
                let again = origin(&found);
                assert!(again.is_none() || again.as_ref() == Some(&found));
            }
        }
    }
}
