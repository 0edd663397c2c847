//! Web addresses: what of a parsed URL the window reads, and the origin of a page.

use vstd::prelude::*;
use vstd::string::*;

use crate::text;
use crate::text::decimal_text;

verus! {

/// The parts of a URL that decisions are made on.
pub struct UrlParts {
    pub scheme: String,
    pub host: Option<String>,
    pub port: Option<u16>,
}

/// What `UrlParts` holds, as mathematical values.
pub struct UrlView {
    pub scheme: Seq<char>,
    pub host: Option<Seq<char>>,
    pub port: Option<u16>,
}

impl View for UrlParts {
    type V = UrlView;

    open spec fn view(&self) -> UrlView {
        UrlView {
            scheme: self.scheme@,
            host: text::text_option(self.host),
            port: self.port,
        }
    }
}

/// Whether a character may stand in a URL's scheme.
pub open spec fn is_scheme_char(c: char) -> bool {
    ||| 'a' <= c <= 'z'
    ||| '0' <= c <= '9'
    ||| c == '+'
    ||| c == '-'
    ||| c == '.'
}

/// Whether a text can be the host of a parsed URL: ASCII, not empty, and with colons
/// only inside the brackets of an IPv6 address.
pub open spec fn is_host(host: Seq<char>) -> bool {
    &&& host.len() > 0
    &&& forall|i: int| 0 <= i < host.len() ==> #[trigger] host[i] <= '\x7f'
    &&& host.contains(':') ==> host.first() == '[' && host.last() == ']'
}

impl UrlView {
    /// What holds of every URL that parsing yields.
    pub open spec fn well_formed(self) -> bool {
        &&& forall|i: int| 0 <= i < self.scheme.len() ==> is_scheme_char(#[trigger] self.scheme[i])
        &&& self.host matches Some(host) ==> is_host(host)
    }
}

/// The parts of a URL that may have failed to parse.
pub open spec fn parts_option(parts: Option<UrlParts>) -> Option<UrlView> {
    match parts {
        Some(p) => Some(p@),
        None => None,
    }
}

/// What `url::Url::parse` makes of a text: the scheme, host and port of the URL, or
/// nothing where the text is no absolute URL.
pub uninterp spec fn parsed_url(uri: Seq<char>) -> Option<UrlView>;

/// The `:port` part of an origin, which is empty for the scheme's default port.
pub open spec fn port_suffix(port: Option<u16>) -> Seq<char> {
    match port {
        Some(port) => ":"@ + text::decimal(port as nat),
        None => Seq::empty(),
    }
}

/// The `scheme://host[:port]` origin of a URL with a host.
pub open spec fn origin_text(url: UrlView) -> Option<Seq<char>> {
    match url.host {
        Some(host) => Some(url.scheme + "://"@ + host + port_suffix(url.port)),
        None => None,
    }
}

/// Whether a scheme is one whose hosts are domain names, which are encoded where they are
/// not ASCII.
pub open spec fn is_special(scheme: Seq<char>) -> bool {
    ||| scheme == "http"@
    ||| scheme == "https"@
    ||| scheme == "ws"@
    ||| scheme == "wss"@
    ||| scheme == "ftp"@
    ||| scheme == "file"@
}

/// Whether a URL has a host that is taken literally when it is parsed again: one of another
/// scheme, or one without the mark of an encoded label.
pub open spec fn reads_back(url: UrlView) -> bool {
    url.host matches Some(host) && (!is_special(url.scheme) || !text::contains_text(
        host,
        "xn--"@,
    ))
}

/// Calls `url::Url::parse` and reads the URL's `scheme`, `host_str` and `port`.
///
/// Trusted: the outcome depends on the text alone and is named `parsed_url`; the scheme
/// consists of lower-case ASCII letters, digits, `+`, `-` and `.`; a host is ASCII and not
/// empty, and holds a colon only where it is an IPv6 address, which stands in brackets;
/// parsing the origin of a URL gives the same scheme, host and port again or fails; and it
/// does not fail where `reads_back` holds of the URL. Whether it fails for a host with an
/// encoded label is left open: such a label is refused where it is longer than the decoder
/// takes.
#[verifier::external_body]
pub(crate) fn parse_url(uri: &str) -> (parts: Option<UrlParts>)
    ensures
        parts_option(parts) == parsed_url(uri@),
        parts matches Some(p) ==> p@.well_formed(),
        parts matches Some(p) ==> (p@.host is Some ==> (parsed_url(
            origin_text(p@).unwrap(),
        ) matches Some(again) ==> again == p@)),
        parts matches Some(p) ==> (reads_back(p@) ==> parsed_url(
            origin_text(p@).unwrap(),
        ) is Some),
{
    let url = url::Url::parse(uri).ok()?;
    Some(
        UrlParts {
            scheme: url.scheme().to_owned(),
            host: url.host_str().map(str::to_owned),
            port: url.port(),
        },
    )
}

/// The origin of the page at `uri`, if it is a URL with a host.
pub open spec fn origin_of_page(uri: Option<Seq<char>>) -> Option<Seq<char>> {
    match uri {
        Some(uri) => match parsed_url(uri) {
            Some(url) => origin_text(url),
            None => None,
        },
        None => None,
    }
}

/// The `scheme://host[:port]` origin of a URL, if it has a host.
pub fn url_origin(url: &UrlParts) -> (origin: Option<String>)
    ensures
        text::text_option(origin) == origin_text(url@),
{
    match &url.host {
        Some(host) => {
            let mut origin: String = url.scheme.clone();
            origin.append("://");
            origin.append(host.as_str());
            match url.port {
                Some(port) => {
                    origin.append(":");
                    origin.append(decimal_text(port).as_str());
                },
                None => {},
            }
            assert(origin@ =~= origin_text(url@).unwrap());
            Some(origin)
        },
        None => None,
    }
}

/// The scheme://host[:port] origin of a URI, used as the storage key for website
/// permissions.
pub fn page_origin(uri: Option<&str>) -> (origin: Option<String>)
    ensures
        text::text_option(origin) == origin_of_page(text::str_option(uri)),
        uri matches Some(u) ==> (parsed_url(u@) matches Some(url) ==> url.well_formed()),
        // An origin has no origin but itself
        origin matches Some(o) ==> (origin_of_page(Some(o@)) matches Some(again) ==> again == o@),
        // An origin that can be read back is its own origin
        uri matches Some(u) ==> (parsed_url(u@) matches Some(url) ==> (reads_back(url)
            ==> origin_of_page(text::text_option(origin)) == text::text_option(origin))),
{
    match uri {
        Some(uri) => match parse_url(uri) {
            Some(url) => url_origin(&url),
            None => None,
        },
        None => None,
    }
}

/// Two hosts, each with its port, read the same only where they are the same.
proof fn lemma_host_and_port(
    left: Seq<char>,
    left_port: Option<u16>,
    right: Seq<char>,
    right_port: Option<u16>,
)
    requires
        is_host(left),
        is_host(right),
        left + port_suffix(left_port) == right + port_suffix(right_port),
    ensures
        left == right,
        left_port == right_port,
{
    reveal_strlit(":");
    let whole = left + port_suffix(left_port);
    match (left_port, right_port) {
        (None, None) => {
            assert(whole =~= left);
            assert(whole =~= right);
        },
        (Some(l), Some(r)) => {
            let ld = text::decimal(l as nat);
            let rd = text::decimal(r as nat);
            text::lemma_decimal_digits(l as nat);
            text::lemma_decimal_digits(r as nat);
            assert(whole == left + (":"@ + ld));
            assert(whole == right + (":"@ + rd));
            assert(whole.len() == left.len() + 1 + ld.len());
            assert(whole.len() == right.len() + 1 + rd.len());
            assert(whole[left.len() as int] == ':');
            assert(whole[right.len() as int] == ':');
            if left.len() < right.len() {
                assert(whole[right.len() as int] == ld[right.len() - left.len() - 1]);
            }
            if right.len() < left.len() {
                assert(whole[left.len() as int] == rd[left.len() - right.len() - 1]);
            }
            assert(left =~= whole.take(left.len() as int));
            assert(right =~= whole.take(right.len() as int));
            assert(ld =~= whole.skip(left.len() + 1int));
            assert(rd =~= whole.skip(right.len() + 1int));
            text::lemma_decimal_injective(l as nat, r as nat);
        },
        (Some(l), None) => {
            lemma_port_not_host(left, l, right);
            assert(whole =~= right);
        },
        (None, Some(r)) => {
            lemma_port_not_host(right, r, left);
            assert(whole =~= left);
        },
    }
}

/// A host with a port is no host.
proof fn lemma_port_not_host(host: Seq<char>, port: u16, other: Seq<char>)
    requires
        is_host(host),
        is_host(other),
    ensures
        host + port_suffix(Some(port)) != other,
{
    reveal_strlit(":");
    let whole = host + port_suffix(Some(port));
    let digits = text::decimal(port as nat);
    text::lemma_decimal_digits(port as nat);
    assert(whole[host.len() as int] == ':');
    assert(whole.contains(':'));
    assert(whole.last() == digits.last());
}

/// Two pages have the same origin exactly where scheme, host and port agree: the storage
/// key of one site's permissions is never that of another's.
pub proof fn law_origin_identifies_site(left: UrlView, right: UrlView)
    requires
        left.well_formed(),
        right.well_formed(),
        left.host is Some,
        right.host is Some,
    ensures
        origin_text(left) == origin_text(right) <==> left == right,
{
    if origin_text(left) == origin_text(right) {
        reveal_strlit("://");
        let lh = left.host.unwrap();
        let rh = right.host.unwrap();
        let whole = origin_text(left).unwrap();
        assert(whole[left.scheme.len() as int] == ':');
        assert(whole[right.scheme.len() as int] == ':');
        if left.scheme.len() < right.scheme.len() {
            assert(whole[left.scheme.len() as int] == right.scheme[left.scheme.len() as int]);
        }
        if right.scheme.len() < left.scheme.len() {
            assert(whole[right.scheme.len() as int] == left.scheme[right.scheme.len() as int]);
        }
        assert(left.scheme =~= whole.take(left.scheme.len() as int));
        assert(right.scheme =~= whole.take(right.scheme.len() as int));
        assert(lh + port_suffix(left.port) =~= whole.skip(left.scheme.len() + 3int));
        assert(rh + port_suffix(right.port) =~= whole.skip(right.scheme.len() + 3int));
        lemma_host_and_port(lh, left.port, rh, right.port);
    }
}

/// One storage key per site: two pages share a key exactly where scheme, host and port of
/// their addresses agree.
pub proof fn law_one_key_per_site(left: Seq<char>, right: Seq<char>)
    requires
        parsed_url(left) matches Some(url) && url.host is Some && url.well_formed(),
        parsed_url(right) matches Some(url) && url.host is Some && url.well_formed(),
    ensures
        origin_of_page(Some(left)) is Some,
        origin_of_page(Some(left)) == origin_of_page(Some(right)) <==> parsed_url(left)
            == parsed_url(right),
{
    law_origin_identifies_site(parsed_url(left).unwrap(), parsed_url(right).unwrap());
}

/// An origin reads `scheme://host`, and a port that is not the scheme's default follows it
/// after a colon. There is an origin exactly where there is a host.
pub proof fn law_origin_written(url: UrlView, host: Seq<char>, port: u16)
    ensures
        origin_text(url) is Some <==> url.host is Some,
        origin_text(UrlView { host: Some(host), port: None, ..url }) == Some(
            url.scheme + "://"@ + host,
        ),
        origin_text(UrlView { host: Some(host), port: Some(port), ..url }) == Some(
            url.scheme + "://"@ + host + ":"@ + text::decimal(port as nat),
        ),
{
    assert(url.scheme + "://"@ + host + Seq::empty() =~= url.scheme + "://"@ + host);
    assert(url.scheme + "://"@ + host + (":"@ + text::decimal(port as nat)) =~= url.scheme
        + "://"@ + host + ":"@ + text::decimal(port as nat));
}

/// A page has an origin exactly where its address is a URL with a host, and it is the origin
/// of that URL: nothing but scheme, host and port of the address tells.
pub proof fn law_page_has_its_urls_origin<'a>(uri: Option<&'a str>, origin: Option<String>)
    requires
        call_ensures(page_origin, (uri,), origin),
    ensures
        origin is Some <==> (uri is Some && (parsed_url(uri.unwrap()@) matches Some(url)
            && url.host is Some)),
        origin is Some ==> ({
            let url = parsed_url(uri.unwrap()@).unwrap();
            let bare = url.scheme + "://"@ + url.host.unwrap();
            origin.unwrap()@ == (match url.port {
                Some(port) => bare + ":"@ + text::decimal(port as nat),
                None => bare,
            })
        }),
{
    if let Some(u) = uri {
        if let Some(url) = parsed_url(u@) {
            if let Some(host) = url.host {
                let port = match url.port {
                    Some(port) => port,
                    None => 0u16,
                };
                law_origin_written(url, host, port);
                assert(url == UrlView { host: Some(host), port: url.port, ..url });
            }
        }
    }
}

} // verus!
