//! Domain restriction: which addresses an application may show.

use vstd::prelude::*;
use vstd::string::*;

use crate::address;
use crate::address::{parse_url, UrlParts};
use crate::text;
use crate::text::{chars_of, matches_at};

verus! {

/// A character with an ASCII capital made small.
pub open spec fn ascii_lower(c: char) -> char {
    if 'A' <= c <= 'Z' {
        (c as u32 + 32) as char
    } else {
        c
    }
}

/// A text with its ASCII capitals made small.
pub open spec fn ascii_lowercase(text: Seq<char>) -> Seq<char> {
    text.map_values(|c: char| ascii_lower(c))
}

/// Whether a text is all ASCII.
pub open spec fn is_ascii_text(text: Seq<char>) -> bool {
    forall|i: int| 0 <= i < text.len() ==> #[trigger] text[i] <= '\x7f'
}

fn lower_char(c: char) -> (lower: char)
    ensures
        lower == ascii_lower(c),
{
    if 'A' <= c && c <= 'Z' {
        (c as u8 + 32) as char
    } else {
        c
    }
}

/// The characters of a text with its ASCII capitals made small.
fn lower_chars(text: &str) -> (lower: Vec<char>)
    ensures
        lower@ == ascii_lowercase(text@),
{
    let chars: Vec<char> = chars_of(text);
    let mut lower: Vec<char> = Vec::new();
    let mut i: usize = 0;
    while i < chars.len()
        invariant
            chars@ == text@,
            i <= chars@.len(),
            lower@ == ascii_lowercase(text@).take(i as int),
        decreases chars@.len() - i,
    {
        lower.push(lower_char(chars[i]));
        assert(ascii_lowercase(text@).take(i + 1) =~= ascii_lowercase(text@).take(i as int).push(
            ascii_lowercase(text@)[i as int],
        ));
        i += 1;
    }
    assert(ascii_lowercase(text@).take(i as int) =~= ascii_lowercase(text@));
    lower
}

/// Whether `domain` covers `name`: it is that name, or the name is one of its subdomains.
pub open spec fn covers(domain: Seq<char>, name: Seq<char>) -> bool {
    name == domain || text::ends_with_text(name, "."@ + domain)
}

/// Whether one of the domains covers `name`.
pub open spec fn listed(domains: Seq<Seq<char>>, name: Seq<char>) -> bool {
    exists|i: int| 0 <= i < domains.len() && covers(#[trigger] domains[i], name)
}

/// Whether an application that is kept inside `domains` may go to a URL. A URL without a
/// host is always allowed; the case of a host does not matter.
pub open spec fn url_permitted(domains: Seq<Seq<char>>, url: address::UrlView) -> bool {
    match url.host {
        Some(host) => listed(domains, ascii_lowercase(host)),
        None => true,
    }
}

/// Whether an application may go to `uri`. Without a restriction it may go anywhere; with
/// one, what is no URL is refused.
pub open spec fn uri_permitted(domains: Option<Seq<Seq<char>>>, uri: Seq<char>) -> bool {
    match domains {
        Some(domains) => match address::parsed_url(uri) {
            Some(url) => url_permitted(domains, url),
            None => false,
        },
        None => true,
    }
}

/// The domains of a restriction that may be missing.
pub open spec fn domain_list(domains: Option<Vec<String>>) -> Option<Seq<Seq<char>>> {
    match domains {
        Some(d) => Some(text::texts(d@)),
        None => None,
    }
}

fn chars_covered(domain: &Vec<char>, name: &Vec<char>) -> (covered: bool)
    ensures
        covered == covers(domain@, name@),
{
    proof {
        reveal_strlit(".");
    }
    if name.len() < domain.len() {
        return false;
    }
    let start: usize = name.len() - domain.len();
    let ghost dotted = "."@ + domain@;
    if start == 0 {
        let same: bool = matches_at(name, domain, 0);
        assert(name@.subrange(0, name@.len() as int) =~= name@);
        same
    } else {
        let ended: bool = matches_at(name, domain, start);
        let ghost tail = name@.subrange(start - 1, name@.len() as int);
        assert(tail.drop_first() =~= name@.subrange(start as int, name@.len() as int));
        assert(dotted.drop_first() =~= domain@);
        if name[start - 1] == '.' && ended {
            assert(tail =~= dotted);
            true
        } else {
            assert(tail != dotted) by {
                assert(tail[0] == name@[start - 1]);
                assert(dotted[0] == '.');
            }
            false
        }
    }
}

/// Whether `domain` is `name` or one of the domains above it.
pub fn domain_covers(domain: &str, name: &str) -> (covered: bool)
    ensures
        covered == covers(domain@, name@),
{
    chars_covered(&chars_of(domain), &chars_of(name))
}

/// Whether an application that is kept inside `allowed` may go to a parsed URL, whose host
/// is ASCII.
pub fn url_allowed(allowed: &Vec<String>, url: &UrlParts) -> (permitted: bool)
    requires
        url@.host matches Some(host) ==> is_ascii_text(host),
    ensures
        permitted == url_permitted(text::texts(allowed@), url@),
{
    match &url.host {
        None => true,
        Some(host) => {
            let name: Vec<char> = lower_chars(host.as_str());
            let mut i: usize = 0;
            while i < allowed.len()
                invariant
                    i <= allowed@.len(),
                    url@.host is Some,
                    name@ == ascii_lowercase(url@.host.unwrap()),
                    forall|k: int|
                        0 <= k < i ==> !covers(#[trigger] text::texts(allowed@)[k], name@),
                decreases allowed@.len() - i,
            {
                if chars_covered(&chars_of(allowed[i].as_str()), &name) {
                    assert(text::texts(allowed@)[i as int] == allowed@[i as int]@);
                    return true;
                }
                i += 1;
            }
            false
        },
    }
}

/// Checks whether navigating to `uri` is allowed by the app's domain restriction.
/// Subdomains of an allowed domain are allowed too. URIs without a host (about:, blob:,
/// data:, ...) are always allowed since web apps commonly rely on them internally.
pub fn uri_allowed(allowed_domains: &Option<Vec<String>>, uri: &str) -> (permitted: bool)
    ensures
        permitted == uri_permitted(domain_list(*allowed_domains), uri@),
{
    match allowed_domains {
        None => true,
        Some(allowed) => match parse_url(uri) {
            None => false,
            Some(url) => url_allowed(allowed, &url),
        },
    }
}

/// Subdomains of an allowed host are allowed too.
pub proof fn law_subdomains_allowed(
    domains: Seq<Seq<char>>,
    url: address::UrlView,
    label: Seq<char>,
    subdomain: address::UrlView,
)
    requires
        url_permitted(domains, url),
        url.host is Some,
        subdomain.host == Some(label + "."@ + url.host.unwrap()),
    ensures
        url_permitted(domains, subdomain),
{
    reveal_strlit(".");
    let name = ascii_lowercase(url.host.unwrap());
    let longer = ascii_lowercase(subdomain.host.unwrap());
    let i = choose|i: int| 0 <= i < domains.len() && covers(#[trigger] domains[i], name);
    let dotted = "."@ + domains[i];
    let start = longer.len() - dotted.len();
    assert(longer =~= ascii_lowercase(label) + "."@ + name);
    if name == domains[i] {
        assert(longer.subrange(start, longer.len() as int) =~= dotted);
    } else {
        assert(longer.subrange(start, longer.len() as int) =~= name.subrange(
            name.len() - dotted.len(),
            name.len() as int,
        ));
    }
    assert(covers(domains[i], longer));
}

/// A domain covers only itself and the names that go on in front of it with a dot: a name
/// that merely ends in the same letters is not let in.
pub proof fn law_domain_covers_subdomains_only(domain: Seq<char>, name: Seq<char>)
    ensures
        covers(domain, name) <==> name == domain || exists|front: Seq<char>|
            name == #[trigger] (front + "."@) + domain,
{
    let dotted = "."@ + domain;
    if covers(domain, name) && name != domain {
        let front = name.take(name.len() - dotted.len());
        assert(name =~= front + name.subrange(name.len() - dotted.len(), name.len() as int));
        assert(front + dotted =~= (front + "."@) + domain);
    }
    if exists|front: Seq<char>| name == #[trigger] (front + "."@) + domain {
        let front = choose|front: Seq<char>| name == #[trigger] (front + "."@) + domain;
        assert(name.subrange(name.len() - dotted.len(), name.len() as int) =~= dotted);
    }
}

/// Allowing one more domain refuses nothing that was allowed.
pub proof fn law_more_domains_allow_more(
    domains: Seq<Seq<char>>,
    more: Seq<char>,
    url: address::UrlView,
)
    requires
        url_permitted(domains, url),
    ensures
        url_permitted(domains.push(more), url),
{
    if let Some(host) = url.host {
        let name = ascii_lowercase(host);
        let i = choose|i: int| 0 <= i < domains.len() && covers(#[trigger] domains[i], name);
        assert(domains.push(more)[i] == domains[i]);
    }
}

/// The case in which a host is written does not matter.
pub proof fn law_host_case_ignored(
    domains: Seq<Seq<char>>,
    left: address::UrlView,
    right: address::UrlView,
)
    requires
        left.host is Some,
        right.host is Some,
        ascii_lowercase(left.host.unwrap()) == ascii_lowercase(right.host.unwrap()),
    ensures
        url_permitted(domains, left) == url_permitted(domains, right),
{
}

/// Without a restriction every text is allowed, and no restriction keeps out an address
/// that has no host.
pub proof fn law_always_allowed(domains: Option<Seq<Seq<char>>>, uri: Seq<char>)
    requires
        domains is None || (address::parsed_url(uri) matches Some(url) && url.host is None),
    ensures
        uri_permitted(domains, uri),
{
}

/// Making a text small changes its ASCII capitals, each to the small letter of the same
/// name, and nothing else.
pub proof fn law_lowercase_by_characters(text: Seq<char>, i: int)
    requires
        0 <= i < text.len(),
    ensures
        ascii_lowercase(text).len() == text.len(),
        'A' <= text[i] <= 'Z' ==> ascii_lowercase(text)[i] as int - text[i] as int == 'a' as int
            - 'A' as int,
        !('A' <= text[i] <= 'Z') ==> ascii_lowercase(text)[i] == text[i],
{
    if 'A' <= text[i] <= 'Z' {
        assert((text[i] as u32 + 32) as char as int == text[i] as int + 32);
    }
}

/// Every domain of a restriction lets in its own name and what goes on in front of it with a
/// dot, wherever in the list it stands; and nothing else with a host is let in.
pub proof fn law_each_domain_lets_in(domains: Seq<Seq<char>>, url: address::UrlView)
    ensures
        url_permitted(domains, url) <==> (url.host is None || exists|i: int|
            0 <= i < domains.len() && (ascii_lowercase(url.host.unwrap()) == #[trigger] domains[i]
                || exists|front: Seq<char>|
                ascii_lowercase(url.host.unwrap()) == #[trigger] (front + "."@) + domains[i])),
{
    if let Some(host) = url.host {
        let name = ascii_lowercase(host);
        if url_permitted(domains, url) {
            let i = choose|i: int| 0 <= i < domains.len() && covers(#[trigger] domains[i], name);
            law_domain_covers_subdomains_only(domains[i], name);
        }
        if exists|i: int|
            0 <= i < domains.len() && (name == #[trigger] domains[i] || exists|front: Seq<char>|
                name == #[trigger] (front + "."@) + domains[i]) {
            let i = choose|i: int|
                0 <= i < domains.len() && (name == #[trigger] domains[i] || exists|
                    front: Seq<char>,
                |
                    name == #[trigger] (front + "."@) + domains[i]);
            law_domain_covers_subdomains_only(domains[i], name);
            assert(covers(domains[i], name));
        }
    }
}

/// A restriction is as wide as its domains together: one more domain, put first, lets in
/// what it covers and leaves the rest as it was.
pub proof fn law_domains_add_up(domain: Seq<char>, domains: Seq<Seq<char>>, url: address::UrlView)
    requires
        url.host is Some,
    ensures
        url_permitted(seq![domain] + domains, url) <==> covers(
            domain,
            ascii_lowercase(url.host.unwrap()),
        ) || url_permitted(domains, url),
{
    let name = ascii_lowercase(url.host.unwrap());
    let more = seq![domain] + domains;
    if url_permitted(more, url) && !covers(domain, name) {
        let i = choose|i: int| 0 <= i < more.len() && covers(#[trigger] more[i], name);
        assert(more[0] == domain);
        assert(more[i] == domains[i - 1]);
    }
    if covers(domain, name) {
        assert(covers(more[0], name));
    }
    if url_permitted(domains, url) {
        let i = choose|i: int| 0 <= i < domains.len() && covers(#[trigger] domains[i], name);
        assert(more[i + 1] == domains[i]);
    }
}

/// The order of the domains does not matter, nor whether one is listed twice.
pub proof fn law_domain_order_ignored(
    left: Seq<Seq<char>>,
    right: Seq<Seq<char>>,
    url: address::UrlView,
)
    requires
        forall|domain: Seq<char>| #[trigger] left.contains(domain) <==> right.contains(domain),
    ensures
        url_permitted(left, url) == url_permitted(right, url),
{
    if let Some(host) = url.host {
        let name = ascii_lowercase(host);
        if url_permitted(left, url) {
            let i = choose|i: int| 0 <= i < left.len() && covers(#[trigger] left[i], name);
            assert(left.contains(left[i]));
            let k = choose|k: int| 0 <= k < right.len() && right[k] == left[i];
            assert(covers(right[k], name));
        }
        if url_permitted(right, url) {
            let i = choose|i: int| 0 <= i < right.len() && covers(#[trigger] right[i], name);
            assert(right.contains(right[i]));
            assert(left.contains(right[i]));
            let k = choose|k: int| 0 <= k < left.len() && left[k] == right[i];
            assert(covers(left[k], name));
        }
    }
}

/// A parsed URL with a host is let in exactly where its host in small letters is one of the
/// strings of the list, or goes on in front of one with a dot.
pub proof fn law_url_kept_inside(allowed: &Vec<String>, url: &UrlParts, permitted: bool)
    requires
        call_ensures(url_allowed, (allowed, url), permitted),
    ensures
        permitted <==> (url.host is None || exists|i: int|
            0 <= i < allowed@.len() && (ascii_lowercase(url.host.unwrap()@)
                == (#[trigger] allowed@[i])@ || exists|front: Seq<char>|
                ascii_lowercase(url.host.unwrap()@) == #[trigger] (front + "."@)
                    + allowed@[i]@)),
{
    let domains = text::texts(allowed@);
    law_each_domain_lets_in(domains, url@);
    assert(forall|i: int| 0 <= i < allowed@.len() ==> domains[i] == (#[trigger] allowed@[i])@);
}

/// An app without a restriction may go anywhere. One with a restriction may go to a URL
/// without a host, or with a host that is one of its domains or below one, wherever in the
/// list that domain stands; it may go nowhere else, and not to what is no URL.
pub proof fn law_app_kept_inside(
    allowed_domains: &Option<Vec<String>>,
    uri: &str,
    permitted: bool,
)
    requires
        call_ensures(uri_allowed, (allowed_domains, uri), permitted),
    ensures
        allowed_domains is None ==> permitted,
        allowed_domains is Some && address::parsed_url(uri@) is None ==> !permitted,
        allowed_domains is Some && address::parsed_url(uri@) is Some ==> ({
            let allowed = allowed_domains.unwrap();
            let url = address::parsed_url(uri@).unwrap();
            permitted <==> (url.host is None || exists|i: int|
                0 <= i < allowed@.len() && (ascii_lowercase(url.host.unwrap())
                    == (#[trigger] allowed@[i])@ || exists|front: Seq<char>|
                    ascii_lowercase(url.host.unwrap()) == #[trigger] (front + "."@)
                        + allowed@[i]@))
        }),
{
    if let Some(allowed) = *allowed_domains {
        if let Some(url) = address::parsed_url(uri@) {
            let domains = text::texts(allowed@);
            law_each_domain_lets_in(domains, url);
            assert(forall|i: int|
                0 <= i < allowed@.len() ==> domains[i] == (#[trigger] allowed@[i])@);
        }
    }
}

} // verus!
