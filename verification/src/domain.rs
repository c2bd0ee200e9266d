//! Which URLs may be opened in an in-app webview, and what their windows are titled.

use vstd::prelude::*;
use crate::text::{str_eq, str_ends_with, seq_ends_with};
use crate::weburl::{ParsedUrl, UrlParts, parse_url, url_parse_outcome};

verus! {

/// The domains whose hosts (and subdomains) may be opened in-app.
pub open spec fn allowed_domains() -> Seq<Seq<char>> {
    seq!["localhost"@, "easyops.local"@, "elevo.vip"@]
}

/// `host` is the domain `d` or one of its subdomains.
pub open spec fn host_in_domain(host: Seq<char>, d: Seq<char>) -> bool {
    host == d || seq_ends_with(host, seq!['.'] + d)
}

/// `host` belongs to one of the allowed domains.
pub open spec fn host_allowed(host: Seq<char>) -> bool {
    exists|i: int| 0 <= i < allowed_domains().len() && host_in_domain(host, #[trigger] allowed_domains()[i])
}

/// The URL parses, has a host, and that host belongs to an allowed domain.
pub open spec fn domain_allowed(url: Seq<char>) -> bool {
    match url_parse_outcome(url) {
        Ok(p) => match p.host {
            Some(h) => host_allowed(h),
            None => false,
        },
        Err(_) => false,
    }
}

fn host_in_domain_exec(host: &str, d: &str) -> (res: bool)
    ensures
        res == host_in_domain(host@, d@),
{
    if str_eq(host, d) {
        return true;
    }
    let mut dotted = String::from_str(".");
    dotted.append(d);
    proof {
        reveal_strlit(".");
        assert(dotted@ =~= seq!['.'] + d@);
    }
    str_ends_with(host, dotted.as_str())
}

/// Whether `host` belongs to one of the allowed domains.
pub fn is_host_allowed(host: &str) -> (res: bool)
    ensures
        res == host_allowed(host@),
{
    let a = host_in_domain_exec(host, "localhost");
    let b = host_in_domain_exec(host, "easyops.local");
    let c = host_in_domain_exec(host, "elevo.vip");
    proof {
        assert(allowed_domains()[0] == "localhost"@);
        assert(allowed_domains()[1] == "easyops.local"@);
        assert(allowed_domains()[2] == "elevo.vip"@);
    }
    a || b || c
}

/// Whether `url` may be opened in an in-app webview: it must parse and its
/// host must be one of the allowed domains or a subdomain of one.
pub fn is_domain_allowed(url: &str) -> (res: bool)
    ensures
        res == domain_allowed(url@),
{
    match parse_url(url) {
        Ok(parsed) => match &parsed.host {
            Some(h) => is_host_allowed(h.as_str()),
            None => false,
        },
        Err(_) => false,
    }
}

/// The title for a window showing `u`: the bare host for an `https` URL on the
/// default port (or `fallback` if it has no host), otherwise the full origin.
pub open spec fn url_title(u: UrlParts, fallback: Seq<char>) -> Seq<char> {
    if u.scheme == "https"@ && u.port is None {
        match u.host {
            Some(h) => h,
            None => fallback,
        }
    } else {
        u.origin
    }
}

/// Derives a window title from a URL: only the host for standard HTTPS,
/// otherwise the full origin (scheme://host:port).
pub fn title_from_url(url: &ParsedUrl, fallback: &str) -> (title: String)
    ensures
        title@ == url_title(url@, fallback@),
{
    if str_eq(url.scheme.as_str(), "https") && url.port.is_none() {
        match &url.host {
            Some(h) => h.clone(),
            None => String::from_str(fallback),
        }
    } else {
        url.origin.clone()
    }
}

/// The title for a page that has navigated to `href`, as the page-load
/// handlers set it. A loaded page's address always parses; should it not,
/// the title is `fallback`.
pub fn page_title(href: &str, fallback: &str) -> (title: String)
    ensures
        match url_parse_outcome(href@) {
            Ok(u) => title@ == url_title(u, fallback@),
            Err(_) => title@ == fallback@,
        },
{
    match parse_url(href) {
        Ok(u) => title_from_url(&u, fallback),
        Err(_) => String::from_str(fallback),
    }
}

/// Law: each allowed domain, and every subdomain of one, is allowed.
pub proof fn law_subdomains_allowed(prefix: Seq<char>, i: int)
    requires
        0 <= i < allowed_domains().len(),
    ensures
        host_allowed(allowed_domains()[i]),
        host_allowed(prefix + seq!['.'] + allowed_domains()[i]),
{
    let d = allowed_domains()[i];
    let h = prefix + seq!['.'] + d;
    let suffix = seq!['.'] + d;
    assert(h.subrange(h.len() - suffix.len(), h.len() as int) =~= suffix);
    assert(host_in_domain(h, d));
    assert(host_in_domain(d, d));
}

/// Law: a window for a URL that is not `https`, or that names a port, is
/// titled with the URL's full origin; a standard `https` URL is titled with
/// its bare host, or the fallback when it has none.
pub proof fn law_title_origin_unless_standard_https(u: UrlParts, fallback: Seq<char>)
    ensures
        u.scheme != "https"@ ==> url_title(u, fallback) == u.origin,
        u.port is Some ==> url_title(u, fallback) == u.origin,
        u.scheme == "https"@ && u.port is None ==> url_title(u, fallback) == match u.host {
            Some(h) => h,
            None => fallback,
        },
{
}

} // verus!
