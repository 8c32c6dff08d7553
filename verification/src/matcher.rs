//! The decision whether a stored cookie belongs on a request.
//!
//! A cookie is attached when the request path begins with the cookie's path
//! and the request host agrees with the cookie's domain. Hosts and domains
//! are compared character by character; paths are compared as plain text,
//! with no regard to segment boundaries.

use crate::cookie::{Cookie, CookieView};
use crate::request::{RequestUrl, UrlView};
use crate::text::{
    chars_of, ends_with, find, has_prefix, has_suffix, is_first_occurrence, occurs_at, same_chars,
    starts_with, tail_from,
};
use vstd::prelude::*;

verus! {

/// A cookie domain without its leading dot, if it has one. At most one dot
/// is taken off.
pub open spec fn bare_domain(domain: Seq<char>) -> Seq<char> {
    if domain.len() > 0 && domain[0] == '.' {
        domain.subrange(1, domain.len() as int)
    } else {
        domain
    }
}

/// The request path begins with the cookie path.
pub open spec fn path_rule(cookie_path: Seq<char>, url_path: Seq<char>) -> bool {
    starts_with(url_path, cookie_path)
}

/// The leftmost occurrence of `bare` in `host` is not at the start of `host`
/// and the character just before it is a dot.
pub open spec fn dot_before_first(host: Seq<char>, bare: Seq<char>) -> bool {
    exists|at: int| is_first_occurrence(host, bare, at) && at > 0 && host[at - 1] == '.'
}

/// The host agrees with the cookie domain: either the two are the same text,
/// or the host ends with the bare domain and the leftmost occurrence of the
/// bare domain in the host follows a dot.
pub open spec fn domain_rule(cookie_domain: Seq<char>, host: Seq<char>) -> bool {
    ||| cookie_domain == host
    ||| (ends_with(host, bare_domain(cookie_domain)) && dot_before_first(
        host,
        bare_domain(cookie_domain),
    ))
}

/// The cookie must be attached to a request for `url`. A URL without a host
/// takes no cookie.
pub open spec fn cookie_applies(cookie: CookieView, url: UrlView) -> bool {
    match url.host {
        Some(host) => path_rule(cookie.path, url.path) && domain_rule(cookie.domain, host),
        None => false,
    }
}

/// A text has at most one leftmost occurrence of another.
pub proof fn lemma_first_occurrence_is_unique(
    hay: Seq<char>,
    needle: Seq<char>,
    a: int,
    b: int,
)
    requires
        is_first_occurrence(hay, needle, a),
        is_first_occurrence(hay, needle, b),
    ensures
        a == b,
{
}

/// Decides whether `cookie` must be attached to a request for `url`.
pub fn cookie_matches_url(cookie: &Cookie, url: &RequestUrl) -> (attach: bool)
    ensures
        attach == cookie_applies(cookie@, url@),
{
    let host = match &url.host {
        Some(host) => chars_of(host.as_str()),
        None => {
            return false;
        },
    };
    let domain = chars_of(cookie.domain.as_str());
    let bare = if domain.len() > 0 && domain[0] == '.' {
        tail_from(&domain, 1)
    } else {
        tail_from(&domain, 0)
    };
    assert(bare@ =~= bare_domain(cookie@.domain));
    let dot_before = match find(&host, &bare) {
        Some(at) => {
            let dotted = at > 0 && host[at - 1] == '.';
            proof {
                if dot_before_first(host@, bare@) {
                    let other = choose|other: int|
                        is_first_occurrence(host@, bare@, other) && other > 0 && host@[other - 1]
                            == '.';
                    lemma_first_occurrence_is_unique(host@, bare@, at as int, other);
                }
            }
            dotted
        },
        None => false,
    };
    let path_matches = has_prefix(&chars_of(url.path.as_str()), &chars_of(cookie.path.as_str()));
    let same_domain = same_chars(&domain, &host);
    let host_ends_with_domain = has_suffix(&host, &bare);
    path_matches && (same_domain || (host_ends_with_domain && dot_before))
}

/// A cookie whose domain is the request host, text for text, is attached
/// whenever the path rule holds. This is so whether or not the shared text
/// begins with a dot.
pub proof fn lemma_same_domain_attaches(cookie: CookieView, url: UrlView)
    requires
        url.host == Some(cookie.domain),
        path_rule(cookie.path, url.path),
    ensures
        cookie_applies(cookie, url),
{
}

/// With the domain equal to the host, the path rule alone decides.
pub proof fn lemma_same_domain_leaves_path_rule(cookie: CookieView, url: UrlView)
    requires
        url.host == Some(cookie.domain),
    ensures
        cookie_applies(cookie, url) == path_rule(cookie.path, url.path),
{
}

/// No cookie is attached unless the request path begins with its path, and
/// none is attached to a URL without a host.
pub proof fn lemma_attached_cookie_obeys_rules(cookie: CookieView, url: UrlView)
    requires
        cookie_applies(cookie, url),
    ensures
        url.host is Some,
        path_rule(cookie.path, url.path),
        domain_rule(cookie.domain, url.host->0),
{
}

/// A bare domain that occurs in the host only as its ending, right after a
/// dot, makes the domain rule hold, with or without a leading dot on the
/// cookie's domain.
pub proof fn lemma_subdomain_attaches(cookie_domain: Seq<char>, host: Seq<char>)
    requires
        is_first_occurrence(
            host,
            bare_domain(cookie_domain),
            host.len() - bare_domain(cookie_domain).len(),
        ),
        host.len() > bare_domain(cookie_domain).len(),
        host[host.len() - bare_domain(cookie_domain).len() - 1] == '.',
    ensures
        domain_rule(cookie_domain, host),
{
}

} // verus!
