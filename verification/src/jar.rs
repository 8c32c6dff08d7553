//! The adapter between the cookie manager and an HTTP client.
//!
//! For each outgoing request the client asks which cookies to send. The
//! adapter answers in two steps around the one read that the caller performs:
//! `read_request` names the store and the registrable domain to read for, and
//! `cookies` turns the outcome of that read into the header value, or into
//! "no cookies". A failed read never becomes an error of the request.

use crate::browser::BrowserType;
use crate::cookie::{cookie_views, Cookie, CookieView};
use crate::host::OsFamily;
use crate::manager::CookieManager;
use crate::matcher::{cookie_applies, cookie_matches_url};
use crate::request::{RequestUrl, UrlView};
use crate::strategy::{ReadRequest, ReadRequestView};
use crate::text::{contains, join, lemma_join_push, lemma_split_undoes_join, split};
use vstd::prelude::*;
use vstd::string::StringExecFns;

verus! {

/// The text between two cookies in a header value.
pub const PAIR_SEPARATOR: &'static str = "; ";

/// The test "must be attached to a request for `url`", as a predicate on
/// cookies.
pub open spec fn applies_to(url: UrlView) -> spec_fn(CookieView) -> bool {
    |cookie: CookieView| cookie_applies(cookie, url)
}

/// The cookies among `cookies` that must be attached to a request for `url`,
/// in the order in which they were given.
pub open spec fn surviving(cookies: Seq<CookieView>, url: UrlView) -> Seq<CookieView> {
    cookies.filter(applies_to(url))
}

/// The `name=value` texts of `cookies`, in order.
pub open spec fn pairs(cookies: Seq<CookieView>) -> Seq<Seq<char>> {
    Seq::new(cookies.len(), |i: int| cookies[i].pair())
}

/// The header value that carries `cookies`: their pairs joined by `"; "`.
pub open spec fn header_text(cookies: Seq<CookieView>) -> Seq<char> {
    join(pairs(cookies), PAIR_SEPARATOR@)
}

/// The header value for a request to `url`, given the records read for it:
/// none where no record survives, else the survivors' header text.
pub open spec fn header_for(cookies: Seq<CookieView>, url: UrlView) -> Option<Seq<char>> {
    if surviving(cookies, url).len() == 0 {
        None
    } else {
        Some(header_text(surviving(cookies, url)))
    }
}

/// The registrable domain made of a second-level name and a public suffix:
/// the two joined by a dot. Where either is missing there is none.
pub open spec fn registrable(domain: Option<Seq<char>>, suffix: Option<Seq<char>>) -> Option<
    Seq<char>,
> {
    match (domain, suffix) {
        (Some(d), Some(s)) => Some(d + "."@ + s),
        _ => None,
    }
}

/// The key that the parts of a split host give: none where the split
/// failed, else the registrable domain of the domain and the suffix found.
pub open spec fn key_of_parts(parts: Option<(Option<String>, Option<String>)>) -> Option<
    Seq<char>,
> {
    match parts {
        Some((domain, suffix)) => registrable(text_of(domain), text_of(suffix)),
        None => None,
    }
}

/// The request that belongs to a key: none without a key and none where the
/// bound browser's store is not read on machines of `family`; else a read of
/// that store for the key alone.
pub open spec fn request_of_key(browser: BrowserType, key: Option<Seq<char>>, family: OsFamily)
    -> Option<ReadRequestView> {
    match key {
        Some(domain) => if browser.readable_in(family) {
            Some(ReadRequestView { browser, domains: seq![domain] })
        } else {
            None
        },
        None => None,
    }
}

/// The text of an optional string.
pub open spec fn text_of(value: Option<String>) -> Option<Seq<char>> {
    match value {
        Some(s) => Some(s@),
        None => None,
    }
}

/// Splits the host of `url` into its parts with the `tldextract` crate: it
/// builds an extractor from `TldOption::default()` and calls
/// `TldExtractor::extract` on `url`, handing back the domain and the suffix of
/// the result, or `None` where `extract` fails. The extractor takes its
/// suffix list from a file `.tld_cache` in the working directory where one
/// can be read and from the list built into the crate otherwise, so nothing
/// is claimed about the parts.
#[verifier::external_body]
fn extract_domain_parts(url: &str) -> (parts: Option<(Option<String>, Option<String>)>) {
    let extractor = tldextract::TldOption::default().build();
    match extractor.extract(url) {
        Ok(found) => Some((found.domain, found.suffix)),
        Err(_) => None,
    }
}

/// Joins a second-level name and a public suffix into a registrable domain.
pub fn registrable_domain(domain: Option<String>, suffix: Option<String>) -> (key: Option<String>)
    ensures
        text_of(key) == registrable(text_of(domain), text_of(suffix)),
{
    match (domain, suffix) {
        (Some(d), Some(s)) => {
            let mut key = d;
            key.append(".");
            key.append(s.as_str());
            Some(key)
        },
        _ => None,
    }
}

/// The key for the parts into which a host was split: none where the split
/// failed or gave no domain or no suffix, else the registrable domain.
pub fn key_from_parts(parts: Option<(Option<String>, Option<String>)>) -> (key: Option<String>)
    ensures
        text_of(key) == key_of_parts(parts),
{
    match parts {
        Some((domain, suffix)) => registrable_domain(domain, suffix),
        None => None,
    }
}

/// The copies of the cookies among `cookies` that must be attached to a
/// request for `url`, in the order given.
pub fn matching_cookies(cookies: &Vec<Cookie>, url: &RequestUrl) -> (kept: Vec<Cookie>)
    ensures
        cookie_views(kept@) == surviving(cookie_views(cookies@), url@),
{
    let ghost all = cookie_views(cookies@);
    let mut kept: Vec<Cookie> = Vec::new();
    let mut i: usize = 0;
    while i < cookies.len()
        invariant
            i <= cookies.len(),
            all == cookie_views(cookies@),
            cookie_views(kept@) == all.take(i as int).filter(applies_to(url@)),
        decreases cookies.len() - i,
    {
        proof {
            let upto = all.take(i + 1);
            assert(upto.drop_last() =~= all.take(i as int));
            reveal(Seq::filter);
        }
        if cookie_matches_url(&cookies[i], url) {
            kept.push(cookies[i].clone());
        }
        i += 1;
    }
    assert(all.take(i as int) =~= all);
    kept
}

/// The header value that carries `cookies`: `name=value` for each, joined by
/// `"; "`. Without cookies the text is empty.
pub fn cookie_header(cookies: &Vec<Cookie>) -> (header: String)
    ensures
        header@ == header_text(cookie_views(cookies@)),
{
    let ghost all = pairs(cookie_views(cookies@));
    let mut header = String::new();
    let mut i: usize = 0;
    while i < cookies.len()
        invariant
            i <= cookies.len(),
            all == pairs(cookie_views(cookies@)),
            all.len() == cookies.len(),
            header@ == join(all.take(i as int), PAIR_SEPARATOR@),
        decreases cookies.len() - i,
    {
        proof {
            lemma_join_push(all.take(i as int), PAIR_SEPARATOR@, all[i as int]);
            assert(all.take(i as int).push(all[i as int]) =~= all.take(i + 1));
        }
        if i > 0 {
            header.append(PAIR_SEPARATOR);
        }
        header.append(cookies[i].pair().as_str());
        i += 1;
    }
    assert(all.take(i as int) =~= all);
    header
}

/// The header value for a request to `url`, given the records read for it.
pub fn header_from_records(cookies: &Vec<Cookie>, url: &RequestUrl) -> (header: Option<String>)
    ensures
        text_of(header) == header_for(cookie_views(cookies@), url@),
{
    let kept = matching_cookies(cookies, url);
    if kept.len() == 0 {
        None
    } else {
        Some(cookie_header(&kept))
    }
}

/// Serves an HTTP client with the cookies of one cookie manager.
#[derive(Debug, PartialEq, Eq)]
pub struct CookieJarWrapper {
    manager: CookieManager,
}

impl CookieJarWrapper {
    /// The manager whose source the adapter reads.
    pub closed spec fn bound(&self) -> CookieManager {
        self.manager
    }

    /// An adapter over `manager`.
    pub fn new(manager: CookieManager) -> (jar: CookieJarWrapper)
        ensures
            jar.bound() == manager,
    {
        CookieJarWrapper { manager }
    }

    /// The manager whose source the adapter reads.
    pub fn manager(&self) -> (manager: &CookieManager)
        ensures
            *manager == self.bound(),
    {
        &self.manager
    }

    /// The registrable domain of the host of `url`, as the suffix list splits
    /// it; `None` where the URL cannot be split or lacks a second-level name
    /// or a public suffix. Whatever the list says, a key is a name and a
    /// suffix joined by a dot.
    pub fn domain_key(&self, url: &RequestUrl) -> (key: Option<String>)
        ensures
            key matches Some(k) ==> exists|domain: Seq<char>, suffix: Seq<char>|
                k@ == domain + "."@ + suffix,
    {
        key_from_parts(extract_domain_parts(url.href.as_str()))
    }

    /// The request that belongs to `key` on a machine of `family`. Without
    /// a key there is nothing to read, and the bound source refuses a read
    /// that its browser does not allow on that family; either way there is
    /// no cookie to send.
    pub fn request_for_key(&self, key: Option<String>, family: OsFamily) -> (request: Option<
        ReadRequest,
    >)
        ensures
            match request_of_key(self.bound()@, text_of(key), family) {
                Some(wanted) => request matches Some(r) && r@ == wanted,
                None => request is None,
            },
    {
        match key {
            Some(domain) => match self.manager.read_request(domain, family) {
                Ok(request) => Some(request),
                Err(_) => None,
            },
            None => None,
        }
    }

    /// What is to be read before `cookies` can answer for `url` on a machine
    /// of `family`: the bound browser's store, for the registrable domain of
    /// the URL alone. `None` means that there is no such domain, or that the
    /// store is not read on that family, and hence that there is no cookie
    /// to send.
    pub fn read_request(&self, url: &RequestUrl, family: OsFamily) -> (request: Option<
        ReadRequest,
    >)
        ensures
            !self.bound()@.readable_in(family) ==> request is None,
            request matches Some(r) ==> r@.browser == self.bound()@ && exists|
                domain: Seq<char>,
                suffix: Seq<char>,
            | r@.domains == seq![domain + "."@ + suffix],
    {
        self.request_for_key(self.domain_key(url), family)
    }

    /// Takes the `Set-Cookie` values of a response and drops them: the
    /// adapter only reads, and no browser store is ever written to.
    pub fn set_cookies(&self, cookie_headers: &Vec<String>, url: &RequestUrl) {
    }

    /// The header value to send with a request for `url`, given the outcome
    /// of the read that `read_request` asked for. A failed read gives no
    /// cookies, and so does a read of which no record survives the matcher;
    /// otherwise the survivors are written as `name=value` pairs in the
    /// order in which they were read.
    pub fn cookies(&self, url: &RequestUrl, outcome: Result<Vec<Cookie>, String>) -> (header:
        Option<String>)
        ensures
            match outcome {
                Ok(records) => text_of(header) == header_for(cookie_views(records@), url@),
                Err(_) => header is None,
            },
    {
        match self.manager.fetch_cookies_for_domain(outcome) {
            Ok(records) => header_from_records(&records, url),
            Err(_) => None,
        }
    }
}

/// Cutting a header value at `"; "` gives back the `name=value` pairs of the
/// cookies it was made from, in their order, provided that there is at least
/// one cookie and that no pair holds `"; "` itself.
pub proof fn lemma_header_splits_into_pairs(cookies: Seq<CookieView>)
    requires
        cookies.len() > 0,
        forall|i: int| 0 <= i < cookies.len() ==> !contains(cookies[i].pair(), PAIR_SEPARATOR@),
    ensures
        split(header_text(cookies), PAIR_SEPARATOR@) == pairs(cookies),
        split(header_text(cookies), PAIR_SEPARATOR@).len() == cookies.len(),
{
    reveal_strlit("; ");
    lemma_split_undoes_join(pairs(cookies), PAIR_SEPARATOR@);
}

/// Each cookie that survives the matcher is one that was read and applies
/// to the URL, and no more cookies survive than were read.
pub proof fn lemma_survivors_apply(cookies: Seq<CookieView>, url: UrlView, i: int)
    requires
        0 <= i < surviving(cookies, url).len(),
    ensures
        cookies.contains(surviving(cookies, url)[i]),
        cookie_applies(surviving(cookies, url)[i], url),
        surviving(cookies, url).len() <= cookies.len(),
{
    let kept = surviving(cookies, url);
    cookies.lemma_filter_pred(applies_to(url), i);
    cookies.lemma_filter_len(applies_to(url));
    cookies.lemma_filter_contains_rev(applies_to(url), kept[i]);
}

} // verus!
