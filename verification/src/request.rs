//! The parts of an outgoing request's URL that cookie selection reads.

use vstd::prelude::*;
use vstd::string::StringExecFns;

verus! {

/// A parsed request URL.
#[derive(Debug, PartialEq, Eq)]
pub struct RequestUrl {
    /// The whole URL as text.
    pub href: String,
    /// The host where it is a domain name; `None` where the URL has no host
    /// or the host is not a domain.
    pub host: Option<String>,
    /// The path, which may be empty.
    pub path: String,
}

/// A `RequestUrl` with its texts as character sequences.
#[verifier::ext_equal]
pub struct UrlView {
    pub href: Seq<char>,
    pub host: Option<Seq<char>>,
    pub path: Seq<char>,
}

impl View for RequestUrl {
    type V = UrlView;

    open spec fn view(&self) -> UrlView {
        UrlView {
            href: self.href@,
            host: match self.host {
                Some(host) => Some(host@),
                None => None,
            },
            path: self.path@,
        }
    }
}

impl RequestUrl {
    /// A request URL from its text and the parts parsed out of it.
    pub fn new(href: &str, host: Option<&str>, path: &str) -> (url: RequestUrl)
        ensures
            url@ == (UrlView {
                href: href@,
                host: match host {
                    Some(h) => Some(h@),
                    None => None,
                },
                path: path@,
            }),
    {
        RequestUrl {
            href: String::from_str(href),
            host: match host {
                Some(h) => Some(String::from_str(h)),
                None => None,
            },
            path: String::from_str(path),
        }
    }
}

} // verus!
