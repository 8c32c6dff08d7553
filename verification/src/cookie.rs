//! The cookie record that a browser source hands to the matcher.

use vstd::prelude::*;
use vstd::string::StringExecFns;

verus! {

/// The text that stands for a cookie's value in diagnostic output.
pub const REDACTED: &'static str = "[REDACTED]";

/// The same-site policy stored with a cookie.
#[derive(Debug, Clone, Copy, PartialEq, Eq, Structural)]
pub enum SameSite {
    NoRestriction,
    Lax,
    Strict,
}

impl SameSite {
    /// The policy that a stored integer code stands for: 1 is `Lax`, 2 is
    /// `Strict`, and every other code places no restriction.
    pub open spec fn of_code(code: int) -> SameSite {
        if code == 1 {
            SameSite::Lax
        } else if code == 2 {
            SameSite::Strict
        } else {
            SameSite::NoRestriction
        }
    }

    /// The policy that a stored integer code stands for.
    pub fn from_code(code: i64) -> (policy: SameSite)
        ensures
            policy == Self::of_code(code as int),
    {
        if code == 1 {
            SameSite::Lax
        } else if code == 2 {
            SameSite::Strict
        } else {
            SameSite::NoRestriction
        }
    }
}

/// One cookie as read from a browser's store. A record is plain data: it is
/// never changed after it was read.
#[derive(Debug, PartialEq, Eq)]
pub struct Cookie {
    pub domain: String,
    pub path: String,
    pub name: String,
    pub value: String,
    pub http_only: bool,
    pub secure: bool,
    pub same_site: SameSite,
    /// Seconds since the epoch, where the cookie expires at all.
    pub expires: Option<u64>,
}

/// A `Cookie` with its texts as character sequences.
#[verifier::ext_equal]
pub struct CookieView {
    pub domain: Seq<char>,
    pub path: Seq<char>,
    pub name: Seq<char>,
    pub value: Seq<char>,
    pub http_only: bool,
    pub secure: bool,
    pub same_site: SameSite,
    pub expires: Option<u64>,
}

impl CookieView {
    /// The cookie as it is written into a request header: `name=value`.
    pub open spec fn pair(self) -> Seq<char> {
        self.name + "="@ + self.value
    }

    /// The cookie as it may be written into diagnostic output: the name is
    /// kept and the value is replaced by a fixed marker.
    pub open spec fn redacted(self) -> Seq<char> {
        self.name + "="@ + REDACTED@
    }
}

impl View for Cookie {
    type V = CookieView;

    open spec fn view(&self) -> CookieView {
        CookieView {
            domain: self.domain@,
            path: self.path@,
            name: self.name@,
            value: self.value@,
            http_only: self.http_only,
            secure: self.secure,
            same_site: self.same_site,
            expires: self.expires,
        }
    }
}

impl Clone for Cookie {
    fn clone(&self) -> (copy: Cookie)
        ensures
            copy == *self,
    {
        Cookie {
            domain: self.domain.clone(),
            path: self.path.clone(),
            name: self.name.clone(),
            value: self.value.clone(),
            http_only: self.http_only,
            secure: self.secure,
            same_site: self.same_site,
            expires: self.expires,
        }
    }
}

impl Cookie {
    /// The cookie as it is written into a request header: `name=value`.
    pub fn pair(&self) -> (text: String)
        ensures
            text@ == self@.pair(),
    {
        let mut text = self.name.clone();
        text.append("=");
        text.append(self.value.as_str());
        text
    }

    /// The cookie as it may be shown in diagnostic output.
    pub fn redacted(&self) -> (shown: RedactedCookie)
        ensures
            shown@ == self@.name,
    {
        RedactedCookie { name: self.name.clone() }
    }
}

/// What may be shown of a cookie in diagnostic output. It is made from a
/// cookie and holds the cookie's name and nothing else, so that no text made
/// from it can give the value away.
#[derive(Debug, PartialEq, Eq)]
pub struct RedactedCookie {
    name: String,
}

impl View for RedactedCookie {
    type V = Seq<char>;

    /// The name of the cookie.
    closed spec fn view(&self) -> Seq<char> {
        self.name@
    }
}

impl RedactedCookie {
    /// The text for diagnostic output: the name, and a fixed marker in the
    /// place of the value.
    pub fn to_string(&self) -> (text: String)
        ensures
            text@ == self@ + "="@ + REDACTED@,
    {
        let mut text = self.name.clone();
        text.append("=");
        text.append(REDACTED);
        text
    }
}

/// The views of a sequence of cookies.
pub open spec fn cookie_views(cookies: Seq<Cookie>) -> Seq<CookieView> {
    Seq::new(cookies.len(), |i: int| cookies[i]@)
}

/// Two cookies of the same name are shown as the same text in diagnostic
/// output, whatever their values are.
pub proof fn lemma_redaction_hides_value(a: CookieView, b: CookieView)
    requires
        a.name == b.name,
    ensures
        a.redacted() == b.redacted(),
{
}

} // verus!
