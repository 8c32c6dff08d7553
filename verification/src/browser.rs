//! The supported browsers and their canonical priority.

use crate::error::{BrowserError, ErrorView};
use crate::text::{chars_of, lower_char, lowercase, same_chars, to_lowercase};
use vstd::prelude::*;
use vstd::string::{StrSliceExecFns, StringExecFns};

verus! {

/// The detail carried by the error for an empty browser name.
pub const EMPTY_SELECTION: &'static str = "browser name is empty";

/// A browser whose cookie store can be consulted.
#[derive(Debug, Clone, Copy, PartialEq, Eq, Structural)]
pub enum BrowserType {
    Chrome,
    Firefox,
    Safari,
    Edge,
}

impl BrowserType {
    /// The canonical priority order: earlier browsers are preferred.
    pub open spec fn priority() -> Seq<BrowserType> {
        seq![BrowserType::Chrome, BrowserType::Firefox, BrowserType::Safari, BrowserType::Edge]
    }

    /// The position of this browser in the priority order.
    pub open spec fn rank(self) -> int {
        match self {
            BrowserType::Chrome => 0,
            BrowserType::Firefox => 1,
            BrowserType::Safari => 2,
            BrowserType::Edge => 3,
        }
    }

    /// The lower-case name of this browser.
    pub open spec fn name(self) -> Seq<char> {
        match self {
            BrowserType::Chrome => "chrome"@,
            BrowserType::Firefox => "firefox"@,
            BrowserType::Safari => "safari"@,
            BrowserType::Edge => "edge"@,
        }
    }

    /// The browser that a name token stands for: the token is compared with
    /// the four names after its capitals have been put in lower case.
    pub open spec fn parse(token: Seq<char>) -> Option<BrowserType> {
        let folded = lowercase(token);
        if folded == "chrome"@ {
            Some(BrowserType::Chrome)
        } else if folded == "firefox"@ {
            Some(BrowserType::Firefox)
        } else if folded == "safari"@ {
            Some(BrowserType::Safari)
        } else if folded == "edge"@ {
            Some(BrowserType::Edge)
        } else {
            None
        }
    }

    /// What an optional name token selects: no token leaves the choice
    /// open, an empty token is a malformed selection, and any other token is
    /// read as a browser name.
    pub open spec fn selection(token: Option<Seq<char>>) -> Result<Option<BrowserType>, ErrorView> {
        match token {
            None => Ok(None),
            Some(name) => if name.len() == 0 {
                Err(ErrorView::InvalidConfiguration(EMPTY_SELECTION@))
            } else {
                match Self::parse(name) {
                    Some(browser) => Ok(Some(browser)),
                    None => Err(ErrorView::UnsupportedBrowser(name)),
                }
            },
        }
    }

    /// Every supported browser, in priority order.
    pub fn all() -> (browsers: Vec<BrowserType>)
        ensures
            browsers@ == Self::priority(),
    {
        let mut browsers: Vec<BrowserType> = Vec::new();
        browsers.push(BrowserType::Chrome);
        browsers.push(BrowserType::Firefox);
        browsers.push(BrowserType::Safari);
        browsers.push(BrowserType::Edge);
        browsers
    }

    /// The lower-case name of this browser.
    pub fn as_str(&self) -> (name: &'static str)
        ensures
            name@ == self.name(),
    {
        match self {
            BrowserType::Chrome => "chrome",
            BrowserType::Firefox => "firefox",
            BrowserType::Safari => "safari",
            BrowserType::Edge => "edge",
        }
    }

    /// The name of this browser as an owned string.
    pub fn to_string(&self) -> (name: String)
        ensures
            name@ == self.name(),
    {
        String::from_str(self.as_str())
    }

    /// Reads a browser name, ignoring the case of its letters. Any other
    /// token is refused as `UnsupportedBrowser`, which carries the token as
    /// it was given.
    pub fn from_str(s: &str) -> (parsed: Result<BrowserType, BrowserError>)
        ensures
            match Self::parse(s@) {
                Some(browser) => parsed == Ok::<BrowserType, BrowserError>(browser),
                None => parsed matches Err(e) && e@ == ErrorView::UnsupportedBrowser(s@),
            },
    {
        let folded = to_lowercase(&chars_of(s));
        if same_chars(&folded, &chars_of("chrome")) {
            Ok(BrowserType::Chrome)
        } else if same_chars(&folded, &chars_of("firefox")) {
            Ok(BrowserType::Firefox)
        } else if same_chars(&folded, &chars_of("safari")) {
            Ok(BrowserType::Safari)
        } else if same_chars(&folded, &chars_of("edge")) {
            Ok(BrowserType::Edge)
        } else {
            Err(BrowserError::UnsupportedBrowser(String::from_str(s)))
        }
    }
}

/// Reads the optional browser-name token of the selection input. Without a
/// token the choice is left open; an empty token is refused as
/// `InvalidConfiguration` and a token that names no browser as
/// `UnsupportedBrowser`.
pub fn parse_selection(token: Option<&str>) -> (selected: Result<Option<BrowserType>, BrowserError>)
    ensures
        match BrowserType::selection(
            match token {
                Some(name) => Some(name@),
                None => None,
            },
        ) {
            Ok(choice) => selected == Ok::<Option<BrowserType>, BrowserError>(choice),
            Err(error) => selected matches Err(e) && e@ == error,
        },
{
    match token {
        None => Ok(None),
        Some(name) => {
            if name.unicode_len() == 0 {
                return Err(BrowserError::InvalidConfiguration(String::from_str(EMPTY_SELECTION)));
            }
            match BrowserType::from_str(name) {
                Ok(browser) => Ok(Some(browser)),
                Err(e) => Err(e),
            }
        },
    }
}

impl std::str::FromStr for BrowserType {
    type Err = BrowserError;

    /// Reads a browser name as `BrowserType::from_str` does, so that a token
    /// can be read with `str::parse`.
    fn from_str(s: &str) -> (parsed: Result<BrowserType, BrowserError>)
        ensures
            match BrowserType::parse(s@) {
                Some(browser) => parsed == Ok::<BrowserType, BrowserError>(browser),
                None => parsed matches Err(e) && e@ == ErrorView::UnsupportedBrowser(s@),
            },
    {
        BrowserType::from_str(s)
    }
}

/// The priority order lists every browser exactly once, at its rank.
pub proof fn lemma_priority_is_total(a: BrowserType, b: BrowserType)
    ensures
        BrowserType::priority().len() == 4,
        0 <= a.rank() < 4,
        BrowserType::priority()[a.rank()] == a,
        a.rank() == b.rank() <==> a == b,
        a.rank() < b.rank() || b.rank() < a.rank() || a == b,
{
}

/// The four names are in lower case already and differ from one another, so
/// a browser's own name is read back as that browser.
pub proof fn lemma_parse_reads_names(browser: BrowserType)
    ensures
        BrowserType::parse(browser.name()) == Some(browser),
{
    reveal_strlit("chrome");
    reveal_strlit("firefox");
    reveal_strlit("safari");
    reveal_strlit("edge");
    let name = browser.name();
    assert(lowercase(name) =~= name);
    assert("chrome"@[0] == 'c' && "safari"@[0] == 's');
}

/// Reading a name does not depend on the case of its letters.
pub proof fn lemma_parse_ignores_case(token: Seq<char>)
    ensures
        BrowserType::parse(lowercase(token)) == BrowserType::parse(token),
{
    let once = lowercase(token);
    assert(lowercase(once) =~= once);
}

} // verus!
