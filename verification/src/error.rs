//! The failures of browser selection and cookie retrieval, and the texts
//! that explain them.
//!
//! Each error has a one-line display text, a brief text for diagnostic
//! output, a longer explanation with next steps, and a list of suggestions.
//! The explanation and the suggestions name the browsers that are available
//! on the host, which is why they take the host report.

use crate::browser::BrowserType;
use crate::host::{texts, HostFacts};
use crate::manager::{detected, CookieManager};
use crate::text::{
    chars_of, contains, has_substring, join, lemma_join_push, lowercase, same_text, to_lowercase,
};
use vstd::prelude::*;
use vstd::string::StringExecFns;

verus! {

/// The text between two browser names in a list.
pub const NAME_SEPARATOR: &'static str = ", ";

/// How to get Chrome.
pub const TIPS_CHROME: &'static str =
    "• Download from https://www.google.com/chrome/\n   • Make sure to run Chrome at least once after installation";

/// How to get Firefox.
pub const TIPS_FIREFOX: &'static str =
    "• Download from https://www.mozilla.org/firefox/\n   • Make sure to run Firefox at least once after installation";

/// How to get Safari.
pub const TIPS_SAFARI: &'static str =
    "• Safari is pre-installed on macOS\n   • Make sure to run Safari at least once\n   • Note: Safari is only available on macOS";

/// How to get Edge.
pub const TIPS_EDGE: &'static str =
    "• Download from https://www.microsoft.com/edge/\n   • Make sure to run Edge at least once after installation";

/// The hint for a browser of any other name.
pub const TIPS_OTHER: &'static str =
    "• Make sure the browser is installed and has been run at least once";

/// What to do about a locked cookie database.
pub const ADVICE_LOCKED: &'static str =
    "• Close all browser windows and try again\n   • The browser's cookie database might be locked";

/// What to do about a cookie store that may not be read.
pub const ADVICE_PERMISSION: &'static str =
    "• Check file permissions for browser data directory\n   • Try running with appropriate permissions";

/// What to do about a cookie store that is not there.
pub const ADVICE_MISSING: &'static str =
    "• Make sure the browser has been run at least once\n   • Browser profile might not exist yet";

/// What to do about any other failure of the reader.
pub const ADVICE_GENERAL: &'static str =
    "• Try closing the browser and running the command again\n   • Check if the browser profile exists";

/// Where to get each browser: the end of the explanation of a host without
/// browsers.
pub const NO_BROWSERS_HELP: &'static str =
    "\n\n🔧 Installation help:\n• Chrome: https://www.google.com/chrome/\n• Firefox: https://www.mozilla.org/firefox/\n• Safari: Pre-installed on macOS\n• Edge: https://www.microsoft.com/edge/\n\n💡 Tip: After installing a browser, run it at least once to create cookie storage.";

/// How to name a browser: the end of the explanation of a malformed
/// selection.
pub const CONFIGURATION_TIPS: &'static str =
    "\n\n💡 Tips:\n• Use --browser <name> to specify a browser\n• Browser names are case-insensitive\n• Example: --browser chrome";

/// What can go wrong while a browser is selected or its cookies are fetched.
#[derive(Debug, PartialEq, Eq)]
pub enum BrowserError {
    /// The name token does not name a supported browser.
    UnsupportedBrowser(String),
    /// The browser is known but its cookie store was not found.
    BrowserNotAvailable(String),
    /// None of the supported browsers was found.
    NoBrowsersAvailable,
    /// The cookie-store reader of `browser` failed with `message`.
    CookieFetchError { browser: String, message: String },
    /// The selection input was malformed.
    InvalidConfiguration(String),
}

/// A `BrowserError` with its texts as character sequences.
#[verifier::ext_equal]
pub enum ErrorView {
    UnsupportedBrowser(Seq<char>),
    BrowserNotAvailable(Seq<char>),
    NoBrowsersAvailable,
    CookieFetchError { browser: Seq<char>, message: Seq<char> },
    InvalidConfiguration(Seq<char>),
}

impl View for BrowserError {
    type V = ErrorView;

    open spec fn view(&self) -> ErrorView {
        match self {
            BrowserError::UnsupportedBrowser(name) => ErrorView::UnsupportedBrowser(name@),
            BrowserError::BrowserNotAvailable(name) => ErrorView::BrowserNotAvailable(name@),
            BrowserError::NoBrowsersAvailable => ErrorView::NoBrowsersAvailable,
            BrowserError::CookieFetchError { browser, message } => ErrorView::CookieFetchError {
                browser: browser@,
                message: message@,
            },
            BrowserError::InvalidConfiguration(detail) => ErrorView::InvalidConfiguration(detail@),
        }
    }
}

/// The names of `browsers`, in order.
pub open spec fn names_of(browsers: Seq<BrowserType>) -> Seq<Seq<char>> {
    Seq::new(browsers.len(), |i: int| browsers[i].name())
}

/// The names of `browsers`, each with `prefix` before it.
pub open spec fn prefixed_names(prefix: Seq<char>, browsers: Seq<BrowserType>) -> Seq<Seq<char>> {
    Seq::new(browsers.len(), |i: int| prefix + browsers[i].name())
}

/// The names of `browsers` in one line: `chrome, firefox, ...`.
pub open spec fn name_list(browsers: Seq<BrowserType>) -> Seq<char> {
    join(names_of(browsers), NAME_SEPARATOR@)
}

/// The test "is not called `name`", as a predicate on browsers.
pub open spec fn named_otherwise(name: Seq<char>) -> spec_fn(BrowserType) -> bool {
    |browser: BrowserType| browser.name() != name
}

/// The installation hints for the browser called `browser`.
pub open spec fn installation_tips(browser: Seq<char>) -> Seq<char> {
    if browser == "chrome"@ {
        TIPS_CHROME@
    } else if browser == "firefox"@ {
        TIPS_FIREFOX@
    } else if browser == "safari"@ {
        TIPS_SAFARI@
    } else if browser == "edge"@ {
        TIPS_EDGE@
    } else {
        TIPS_OTHER@
    }
}

/// The advice that fits a reader's message. The message is searched for key
/// words after its capitals have been put in lower case.
pub open spec fn common_solutions(message: Seq<char>) -> Seq<char> {
    let folded = lowercase(message);
    if contains(folded, "database"@) && contains(folded, "lock"@) {
        ADVICE_LOCKED@
    } else if contains(folded, "permission"@) || contains(folded, "access"@) {
        ADVICE_PERMISSION@
    } else if contains(folded, "not found"@) || contains(folded, "no such file"@) {
        ADVICE_MISSING@
    } else {
        ADVICE_GENERAL@
    }
}

/// The explanation of an unsupported browser name.
pub open spec fn unsupported_browser_message(browser: Seq<char>) -> Seq<char> {
    "⛔ Browser '"@ + browser + "' is not supported. Available browsers: "@ + name_list(
        BrowserType::priority(),
    )
}

/// The pointer to other browsers at the end of the explanation of a missing
/// browser: empty where none is available.
pub open spec fn alternatives_note(available: Seq<BrowserType>) -> Seq<char> {
    if available.len() > 0 {
        "\n🔄 Available alternatives: "@ + name_list(available) + "\n💡 Tip: Try --browser "@
            + available[0].name() + " instead"@
    } else {
        Seq::empty()
    }
}

/// The explanation of a browser that is not available.
pub open spec fn browser_not_available_message(
    browser: Seq<char>,
    available: Seq<BrowserType>,
) -> Seq<char> {
    "⛔ Browser '"@ + browser + "' is not available or installed.\n\n🔧 Installation help:\n   "@
        + installation_tips(browser) + "\n"@ + alternatives_note(available)
}

/// The explanation of a host without any supported browser.
pub open spec fn no_browsers_available_message() -> Seq<char> {
    "⛔ No supported browsers found on your system.\n\n📋 Supported browsers: "@ + name_list(
        BrowserType::priority(),
    ) + NO_BROWSERS_HELP@
}

/// The pointer to other browsers at the end of the explanation of a failed
/// fetch: empty where no other browser is available.
pub open spec fn other_browsers_note(others: Seq<BrowserType>) -> Seq<char> {
    if others.len() > 0 {
        "\n🔄 Try a different browser:\n   • Available: "@ + name_list(others)
            + "\n   • Example: --browser "@ + others[0].name()
    } else {
        Seq::empty()
    }
}

/// The explanation of a failed fetch.
pub open spec fn cookie_fetch_error_message(
    browser: Seq<char>,
    message: Seq<char>,
    available: Seq<BrowserType>,
) -> Seq<char> {
    "⛔ Failed to fetch cookies from "@ + browser + ".\n\n🔍 Error details: "@ + message
        + "\n\n🔧 Common solutions:\n   "@ + common_solutions(message) + "\n"@
        + other_browsers_note(available.filter(named_otherwise(browser)))
}

/// The explanation of a malformed selection input.
pub open spec fn invalid_configuration_message(config: Seq<char>) -> Seq<char> {
    "⛔ Invalid browser configuration: "@ + config + "\n\n📋 Valid options: "@ + name_list(
        BrowserType::priority(),
    ) + CONFIGURATION_TIPS@
}

impl ErrorView {
    /// The one-line display text.
    pub open spec fn display(self) -> Seq<char> {
        match self {
            ErrorView::UnsupportedBrowser(browser) => "Browser '"@ + browser
                + "' is not supported. Available browsers: "@ + name_list(
                BrowserType::priority(),
            ),
            ErrorView::BrowserNotAvailable(browser) => "Browser '"@ + browser
                + "' is not available or installed"@,
            ErrorView::NoBrowsersAvailable =>
                "No supported browsers found. Please install one of: "@ + name_list(
                    BrowserType::priority(),
                ),
            ErrorView::CookieFetchError { browser, message } => "Failed to fetch cookies from "@
                + browser + ": "@ + message,
            ErrorView::InvalidConfiguration(config) => "Invalid browser configuration: "@
                + config,
        }
    }

    /// The brief text for diagnostic output.
    pub open spec fn brief(self) -> Seq<char> {
        match self {
            ErrorView::UnsupportedBrowser(browser) => "Unsupported browser: "@ + browser,
            ErrorView::BrowserNotAvailable(browser) => "Browser not available: "@ + browser,
            ErrorView::NoBrowsersAvailable => "No browsers available"@,
            ErrorView::CookieFetchError { browser, message } => "Cookie fetch failed for "@
                + browser + ": "@ + message,
            ErrorView::InvalidConfiguration(config) => "Invalid configuration: "@ + config,
        }
    }

    /// The explanation with next steps, on a host where `available` are the
    /// detected browsers.
    pub open spec fn friendly(self, available: Seq<BrowserType>) -> Seq<char> {
        match self {
            ErrorView::UnsupportedBrowser(browser) => unsupported_browser_message(browser),
            ErrorView::BrowserNotAvailable(browser) => browser_not_available_message(
                browser,
                available,
            ),
            ErrorView::NoBrowsersAvailable => no_browsers_available_message(),
            ErrorView::CookieFetchError { browser, message } => cookie_fetch_error_message(
                browser,
                message,
                available,
            ),
            ErrorView::InvalidConfiguration(config) => invalid_configuration_message(config),
        }
    }

    /// The suggestions, on a host where `available` are the detected
    /// browsers.
    pub open spec fn suggestions(self, available: Seq<BrowserType>) -> Seq<Seq<char>> {
        match self {
            ErrorView::UnsupportedBrowser(_) => prefixed_names(
                "--browser "@,
                BrowserType::priority(),
            ),
            ErrorView::BrowserNotAvailable(browser) => {
                let install = seq!["Install "@ + browser + " browser"@];
                if available.len() > 0 {
                    install.push("Use --browser "@ + available[0].name())
                } else {
                    install
                }
            },
            ErrorView::NoBrowsersAvailable => seq![
                "Install Chrome, Firefox, Safari, or Edge"@,
                "Run the browser at least once after installation"@,
            ],
            ErrorView::CookieFetchError { browser, message } => seq![
                "Close "@ + browser + " and try again"@,
            ] + prefixed_names("Try --browser "@, available.filter(named_otherwise(browser))),
            ErrorView::InvalidConfiguration(_) => prefixed_names(
                "Use --browser "@,
                BrowserType::priority(),
            ),
        }
    }
}

/// The names of `browsers` in one line.
pub fn list_names(browsers: &Vec<BrowserType>) -> (line: String)
    ensures
        line@ == name_list(browsers@),
{
    let ghost all = names_of(browsers@);
    let mut line = String::new();
    let mut i: usize = 0;
    while i < browsers.len()
        invariant
            i <= browsers.len(),
            all == names_of(browsers@),
            line@ == join(all.take(i as int), NAME_SEPARATOR@),
        decreases browsers.len() - i,
    {
        proof {
            lemma_join_push(all.take(i as int), NAME_SEPARATOR@, all[i as int]);
            assert(all.take(i as int).push(all[i as int]) =~= all.take(i + 1));
        }
        if i > 0 {
            line.append(NAME_SEPARATOR);
        }
        line.append(browsers[i].as_str());
        i += 1;
    }
    assert(all.take(i as int) =~= all);
    line
}

/// The names of `browsers`, each with `prefix` before it.
pub fn prefix_names(prefix: &str, browsers: &Vec<BrowserType>) -> (lines: Vec<String>)
    ensures
        texts(lines@) == prefixed_names(prefix@, browsers@),
{
    let mut lines: Vec<String> = Vec::new();
    let mut i: usize = 0;
    while i < browsers.len()
        invariant
            i <= browsers.len(),
            lines@.len() == i,
            forall|j: int| 0 <= j < i ==> lines@[j]@ == prefix@ + browsers@[j].name(),
        decreases browsers.len() - i,
    {
        let mut line = String::from_str(prefix);
        line.append(browsers[i].as_str());
        lines.push(line);
        i += 1;
    }
    lines
}

/// The browsers among `browsers` that are not called `name`, in order.
pub fn browsers_named_otherwise(browsers: &Vec<BrowserType>, name: &str) -> (others: Vec<
    BrowserType,
>)
    ensures
        others@ == browsers@.filter(named_otherwise(name@)),
{
    let mut others: Vec<BrowserType> = Vec::new();
    let mut i: usize = 0;
    while i < browsers.len()
        invariant
            i <= browsers.len(),
            others@ == browsers@.take(i as int).filter(named_otherwise(name@)),
        decreases browsers.len() - i,
    {
        proof {
            let upto = browsers@.take(i + 1);
            assert(upto.drop_last() =~= browsers@.take(i as int));
            reveal(Seq::filter);
        }
        if !same_text(browsers[i].as_str(), name) {
            others.push(browsers[i]);
        }
        i += 1;
    }
    assert(browsers@.take(i as int) =~= browsers@);
    others
}

impl BrowserError {
    /// A fetch failure of `browser`, carrying the reader's message unchanged.
    pub fn cookie_fetch_error(browser: &str, message: &str) -> (e: BrowserError)
        ensures
            e@ == (ErrorView::CookieFetchError { browser: browser@, message: message@ }),
    {
        BrowserError::CookieFetchError {
            browser: String::from_str(browser),
            message: String::from_str(message),
        }
    }

    /// The one-line display text of the error.
    pub fn to_string(&self) -> (text: String)
        ensures
            text@ == self@.display(),
    {
        match self {
            BrowserError::UnsupportedBrowser(browser) => {
                let mut text = String::from_str("Browser '");
                text.append(browser.as_str());
                text.append("' is not supported. Available browsers: ");
                text.append(list_names(&BrowserType::all()).as_str());
                text
            },
            BrowserError::BrowserNotAvailable(browser) => {
                let mut text = String::from_str("Browser '");
                text.append(browser.as_str());
                text.append("' is not available or installed");
                text
            },
            BrowserError::NoBrowsersAvailable => {
                let mut text = String::from_str(
                    "No supported browsers found. Please install one of: ",
                );
                text.append(list_names(&BrowserType::all()).as_str());
                text
            },
            BrowserError::CookieFetchError { browser, message } => {
                let mut text = String::from_str("Failed to fetch cookies from ");
                text.append(browser.as_str());
                text.append(": ");
                text.append(message.as_str());
                text
            },
            BrowserError::InvalidConfiguration(config) => {
                let mut text = String::from_str("Invalid browser configuration: ");
                text.append(config.as_str());
                text
            },
        }
    }

    /// The explanation of the error with next steps. `host` tells which
    /// browsers can be offered in its place.
    pub fn user_friendly_message(&self, host: &HostFacts) -> (text: String)
        ensures
            text@ == self@.friendly(detected(host@)),
    {
        match self {
            BrowserError::UnsupportedBrowser(browser) => {
                Self::format_unsupported_browser_message(browser.as_str())
            },
            BrowserError::BrowserNotAvailable(browser) => {
                Self::format_browser_not_available_message(browser.as_str(), host)
            },
            BrowserError::NoBrowsersAvailable => { Self::format_no_browsers_available_message() },
            BrowserError::CookieFetchError { browser, message } => {
                Self::format_cookie_fetch_error_message(browser.as_str(), message.as_str(), host)
            },
            BrowserError::InvalidConfiguration(config) => {
                Self::format_invalid_configuration_message(config.as_str())
            },
        }
    }

    /// The explanation of an unsupported browser name.
    pub fn format_unsupported_browser_message(browser: &str) -> (text: String)
        ensures
            text@ == unsupported_browser_message(browser@),
    {
        let available_browsers = list_names(&BrowserType::all());
        let mut text = String::from_str("⛔ Browser '");
        text.append(browser);
        text.append("' is not supported. Available browsers: ");
        text.append(available_browsers.as_str());
        text
    }

    /// The explanation of a browser that is not available on `host`.
    pub fn format_browser_not_available_message(browser: &str, host: &HostFacts) -> (text: String)
        ensures
            text@ == browser_not_available_message(browser@, detected(host@)),
    {
        let installation_tips = if same_text(browser, "chrome") {
            TIPS_CHROME
        } else if same_text(browser, "firefox") {
            TIPS_FIREFOX
        } else if same_text(browser, "safari") {
            TIPS_SAFARI
        } else if same_text(browser, "edge") {
            TIPS_EDGE
        } else {
            TIPS_OTHER
        };
        let available_browsers = CookieManager::detect_available_browsers(host);
        let fallback_suggestion = if available_browsers.len() > 0 {
            let mut note = String::from_str("\n🔄 Available alternatives: ");
            note.append(list_names(&available_browsers).as_str());
            note.append("\n💡 Tip: Try --browser ");
            note.append(available_browsers[0].as_str());
            note.append(" instead");
            note
        } else {
            String::new()
        };
        let mut text = String::from_str("⛔ Browser '");
        text.append(browser);
        text.append("' is not available or installed.\n\n🔧 Installation help:\n   ");
        text.append(installation_tips);
        text.append("\n");
        text.append(fallback_suggestion.as_str());
        text
    }

    /// The explanation of a host without any supported browser.
    pub fn format_no_browsers_available_message() -> (text: String)
        ensures
            text@ == no_browsers_available_message(),
    {
        let all_browsers = list_names(&BrowserType::all());
        let mut text = String::from_str(
            "⛔ No supported browsers found on your system.\n\n📋 Supported browsers: ",
        );
        text.append(all_browsers.as_str());
        text.append(NO_BROWSERS_HELP);
        text
    }

    /// The explanation of a failed fetch from `browser` on `host`.
    pub fn format_cookie_fetch_error_message(browser: &str, message: &str, host: &HostFacts) -> (text:
        String)
        ensures
            text@ == cookie_fetch_error_message(browser@, message@, detected(host@)),
    {
        let folded = to_lowercase(&chars_of(message));
        let common_solutions = if has_substring(&folded, &chars_of("database")) && has_substring(
            &folded,
            &chars_of("lock"),
        ) {
            ADVICE_LOCKED
        } else if has_substring(&folded, &chars_of("permission")) || has_substring(
            &folded,
            &chars_of("access"),
        ) {
            ADVICE_PERMISSION
        } else if has_substring(&folded, &chars_of("not found")) || has_substring(
            &folded,
            &chars_of("no such file"),
        ) {
            ADVICE_MISSING
        } else {
            ADVICE_GENERAL
        };
        let available_browsers = browsers_named_otherwise(
            &CookieManager::detect_available_browsers(host),
            browser,
        );
        let alternative_suggestion = if available_browsers.len() > 0 {
            let mut note = String::from_str("\n🔄 Try a different browser:\n   • Available: ");
            note.append(list_names(&available_browsers).as_str());
            note.append("\n   • Example: --browser ");
            note.append(available_browsers[0].as_str());
            note
        } else {
            String::new()
        };
        let mut text = String::from_str("⛔ Failed to fetch cookies from ");
        text.append(browser);
        text.append(".\n\n🔍 Error details: ");
        text.append(message);
        text.append("\n\n🔧 Common solutions:\n   ");
        text.append(common_solutions);
        text.append("\n");
        text.append(alternative_suggestion.as_str());
        text
    }

    /// The explanation of a malformed selection input.
    pub fn format_invalid_configuration_message(config: &str) -> (text: String)
        ensures
            text@ == invalid_configuration_message(config@),
    {
        let available_browsers = list_names(&BrowserType::all());
        let mut text = String::from_str("⛔ Invalid browser configuration: ");
        text.append(config);
        text.append("\n\n📋 Valid options: ");
        text.append(available_browsers.as_str());
        text.append(CONFIGURATION_TIPS);
        text
    }

    /// The brief text of the error, for diagnostic output.
    pub fn brief_message(&self) -> (text: String)
        ensures
            text@ == self@.brief(),
    {
        match self {
            BrowserError::UnsupportedBrowser(browser) => {
                let mut text = String::from_str("Unsupported browser: ");
                text.append(browser.as_str());
                text
            },
            BrowserError::BrowserNotAvailable(browser) => {
                let mut text = String::from_str("Browser not available: ");
                text.append(browser.as_str());
                text
            },
            BrowserError::NoBrowsersAvailable => String::from_str("No browsers available"),
            BrowserError::CookieFetchError { browser, message } => {
                let mut text = String::from_str("Cookie fetch failed for ");
                text.append(browser.as_str());
                text.append(": ");
                text.append(message.as_str());
                text
            },
            BrowserError::InvalidConfiguration(config) => {
                let mut text = String::from_str("Invalid configuration: ");
                text.append(config.as_str());
                text
            },
        }
    }

    /// What the user can do about the error, one suggestion per entry.
    /// `host` tells which browsers can be offered.
    pub fn get_suggestions(&self, host: &HostFacts) -> (suggestions: Vec<String>)
        ensures
            texts(suggestions@) == self@.suggestions(detected(host@)),
    {
        match self {
            BrowserError::UnsupportedBrowser(_) => {
                prefix_names("--browser ", &BrowserType::all())
            },
            BrowserError::BrowserNotAvailable(browser) => {
                let mut suggestions: Vec<String> = Vec::new();
                let mut install = String::from_str("Install ");
                install.append(browser.as_str());
                install.append(" browser");
                suggestions.push(install);
                let available = CookieManager::detect_available_browsers(host);
                if available.len() > 0 {
                    let mut instead = String::from_str("Use --browser ");
                    instead.append(available[0].as_str());
                    suggestions.push(instead);
                }
                suggestions
            },
            BrowserError::NoBrowsersAvailable => {
                let mut suggestions: Vec<String> = Vec::new();
                suggestions.push(String::from_str("Install Chrome, Firefox, Safari, or Edge"));
                suggestions.push(
                    String::from_str("Run the browser at least once after installation"),
                );
                suggestions
            },
            BrowserError::CookieFetchError { browser, message } => {
                let mut suggestions: Vec<String> = Vec::new();
                let mut close = String::from_str("Close ");
                close.append(browser.as_str());
                close.append(" and try again");
                suggestions.push(close);
                let others = browsers_named_otherwise(
                    &CookieManager::detect_available_browsers(host),
                    browser.as_str(),
                );
                let mut available = prefix_names("Try --browser ", &others);
                suggestions.append(&mut available);
                suggestions
            },
            BrowserError::InvalidConfiguration(_) => {
                prefix_names("Use --browser ", &BrowserType::all())
            },
        }
    }
}

} // verus!
