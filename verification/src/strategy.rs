//! The four browser sources.
//!
//! A source knows where its browser keeps its cookie store on each family of
//! operating systems, decides from a host report whether the browser is
//! available, and frames a read of the store: it says what is to be read and
//! turns the reader's outcome into the result of the fetch. Looking on disk
//! and reading are the caller's part.

use crate::browser::BrowserType;
use crate::cookie::Cookie;
use crate::error::{BrowserError, ErrorView};
use crate::host::{
    path_views, texts, EntryKind, HostFacts, HostView, OsFamily, PathView, ProfilePath,
};
use vstd::prelude::*;
use vstd::string::StringExecFns;

verus! {

/// The text carried by the error of a Safari fetch on another platform.
pub const SAFARI_NEEDS_MACOS: &'static str = "Safari is only available on macOS";

/// A file at the place named by `segments`.
pub open spec fn file_at(segments: Seq<Seq<char>>) -> PathView {
    PathView { segments, kind: EntryKind::File }
}

/// A directory at the place named by `segments`.
pub open spec fn directory_at(segments: Seq<Seq<char>>) -> PathView {
    PathView { segments, kind: EntryKind::Directory }
}

/// The view of a place that may be missing.
pub open spec fn place_view(place: Option<ProfilePath>) -> Option<PathView> {
    match place {
        Some(path) => Some(path@),
        None => None,
    }
}

/// The one place, or none, as a list.
pub open spec fn as_targets(place: Option<PathView>) -> Seq<PathView> {
    match place {
        Some(path) => seq![path],
        None => Seq::empty(),
    }
}

impl BrowserType {
    /// The place below the home directory where this browser keeps its
    /// cookie store on a machine of `family`. Safari has a place on the
    /// macOS family only.
    pub open spec fn profile_path(self, family: OsFamily) -> Option<PathView> {
        match self {
            BrowserType::Firefox => Some(
                match family {
                    OsFamily::Linux => directory_at(seq![".mozilla"@, "firefox"@]),
                    OsFamily::MacOs => directory_at(
                        seq!["Library"@, "Application Support"@, "Firefox"@, "Profiles"@],
                    ),
                    OsFamily::Windows => directory_at(
                        seq!["AppData"@, "Roaming"@, "Mozilla"@, "Firefox"@, "Profiles"@],
                    ),
                },
            ),
            BrowserType::Chrome => Some(
                match family {
                    OsFamily::Linux => file_at(
                        seq![".config"@, "google-chrome"@, "Default"@, "Cookies"@],
                    ),
                    OsFamily::MacOs => file_at(
                        seq![
                            "Library"@,
                            "Application Support"@,
                            "Google"@,
                            "Chrome"@,
                            "Default"@,
                            "Cookies"@,
                        ],
                    ),
                    OsFamily::Windows => file_at(
                        seq![
                            "AppData"@,
                            "Local"@,
                            "Google"@,
                            "Chrome"@,
                            "User Data"@,
                            "Default"@,
                            "Cookies"@,
                        ],
                    ),
                },
            ),
            BrowserType::Safari => match family {
                OsFamily::MacOs => Some(
                    file_at(seq!["Library"@, "Cookies"@, "Cookies.binarycookies"@]),
                ),
                _ => None,
            },
            BrowserType::Edge => Some(
                match family {
                    OsFamily::Linux => file_at(
                        seq![".config"@, "microsoft-edge"@, "Default"@, "Cookies"@],
                    ),
                    OsFamily::MacOs => file_at(
                        seq![
                            "Library"@,
                            "Application Support"@,
                            "Microsoft Edge"@,
                            "Default"@,
                            "Cookies"@,
                        ],
                    ),
                    OsFamily::Windows => file_at(
                        seq![
                            "AppData"@,
                            "Local"@,
                            "Microsoft"@,
                            "Edge"@,
                            "User Data"@,
                            "Default"@,
                            "Cookies"@,
                        ],
                    ),
                },
            ),
        }
    }

    /// This browser counts as available on `host`: it has a place on the
    /// host's family, and that place was found. The places of other families
    /// do not count, and where the home directory cannot be resolved no
    /// browser is available.
    pub open spec fn available_on(self, host: HostView) -> bool {
        match self.profile_path(host.family) {
            Some(place) => host.holds(place),
            None => false,
        }
    }

    /// Whether a fetch from this browser consults the cookie-store reader at
    /// all on a machine of `family`: Safari is read on the macOS family only.
    pub open spec fn readable_in(self, family: OsFamily) -> bool {
        self == BrowserType::Safari ==> family == OsFamily::MacOs
    }

    /// The places that the search for this browser looks at on a machine of
    /// `family`: its own place there, if it has one.
    pub open spec fn targets(self, family: OsFamily) -> Seq<PathView> {
        as_targets(self.profile_path(family))
    }
}

/// The places worth looking at on a machine of `family`, in priority order of
/// their browsers: one for each browser that has a place there.
pub open spec fn probe_targets(family: OsFamily) -> Seq<PathView> {
    BrowserType::Chrome.targets(family) + BrowserType::Firefox.targets(family)
        + BrowserType::Safari.targets(family) + BrowserType::Edge.targets(family)
}

/// What the caller is asked to read: the cookies that `browser` stores for
/// the domains in `domains`.
#[derive(Debug, PartialEq, Eq)]
pub struct ReadRequest {
    pub browser: BrowserType,
    pub domains: Vec<String>,
}

/// A `ReadRequest` with its domains as character sequences.
#[verifier::ext_equal]
pub struct ReadRequestView {
    pub browser: BrowserType,
    pub domains: Seq<Seq<char>>,
}

impl View for ReadRequest {
    type V = ReadRequestView;

    open spec fn view(&self) -> ReadRequestView {
        ReadRequestView { browser: self.browser, domains: texts(self.domains@) }
    }
}

/// The request that a fetch of `domains` from `browser` makes on a machine
/// of `family`, or the error with which the fetch fails before anything is
/// read.
pub open spec fn framed_request(browser: BrowserType, domains: Seq<Seq<char>>, family: OsFamily)
    -> Result<ReadRequestView, ErrorView> {
    if browser.readable_in(family) {
        Ok(ReadRequestView { browser, domains })
    } else {
        Err(ErrorView::BrowserNotAvailable(SAFARI_NEEDS_MACOS@))
    }
}

/// Whether `result` is the fetch result that belongs to the reader's
/// `outcome`: the records as they were read, or the reader's message wrapped
/// with the browser's name.
pub open spec fn is_fetch_result(
    browser: BrowserType,
    outcome: Result<Vec<Cookie>, String>,
    result: Result<Vec<Cookie>, BrowserError>,
) -> bool {
    match outcome {
        Ok(records) => result == Ok::<Vec<Cookie>, BrowserError>(records),
        Err(message) => result matches Err(e) && e@ == (ErrorView::CookieFetchError {
            browser: browser.name(),
            message: message@,
        }),
    }
}

/// Whether `result` is what `framed_request` describes.
pub open spec fn is_framed_request(
    browser: BrowserType,
    domains: Seq<Seq<char>>,
    family: OsFamily,
    result: Result<ReadRequest, BrowserError>,
) -> bool {
    match framed_request(browser, domains, family) {
        Ok(request) => result matches Ok(r) && r@ == request,
        Err(error) => result matches Err(e) && e@ == error,
    }
}

/// The capability shared by the browser sources.
pub trait BrowserStrategy: Send + Sync {
    /// The browser that this source stands for.
    spec fn browser(&self) -> BrowserType;

    /// Frames the read of the cookies stored for `domains` on a machine of
    /// `family`. Safari fails here, before anything is probed or read,
    /// unless the machine belongs to the macOS family.
    fn fetch_request(&self, domains: Vec<String>, family: OsFamily) -> (request: Result<
        ReadRequest,
        BrowserError,
    >)
        ensures
            is_framed_request(self.browser(), texts(domains@), family, request),
    ;

    /// Turns the reader's outcome into the result of the fetch. A failure of
    /// the reader becomes a `CookieFetchError` that carries this browser's
    /// name and the reader's message as it stands.
    fn fetch_cookies(&self, outcome: Result<Vec<Cookie>, String>) -> (result: Result<
        Vec<Cookie>,
        BrowserError,
    >)
        ensures
            is_fetch_result(self.browser(), outcome, result),
    ;

    /// Whether the browser's cookie store was found on `host`, at its place
    /// for the host's family.
    fn is_available(&self, host: &HostFacts) -> (available: bool)
        ensures
            available == self.browser().available_on(host@),
    ;

    /// The lower-case name of the browser.
    fn browser_name(&self) -> (name: &'static str)
        ensures
            name@ == self.browser().name(),
    ;
}

/// Frames a read for `browser`; shared by the four sources.
fn frame_request(browser: BrowserType, domains: Vec<String>, family: OsFamily) -> (request:
    Result<ReadRequest, BrowserError>)
    ensures
        is_framed_request(browser, texts(domains@), family, request),
{
    if browser == BrowserType::Safari && family != OsFamily::MacOs {
        Err(BrowserError::BrowserNotAvailable(String::from_str(SAFARI_NEEDS_MACOS)))
    } else {
        Ok(ReadRequest { browser, domains })
    }
}

/// Wraps a reader's outcome for `browser`; shared by the four sources.
fn wrap_outcome(browser: BrowserType, outcome: Result<Vec<Cookie>, String>) -> (result: Result<
    Vec<Cookie>,
    BrowserError,
>)
    ensures
        is_fetch_result(browser, outcome, result),
{
    match outcome {
        Ok(records) => Ok(records),
        Err(message) => Err(
            BrowserError::CookieFetchError { browser: browser.to_string(), message },
        ),
    }
}

/// Whether the place `place`, if there is one, was found on `host`; shared
/// by the four sources.
fn found_on(host: &HostFacts, place: Option<ProfilePath>) -> (found: bool)
    ensures
        found == match place_view(place) {
            Some(path) => host@.holds(path),
            None => false,
        },
{
    match place {
        Some(path) => host.holds(&path),
        None => false,
    }
}

/// The place of the browser `browser_type` on a machine of `family`, by the
/// source that stands for the browser.
pub fn profile_path_of(browser_type: BrowserType, family: OsFamily) -> (place: Option<ProfilePath>)
    ensures
        place_view(place) == browser_type.profile_path(family),
{
    match browser_type {
        BrowserType::Chrome => ChromeStrategy::profile_path(family),
        BrowserType::Firefox => FirefoxStrategy::profile_path(family),
        BrowserType::Safari => SafariStrategy::profile_path(family),
        BrowserType::Edge => EdgeStrategy::profile_path(family),
    }
}

/// The places that the search for `browser_type` has to look at on a machine
/// of `family`: its place there, if it has one.
pub fn browser_probe_paths(browser_type: BrowserType, family: OsFamily) -> (paths: Vec<
    ProfilePath,
>)
    ensures
        path_views(paths@) == browser_type.targets(family),
{
    let mut paths: Vec<ProfilePath> = Vec::new();
    match profile_path_of(browser_type, family) {
        Some(path) => {
            paths.push(path);
        },
        None => {},
    }
    assert(path_views(paths@) =~= browser_type.targets(family));
    paths
}

/// The places that a full host report has to answer for: the caller looks
/// for each of them below the home directory and lists those it finds.
pub fn probe_paths(family: OsFamily) -> (paths: Vec<ProfilePath>)
    ensures
        path_views(paths@) == probe_targets(family),
{
    let mut paths = browser_probe_paths(BrowserType::Chrome, family);
    let mut firefox = browser_probe_paths(BrowserType::Firefox, family);
    let mut safari = browser_probe_paths(BrowserType::Safari, family);
    let mut edge = browser_probe_paths(BrowserType::Edge, family);
    let ghost chrome_views = path_views(paths@);
    let ghost firefox_views = path_views(firefox@);
    let ghost safari_views = path_views(safari@);
    let ghost edge_views = path_views(edge@);
    paths.append(&mut firefox);
    paths.append(&mut safari);
    paths.append(&mut edge);
    assert(path_views(paths@) =~= chrome_views + firefox_views + safari_views + edge_views);
    paths
}

/// Every place of a browser is among the probe targets of its family.
pub proof fn lemma_own_place_is_probed(browser: BrowserType, family: OsFamily)
    ensures
        browser.profile_path(family) matches Some(place) ==> probe_targets(family).contains(
            place,
        ),
{
    let targets = probe_targets(family);
    if browser.profile_path(family) is Some {
        let place = browser.profile_path(family)->0;
        let index: int = match browser {
            BrowserType::Chrome => 0,
            BrowserType::Firefox => 1,
            BrowserType::Safari => 2,
            BrowserType::Edge => targets.len() - 1,
        };
        assert(targets[index] == place);
    }
}

/// A report that is right about every probe target decides availability as
/// the disk itself would: a browser is available exactly if it has a place
/// on the host's family and that place is truly present. What else the
/// report lists or leaves out does not matter.
pub proof fn lemma_probed_report_suffices(
    host: HostView,
    present: Set<PathView>,
    browser: BrowserType,
)
    requires
        forall|i: int|
            0 <= i < probe_targets(host.family).len() ==> (host.holds(
                #[trigger] probe_targets(host.family)[i],
            ) <==> present.contains(probe_targets(host.family)[i])),
    ensures
        browser.available_on(host) <==> (browser.profile_path(host.family) matches Some(place)
            && present.contains(place)),
{
    lemma_own_place_is_probed(browser, host.family);
    if browser.profile_path(host.family) is Some {
        let place = browser.profile_path(host.family)->0;
        let targets = probe_targets(host.family);
        let i = choose|i: int| 0 <= i < targets.len() && targets[i] == place;
        assert(host.holds(targets[i]) <==> present.contains(targets[i]));
    }
}

/// Whether a browser is available depends on the host's family and on what
/// the report says of the browser's place for that family, and on nothing
/// else: a place of another family does not count.
pub proof fn lemma_availability_reads_own_place(
    browser: BrowserType,
    host: HostView,
    other_host: HostView,
)
    requires
        host.family == other_host.family,
        browser.profile_path(host.family) matches Some(place) ==> host.holds(place)
            == other_host.holds(place),
    ensures
        browser.available_on(host) == browser.available_on(other_host),
{
}

/// The source for Firefox.
#[derive(Debug, Clone, Copy, PartialEq, Eq)]
pub struct FirefoxStrategy;

impl FirefoxStrategy {
    /// The source for Firefox. It holds no state.
    pub fn new() -> (strategy: FirefoxStrategy)
        ensures
            strategy.browser() == BrowserType::Firefox,
    {
        FirefoxStrategy
    }

    /// The profile directory of Firefox on a machine of `family`.
    pub fn profile_path(family: OsFamily) -> (place: Option<ProfilePath>)
        ensures
            place_view(place) == BrowserType::Firefox.profile_path(family),
    {
        let path = match family {
            OsFamily::Linux => ProfilePath::home(EntryKind::Directory).join(".mozilla").join(
                "firefox",
            ),
            OsFamily::MacOs => ProfilePath::home(EntryKind::Directory).join("Library").join(
                "Application Support",
            ).join("Firefox").join("Profiles"),
            OsFamily::Windows => ProfilePath::home(EntryKind::Directory).join("AppData").join(
                "Roaming",
            ).join("Mozilla").join("Firefox").join("Profiles"),
        };
        assert(path@.segments =~= BrowserType::Firefox.profile_path(family)->0.segments);
        Some(path)
    }

    /// Whether the Firefox profile directory of the host's family was found
    /// on `host`.
    pub fn firefox_profile_exists(host: &HostFacts) -> (found: bool)
        ensures
            found == BrowserType::Firefox.available_on(host@),
    {
        found_on(host, Self::profile_path(host.family))
    }
}

impl BrowserStrategy for FirefoxStrategy {
    open spec fn browser(&self) -> BrowserType {
        BrowserType::Firefox
    }

    fn fetch_request(&self, domains: Vec<String>, family: OsFamily) -> (request: Result<
        ReadRequest,
        BrowserError,
    >) {
        frame_request(BrowserType::Firefox, domains, family)
    }

    fn fetch_cookies(&self, outcome: Result<Vec<Cookie>, String>) -> (result: Result<
        Vec<Cookie>,
        BrowserError,
    >) {
        wrap_outcome(BrowserType::Firefox, outcome)
    }

    fn is_available(&self, host: &HostFacts) -> (available: bool) {
        Self::firefox_profile_exists(host)
    }

    fn browser_name(&self) -> (name: &'static str) {
        "firefox"
    }
}

/// The source for Chrome.
#[derive(Debug, Clone, Copy, PartialEq, Eq)]
pub struct ChromeStrategy;

impl ChromeStrategy {
    /// The source for Chrome. It holds no state.
    pub fn new() -> (strategy: ChromeStrategy)
        ensures
            strategy.browser() == BrowserType::Chrome,
    {
        ChromeStrategy
    }

    /// The cookie database of Chrome on a machine of `family`.
    pub fn profile_path(family: OsFamily) -> (place: Option<ProfilePath>)
        ensures
            place_view(place) == BrowserType::Chrome.profile_path(family),
    {
        let path = match family {
            OsFamily::Linux => ProfilePath::home(EntryKind::File).join(".config").join(
                "google-chrome",
            ).join("Default").join("Cookies"),
            OsFamily::MacOs => ProfilePath::home(EntryKind::File).join("Library").join(
                "Application Support",
            ).join("Google").join("Chrome").join("Default").join("Cookies"),
            OsFamily::Windows => ProfilePath::home(EntryKind::File).join("AppData").join(
                "Local",
            ).join("Google").join("Chrome").join("User Data").join("Default").join("Cookies"),
        };
        assert(path@.segments =~= BrowserType::Chrome.profile_path(family)->0.segments);
        Some(path)
    }

    /// Whether the Chrome cookie database of the host's family was found on
    /// `host`.
    pub fn chrome_cookies_exist(host: &HostFacts) -> (found: bool)
        ensures
            found == BrowserType::Chrome.available_on(host@),
    {
        found_on(host, Self::profile_path(host.family))
    }
}

impl BrowserStrategy for ChromeStrategy {
    open spec fn browser(&self) -> BrowserType {
        BrowserType::Chrome
    }

    fn fetch_request(&self, domains: Vec<String>, family: OsFamily) -> (request: Result<
        ReadRequest,
        BrowserError,
    >) {
        frame_request(BrowserType::Chrome, domains, family)
    }

    fn fetch_cookies(&self, outcome: Result<Vec<Cookie>, String>) -> (result: Result<
        Vec<Cookie>,
        BrowserError,
    >) {
        wrap_outcome(BrowserType::Chrome, outcome)
    }

    fn is_available(&self, host: &HostFacts) -> (available: bool) {
        Self::chrome_cookies_exist(host)
    }

    fn browser_name(&self) -> (name: &'static str) {
        "chrome"
    }
}

/// The source for Safari, which exists on the macOS family only.
#[derive(Debug, Clone, Copy, PartialEq, Eq)]
pub struct SafariStrategy;

impl SafariStrategy {
    /// The source for Safari. It holds no state.
    pub fn new() -> (strategy: SafariStrategy)
        ensures
            strategy.browser() == BrowserType::Safari,
    {
        SafariStrategy
    }

    /// The cookie file of Safari on the macOS family; on another family
    /// there is none.
    pub fn profile_path(family: OsFamily) -> (place: Option<ProfilePath>)
        ensures
            place_view(place) == BrowserType::Safari.profile_path(family),
    {
        match family {
            OsFamily::MacOs => {
                let path = ProfilePath::home(EntryKind::File).join("Library").join(
                    "Cookies",
                ).join("Cookies.binarycookies");
                assert(path@.segments =~= BrowserType::Safari.profile_path(family)->0.segments);
                Some(path)
            },
            _ => None,
        }
    }

    /// Whether Safari's cookie file was found on `host`. On a host outside
    /// the macOS family the answer is no, whatever the report lists.
    pub fn safari_cookies_exist(host: &HostFacts) -> (found: bool)
        ensures
            found == BrowserType::Safari.available_on(host@),
    {
        found_on(host, Self::profile_path(host.family))
    }
}

impl BrowserStrategy for SafariStrategy {
    open spec fn browser(&self) -> BrowserType {
        BrowserType::Safari
    }

    fn fetch_request(&self, domains: Vec<String>, family: OsFamily) -> (request: Result<
        ReadRequest,
        BrowserError,
    >) {
        frame_request(BrowserType::Safari, domains, family)
    }

    fn fetch_cookies(&self, outcome: Result<Vec<Cookie>, String>) -> (result: Result<
        Vec<Cookie>,
        BrowserError,
    >) {
        wrap_outcome(BrowserType::Safari, outcome)
    }

    fn is_available(&self, host: &HostFacts) -> (available: bool) {
        Self::safari_cookies_exist(host)
    }

    fn browser_name(&self) -> (name: &'static str) {
        "safari"
    }
}

/// The source for Edge.
#[derive(Debug, Clone, Copy, PartialEq, Eq)]
pub struct EdgeStrategy;

impl EdgeStrategy {
    /// The source for Edge. It holds no state.
    pub fn new() -> (strategy: EdgeStrategy)
        ensures
            strategy.browser() == BrowserType::Edge,
    {
        EdgeStrategy
    }

    /// The cookie database of Edge on a machine of `family`.
    pub fn profile_path(family: OsFamily) -> (place: Option<ProfilePath>)
        ensures
            place_view(place) == BrowserType::Edge.profile_path(family),
    {
        let path = match family {
            OsFamily::Linux => ProfilePath::home(EntryKind::File).join(".config").join(
                "microsoft-edge",
            ).join("Default").join("Cookies"),
            OsFamily::MacOs => ProfilePath::home(EntryKind::File).join("Library").join(
                "Application Support",
            ).join("Microsoft Edge").join("Default").join("Cookies"),
            OsFamily::Windows => ProfilePath::home(EntryKind::File).join("AppData").join(
                "Local",
            ).join("Microsoft").join("Edge").join("User Data").join("Default").join("Cookies"),
        };
        assert(path@.segments =~= BrowserType::Edge.profile_path(family)->0.segments);
        Some(path)
    }

    /// Whether the Edge cookie database of the host's family was found on
    /// `host`.
    pub fn edge_cookies_exist(host: &HostFacts) -> (found: bool)
        ensures
            found == BrowserType::Edge.available_on(host@),
    {
        found_on(host, Self::profile_path(host.family))
    }
}

impl BrowserStrategy for EdgeStrategy {
    open spec fn browser(&self) -> BrowserType {
        BrowserType::Edge
    }

    fn fetch_request(&self, domains: Vec<String>, family: OsFamily) -> (request: Result<
        ReadRequest,
        BrowserError,
    >) {
        frame_request(BrowserType::Edge, domains, family)
    }

    fn fetch_cookies(&self, outcome: Result<Vec<Cookie>, String>) -> (result: Result<
        Vec<Cookie>,
        BrowserError,
    >) {
        wrap_outcome(BrowserType::Edge, outcome)
    }

    fn is_available(&self, host: &HostFacts) -> (available: bool) {
        Self::edge_cookies_exist(host)
    }

    fn browser_name(&self) -> (name: &'static str) {
        "edge"
    }
}

} // verus!
