//! The cookie manager: one browser source, bound for good.
//!
//! A manager is made in one of three ways: for a browser named by the caller,
//! by detection in priority order, or for a preferred browser with detection
//! as the fallback. Once made it never changes its source.

use crate::browser::BrowserType;
use crate::cookie::Cookie;
use crate::error::{BrowserError, ErrorView};
use crate::host::{path_views, texts, HostFacts, HostView, OsFamily, PathView, ProfilePath};
use crate::strategy::{
    browser_probe_paths, is_fetch_result, is_framed_request, lemma_probed_report_suffices,
    probe_paths, probe_targets, BrowserStrategy, ChromeStrategy, EdgeStrategy, FirefoxStrategy,
    ReadRequest, SafariStrategy,
};
use vstd::prelude::*;

verus! {

/// The test "is available on `host`", as a predicate on browsers.
pub open spec fn available_on(host: HostView) -> spec_fn(BrowserType) -> bool {
    |browser: BrowserType| browser.available_on(host)
}

/// The browsers available on `host`, in priority order.
pub open spec fn detected(host: HostView) -> Seq<BrowserType> {
    BrowserType::priority().filter(available_on(host))
}

/// Selection of a browser named by the caller.
pub open spec fn explicit_choice(browser: BrowserType, host: HostView) -> Result<
    BrowserType,
    ErrorView,
> {
    if browser.available_on(host) {
        Ok(browser)
    } else {
        Err(ErrorView::BrowserNotAvailable(browser.name()))
    }
}

/// Selection by detection: the first available browser in priority order.
pub open spec fn detected_choice(host: HostView) -> Result<BrowserType, ErrorView> {
    if detected(host).len() == 0 {
        Err(ErrorView::NoBrowsersAvailable)
    } else {
        Ok(detected(host)[0])
    }
}

/// Selection with a fallback: the preferred browser where it is available,
/// else whatever detection selects.
pub open spec fn fallback_choice(preferred: Option<BrowserType>, host: HostView) -> Result<
    BrowserType,
    ErrorView,
> {
    match preferred {
        Some(browser) => if browser.available_on(host) {
            Ok(browser)
        } else {
            detected_choice(host)
        },
        None => detected_choice(host),
    }
}

/// Whether `made` is the manager, or the error, that `choice` describes.
pub open spec fn is_choice(
    choice: Result<BrowserType, ErrorView>,
    made: Result<CookieManager, BrowserError>,
) -> bool {
    match choice {
        Ok(browser) => made matches Ok(manager) && manager@ == browser,
        Err(error) => made matches Err(e) && e@ == error,
    }
}

/// Where a selection that probes only as far as it must stands.
#[derive(Debug, Clone, Copy, PartialEq, Eq, Structural)]
pub enum SelectionPhase {
    /// The preferred browser is being looked for.
    Preferred(BrowserType),
    /// All browsers are being looked for.
    Detection,
}

/// What a selection asks of its caller next.
#[derive(Debug, PartialEq, Eq)]
pub enum SelectionStep {
    /// Look for `places` below the home directory and resume in `phase`
    /// with the report.
    Probe { phase: SelectionPhase, places: Vec<ProfilePath> },
    /// The selection has ended.
    Done(Result<CookieManager, BrowserError>),
}

/// The first step of a selection with fallback.
pub open spec fn is_first_step(
    preferred: Option<BrowserType>,
    family: OsFamily,
    step: SelectionStep,
) -> bool {
    match preferred {
        Some(browser) => step matches SelectionStep::Probe { phase, places } && phase
            == SelectionPhase::Preferred(browser) && path_views(places@) == browser.targets(
            family,
        ),
        None => step matches SelectionStep::Probe { phase, places } && phase
            == SelectionPhase::Detection && path_views(places@) == probe_targets(family),
    }
}

/// The step that follows a report in `phase`.
pub open spec fn is_next_step(phase: SelectionPhase, report: HostView, step: SelectionStep)
    -> bool {
    match phase {
        SelectionPhase::Preferred(browser) => if browser.available_on(report) {
            step matches SelectionStep::Done(made) && is_choice(Ok(browser), made)
        } else {
            step matches SelectionStep::Probe { phase, places } && phase
                == SelectionPhase::Detection && path_views(places@) == probe_targets(
                report.family,
            )
        },
        SelectionPhase::Detection => step matches SelectionStep::Done(made) && is_choice(
            detected_choice(report),
            made,
        ),
    }
}

/// What a stepwise selection ends with, where `first` is the report given
/// in the first phase and `second` the report given in the detection phase,
/// if the selection gets that far.
pub open spec fn stepwise_choice(preferred: Option<BrowserType>, first: HostView, second: HostView)
    -> Result<BrowserType, ErrorView> {
    match preferred {
        Some(browser) => if browser.available_on(first) {
            Ok(browser)
        } else {
            detected_choice(second)
        },
        None => detected_choice(first),
    }
}

/// The report says of each of `places` whether it is among `present`.
pub open spec fn reports_on(report: HostView, places: Seq<PathView>, present: Set<PathView>)
    -> bool {
    forall|i: int|
        0 <= i < places.len() ==> (report.holds(#[trigger] places[i]) <==> present.contains(
            places[i],
        ))
}

/// Owns the one browser source that was selected when it was made.
#[derive(Debug, PartialEq, Eq)]
pub struct CookieManager {
    browser: BrowserType,
}

impl View for CookieManager {
    type V = BrowserType;

    /// The browser that the manager is bound to.
    closed spec fn view(&self) -> BrowserType {
        self.browser
    }
}

impl CookieManager {
    /// Whether `browser` is available on `host`, by the source that stands
    /// for it.
    fn probe(browser: BrowserType, host: &HostFacts) -> (available: bool)
        ensures
            available == browser.available_on(host@),
    {
        match browser {
            BrowserType::Chrome => ChromeStrategy::new().is_available(host),
            BrowserType::Firefox => FirefoxStrategy::new().is_available(host),
            BrowserType::Safari => SafariStrategy::new().is_available(host),
            BrowserType::Edge => EdgeStrategy::new().is_available(host),
        }
    }

    /// Binds `browser_type` if it is available on `host`, and fails with
    /// `BrowserNotAvailable`, carrying the browser's name, if it is not.
    pub fn new(browser_type: BrowserType, host: &HostFacts) -> (made: Result<
        CookieManager,
        BrowserError,
    >)
        ensures
            is_choice(explicit_choice(browser_type, host@), made),
    {
        if !Self::probe(browser_type, host) {
            return Err(BrowserError::BrowserNotAvailable(browser_type.to_string()));
        }
        Ok(CookieManager { browser: browser_type })
    }

    /// The browsers available on `host`, in priority order.
    pub fn detect_available_browsers(host: &HostFacts) -> (available: Vec<BrowserType>)
        ensures
            available@ == detected(host@),
    {
        let browser_priority = BrowserType::all();
        let mut available: Vec<BrowserType> = Vec::new();
        let mut i: usize = 0;
        while i < browser_priority.len()
            invariant
                i <= browser_priority.len(),
                browser_priority@ == BrowserType::priority(),
                available@ == browser_priority@.take(i as int).filter(available_on(host@)),
            decreases browser_priority.len() - i,
        {
            let browser = browser_priority[i];
            proof {
                let upto = browser_priority@.take(i + 1);
                assert(upto.drop_last() =~= browser_priority@.take(i as int));
                reveal(Seq::filter);
            }
            if Self::probe(browser, host) {
                available.push(browser);
            }
            i += 1;
        }
        assert(browser_priority@.take(i as int) =~= browser_priority@);
        available
    }

    /// Binds the first browser in priority order that is available on `host`,
    /// and fails with `NoBrowsersAvailable` if there is none.
    pub fn with_auto_detection(host: &HostFacts) -> (made: Result<CookieManager, BrowserError>)
        ensures
            is_choice(detected_choice(host@), made),
    {
        let available_browsers = Self::detect_available_browsers(host);
        if available_browsers.len() == 0 {
            return Err(BrowserError::NoBrowsersAvailable);
        }
        let browser_type = available_browsers[0];
        proof {
            lemma_detected_are_available(host@, 0);
        }
        Self::new(browser_type, host)
    }

    /// Binds the preferred browser where one is given and available. Where
    /// it is not available the refusal is set aside and detection decides;
    /// with no preference detection decides at once.
    pub fn with_fallback(preferred_browser: Option<BrowserType>, host: &HostFacts) -> (made: Result<
        CookieManager,
        BrowserError,
    >)
        ensures
            is_choice(fallback_choice(preferred_browser, host@), made),
    {
        if let Some(browser_type) = preferred_browser {
            match Self::new(browser_type, host) {
                Ok(manager) => {
                    return Ok(manager);
                },
                Err(BrowserError::BrowserNotAvailable(_)) => {},
                Err(e) => {
                    return Err(e);
                },
            }
        }
        Self::with_auto_detection(host)
    }

    /// Begins a selection with fallback that probes no more than it must.
    /// With a preference only the preferred browser's own place on a machine
    /// of `family` is asked for; without one, every probe target.
    pub fn start_selection(preferred_browser: Option<BrowserType>, family: OsFamily) -> (step:
        SelectionStep)
        ensures
            is_first_step(preferred_browser, family, step),
    {
        match preferred_browser {
            Some(browser_type) => SelectionStep::Probe {
                phase: SelectionPhase::Preferred(browser_type),
                places: browser_probe_paths(browser_type, family),
            },
            None => SelectionStep::Probe {
                phase: SelectionPhase::Detection,
                places: probe_paths(family),
            },
        }
    }

    /// Continues a selection with the report on the places last asked for.
    /// A preferred browser that the report shows ends the selection; one
    /// that it does not show leads on to detection over every probe target.
    pub fn resume_selection(phase: SelectionPhase, report: &HostFacts) -> (step: SelectionStep)
        ensures
            is_next_step(phase, report@, step),
    {
        match phase {
            SelectionPhase::Preferred(browser_type) => {
                match Self::new(browser_type, report) {
                    Ok(manager) => SelectionStep::Done(Ok(manager)),
                    Err(_) => SelectionStep::Probe {
                        phase: SelectionPhase::Detection,
                        places: probe_paths(report.family),
                    },
                }
            },
            SelectionPhase::Detection => SelectionStep::Done(Self::with_auto_detection(report)),
        }
    }

    /// The browser that this manager is bound to.
    pub fn browser_type(&self) -> (browser: BrowserType)
        ensures
            browser == self@,
    {
        self.browser
    }

    /// The lower-case name of the bound browser.
    pub fn browser_name(&self) -> (name: &'static str)
        ensures
            name@ == self@.name(),
    {
        match self.browser {
            BrowserType::Chrome => ChromeStrategy::new().browser_name(),
            BrowserType::Firefox => FirefoxStrategy::new().browser_name(),
            BrowserType::Safari => SafariStrategy::new().browser_name(),
            BrowserType::Edge => EdgeStrategy::new().browser_name(),
        }
    }

    /// What is to be read for a fetch of `domain` on a machine of `family`:
    /// the bound browser's store, for that one domain. The bound source
    /// frames the read, so that a Safari store is never read off the macOS
    /// family.
    pub fn read_request(&self, domain: String, family: OsFamily) -> (request: Result<
        ReadRequest,
        BrowserError,
    >)
        ensures
            is_framed_request(self@, seq![domain@], family, request),
    {
        let mut domains: Vec<String> = Vec::new();
        domains.push(domain);
        assert(texts(domains@) =~= seq![domain@]);
        match self.browser {
            BrowserType::Chrome => ChromeStrategy::new().fetch_request(domains, family),
            BrowserType::Firefox => FirefoxStrategy::new().fetch_request(domains, family),
            BrowserType::Safari => SafariStrategy::new().fetch_request(domains, family),
            BrowserType::Edge => EdgeStrategy::new().fetch_request(domains, family),
        }
    }

    /// The result of a fetch, given the outcome of the read that
    /// `read_request` asked for. The bound source decides; nothing is tried
    /// again and nothing is kept.
    pub fn fetch_cookies_for_domain(&self, outcome: Result<Vec<Cookie>, String>) -> (result:
        Result<Vec<Cookie>, BrowserError>)
        ensures
            is_fetch_result(self@, outcome, result),
    {
        match self.browser {
            BrowserType::Chrome => ChromeStrategy::new().fetch_cookies(outcome),
            BrowserType::Firefox => FirefoxStrategy::new().fetch_cookies(outcome),
            BrowserType::Safari => SafariStrategy::new().fetch_cookies(outcome),
            BrowserType::Edge => EdgeStrategy::new().fetch_cookies(outcome),
        }
    }
}

/// The priority list taken apart from its end, as `Seq::filter` walks it.
proof fn lemma_priority_unfolds()
    ensures
        BrowserType::priority().drop_last() == seq![
            BrowserType::Chrome,
            BrowserType::Firefox,
            BrowserType::Safari,
        ],
        BrowserType::priority().drop_last().drop_last() == seq![
            BrowserType::Chrome,
            BrowserType::Firefox,
        ],
        BrowserType::priority().drop_last().drop_last().drop_last() == seq![BrowserType::Chrome],
        BrowserType::priority().drop_last().drop_last().drop_last().drop_last() == Seq::<
            BrowserType,
        >::empty(),
{
}

/// Every detected browser is available, and the detected browsers stand in
/// priority order without repetition.
pub proof fn lemma_detected_are_available(host: HostView, i: int)
    requires
        0 <= i < detected(host).len(),
    ensures
        detected(host)[i].available_on(host),
        forall|j: int|
            i < j < detected(host).len() ==> detected(host)[i].rank() < detected(host)[j].rank(),
{
    reveal_with_fuel(Seq::filter, 5);
    lemma_priority_unfolds();
}

/// Detection misses nothing: a browser is detected exactly if it is
/// available.
pub proof fn lemma_detection_is_complete(host: HostView, browser: BrowserType)
    ensures
        detected(host).contains(browser) <==> browser.available_on(host),
{
    reveal_with_fuel(Seq::filter, 5);
    lemma_priority_unfolds();
    let found = detected(host);
    if !browser.available_on(host) && found.contains(browser) {
        let i = choose|i: int| 0 <= i < found.len() && found[i] == browser;
        lemma_detected_are_available(host, i);
    }
}

/// Detection selects the available browser of highest priority, and fails
/// exactly if no browser is available.
pub proof fn lemma_detection_prefers_priority(host: HostView)
    ensures
        match detected_choice(host) {
            Ok(chosen) => chosen.available_on(host) && forall|other: BrowserType|
                other.rank() < chosen.rank() ==> !other.available_on(host),
            Err(error) => error == ErrorView::NoBrowsersAvailable && forall|other: BrowserType|
                !other.available_on(host),
        },
{
    let found = detected(host);
    assert forall|other: BrowserType|
        other.available_on(host) implies found.len() > 0 && found[0].rank() <= other.rank() by {
        lemma_detection_is_complete(host, other);
        let i = choose|i: int| 0 <= i < found.len() && found[i] == other;
        lemma_detected_are_available(host, 0);
    }
    if found.len() > 0 {
        lemma_detected_are_available(host, 0);
    }
}

/// A preferred browser that is available is bound whatever else the host
/// holds: two hosts that both have it give the same manager.
pub proof fn lemma_available_preference_wins(
    preferred: BrowserType,
    host: HostView,
    other_host: HostView,
)
    requires
        preferred.available_on(host),
        preferred.available_on(other_host),
    ensures
        fallback_choice(Some(preferred), host) == Ok::<BrowserType, ErrorView>(preferred),
        fallback_choice(Some(preferred), host) == fallback_choice(Some(preferred), other_host),
{
}

/// Probing step by step selects what probing everything at once selects.
/// Let `present` be what is on disk. If the first report is right about the
/// places asked for first, and the second about every probe target, then
/// the stepwise selection ends as the selection with fallback does on any
/// report `full` that is right about every probe target.
pub proof fn lemma_stepwise_selection_agrees(
    preferred: Option<BrowserType>,
    first: HostView,
    second: HostView,
    full: HostView,
    present: Set<PathView>,
)
    requires
        first.family == full.family,
        second.family == full.family,
        reports_on(full, probe_targets(full.family), present),
        reports_on(second, probe_targets(full.family), present),
        match preferred {
            Some(browser) => reports_on(first, browser.targets(full.family), present),
            None => reports_on(first, probe_targets(full.family), present),
        },
    ensures
        stepwise_choice(preferred, first, second) == fallback_choice(preferred, full),
{
    assert forall|browser: BrowserType|
        browser.available_on(second) == browser.available_on(full) by {
        lemma_probed_report_suffices(second, present, browser);
        lemma_probed_report_suffices(full, present, browser);
    }
    lemma_detection_follows_availability(second, full);
    match preferred {
        Some(browser) => {
            lemma_probed_report_suffices(full, present, browser);
            if browser.profile_path(full.family) is Some {
                let own = browser.targets(full.family);
                assert(own[0] == browser.profile_path(full.family)->0);
                assert(first.holds(own[0]) <==> present.contains(own[0]));
            }
        },
        None => {
            assert forall|browser: BrowserType|
                browser.available_on(first) == browser.available_on(full) by {
                lemma_probed_report_suffices(first, present, browser);
                lemma_probed_report_suffices(full, present, browser);
            }
            lemma_detection_follows_availability(first, full);
        },
    }
}

/// Two hosts on which the same browsers are available give the same
/// detection.
pub proof fn lemma_detection_follows_availability(host: HostView, other_host: HostView)
    requires
        forall|browser: BrowserType|
            browser.available_on(host) == browser.available_on(other_host),
    ensures
        detected(host) == detected(other_host),
        detected_choice(host) == detected_choice(other_host),
{
    reveal_with_fuel(Seq::filter, 5);
    lemma_priority_unfolds();
}

/// Selection with a fallback behaves as detection where no preference is
/// given or the preferred browser is missing, and so it never fails with
/// `BrowserNotAvailable`: its one error is `NoBrowsersAvailable`.
pub proof fn lemma_fallback_falls_back(preferred: Option<BrowserType>, host: HostView)
    ensures
        preferred is None ==> fallback_choice(preferred, host) == detected_choice(host),
        preferred matches Some(browser) && !browser.available_on(host) ==> fallback_choice(
            preferred,
            host,
        ) == detected_choice(host),
        fallback_choice(preferred, host) matches Err(error) ==> error
            == ErrorView::NoBrowsersAvailable,
        fallback_choice(preferred, host) matches Ok(chosen) ==> chosen.available_on(host),
{
    lemma_detection_prefers_priority(host);
}

} // verus!
