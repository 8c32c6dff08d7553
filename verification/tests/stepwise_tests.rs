use cookie_resolver::browser::BrowserType;
use cookie_resolver::error::BrowserError;
use cookie_resolver::host::{HostFacts, OsFamily, ProfilePath};
use cookie_resolver::manager::{CookieManager, SelectionPhase, SelectionStep};
use cookie_resolver::strategy::{
    browser_probe_paths, probe_paths, profile_path_of, ChromeStrategy, EdgeStrategy,
    FirefoxStrategy, SafariStrategy,
};

/// A disk that holds `present` below the home directory, and counts what it
/// is asked about.
struct Disk {
    family: OsFamily,
    present: Vec<ProfilePath>,
    asked: Vec<ProfilePath>,
}

impl Disk {
    fn new(family: OsFamily, present: Vec<ProfilePath>) -> Disk {
        Disk { family, present, asked: vec![] }
    }

    fn report(&mut self, places: Vec<ProfilePath>) -> HostFacts {
        let mut found = vec![];
        for place in places {
            if self.present.contains(&place) {
                found.push(ProfilePath { segments: place.segments.clone(), kind: place.kind });
            }
            self.asked.push(place);
        }
        HostFacts::new(self.family, found)
    }

    fn select(&mut self, preferred: Option<BrowserType>) -> Result<CookieManager, BrowserError> {
        let mut step = CookieManager::start_selection(preferred, self.family);
        loop {
            match step {
                SelectionStep::Probe { phase, places } => {
                    let report = self.report(places);
                    step = CookieManager::resume_selection(phase, &report);
                }
                SelectionStep::Done(made) => return made,
            }
        }
    }
}

fn families() -> [OsFamily; 3] {
    [OsFamily::Linux, OsFamily::MacOs, OsFamily::Windows]
}

fn firefox(family: OsFamily) -> ProfilePath {
    FirefoxStrategy::profile_path(family).unwrap()
}

fn chrome(family: OsFamily) -> ProfilePath {
    ChromeStrategy::profile_path(family).unwrap()
}

fn edge(family: OsFamily) -> ProfilePath {
    EdgeStrategy::profile_path(family).unwrap()
}

fn safari() -> ProfilePath {
    SafariStrategy::profile_path(OsFamily::MacOs).unwrap()
}

#[test]
fn available_preference_is_bound_without_probing_others() {
    let linux = OsFamily::Linux;
    let mut disk = Disk::new(linux, vec![chrome(linux), firefox(linux)]);
    let manager = disk.select(Some(BrowserType::Chrome)).unwrap();
    assert_eq!(manager.browser_type(), BrowserType::Chrome);
    assert_eq!(disk.asked, vec![chrome(linux)]);
}

#[test]
fn missing_preference_leads_to_detection() {
    let linux = OsFamily::Linux;
    let mut disk = Disk::new(linux, vec![firefox(linux)]);
    let manager = disk.select(Some(BrowserType::Chrome)).unwrap();
    assert_eq!(manager.browser_type(), BrowserType::Firefox);
    assert_eq!(disk.asked, vec![chrome(linux), chrome(linux), firefox(linux), edge(linux)]);
}

#[test]
fn selection_without_preference_detects_at_once() {
    let windows = OsFamily::Windows;
    let mut disk = Disk::new(windows, vec![edge(windows), firefox(windows)]);
    let manager = disk.select(None).unwrap();
    assert_eq!(manager.browser_type(), BrowserType::Firefox);
    assert_eq!(disk.asked, probe_paths(windows));

    let mut empty = Disk::new(OsFamily::MacOs, vec![]);
    assert_eq!(empty.select(None), Err(BrowserError::NoBrowsersAvailable));
    assert_eq!(empty.select(Some(BrowserType::Edge)), Err(BrowserError::NoBrowsersAvailable));
}

#[test]
fn a_preference_found_at_another_family_s_place_is_missing() {
    let mut disk = Disk::new(OsFamily::MacOs, vec![chrome(OsFamily::Linux)]);
    assert_eq!(disk.select(Some(BrowserType::Chrome)), Err(BrowserError::NoBrowsersAvailable));
    assert!(!disk.asked.contains(&chrome(OsFamily::Linux)));
}

#[test]
fn safari_is_not_looked_for_off_macos() {
    let windows = OsFamily::Windows;
    let mut disk = Disk::new(windows, vec![safari(), edge(windows)]);
    let manager = disk.select(Some(BrowserType::Safari)).unwrap();
    assert_eq!(manager.browser_type(), BrowserType::Edge);
    assert!(!disk.asked.contains(&safari()));

    let mac = OsFamily::MacOs;
    let mut disk = Disk::new(mac, vec![safari(), edge(mac)]);
    let manager = disk.select(Some(BrowserType::Safari)).unwrap();
    assert_eq!(manager.browser_type(), BrowserType::Safari);
    assert_eq!(disk.asked, vec![safari()]);
}

#[test]
fn stepwise_selection_agrees_with_selection_on_a_full_report() {
    for family in families() {
        let mut stores = vec![];
        for other in families() {
            stores.push(chrome(other));
            stores.push(firefox(other));
            stores.push(edge(other));
        }
        stores.push(safari());
        for mask in 0..(1 << stores.len()) {
            let present = |_: ()| -> Vec<ProfilePath> {
                let mut present = vec![];
                for (bit, store) in stores.iter().enumerate() {
                    if mask & (1 << bit) != 0 {
                        present.push(ProfilePath {
                            segments: store.segments.clone(),
                            kind: store.kind,
                        });
                    }
                }
                present
            };
            let full = HostFacts::new(family, present(()));
            let mut preferences = vec![None];
            for browser in BrowserType::all() {
                preferences.push(Some(browser));
            }
            for preferred in preferences {
                let mut disk = Disk::new(family, present(()));
                assert_eq!(disk.select(preferred), CookieManager::with_fallback(preferred, &full));
            }
        }
    }
}

#[test]
fn first_step_asks_for_the_preferred_browser_only() {
    assert_eq!(
        CookieManager::start_selection(Some(BrowserType::Firefox), OsFamily::Linux),
        SelectionStep::Probe {
            phase: SelectionPhase::Preferred(BrowserType::Firefox),
            places: vec![firefox(OsFamily::Linux)]
        }
    );
    assert_eq!(
        CookieManager::start_selection(Some(BrowserType::Safari), OsFamily::Linux),
        SelectionStep::Probe {
            phase: SelectionPhase::Preferred(BrowserType::Safari),
            places: vec![]
        }
    );
    assert_eq!(
        CookieManager::start_selection(None, OsFamily::MacOs),
        SelectionStep::Probe {
            phase: SelectionPhase::Detection,
            places: probe_paths(OsFamily::MacOs)
        }
    );
}

#[test]
fn probe_targets_follow_the_priority_order() {
    for family in [OsFamily::Linux, OsFamily::Windows] {
        assert_eq!(probe_paths(family), vec![chrome(family), firefox(family), edge(family)]);
    }
    let mac = OsFamily::MacOs;
    assert_eq!(probe_paths(mac), vec![chrome(mac), firefox(mac), safari(), edge(mac)]);
    for family in families() {
        for browser in BrowserType::all() {
            let own: Vec<ProfilePath> = profile_path_of(browser, family).into_iter().collect();
            assert_eq!(browser_probe_paths(browser, family), own);
        }
    }
}

#[test]
fn home_that_cannot_be_resolved_ends_in_no_browsers() {
    let report = HostFacts::without_home(OsFamily::Linux);
    let step =
        CookieManager::resume_selection(SelectionPhase::Preferred(BrowserType::Chrome), &report);
    assert_eq!(
        step,
        SelectionStep::Probe {
            phase: SelectionPhase::Detection,
            places: probe_paths(OsFamily::Linux)
        }
    );
    assert_eq!(
        CookieManager::resume_selection(SelectionPhase::Detection, &report),
        SelectionStep::Done(Err(BrowserError::NoBrowsersAvailable))
    );
}
