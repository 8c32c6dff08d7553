use cookie_resolver::error::{browsers_named_otherwise, list_names, prefix_names, BrowserError};
use cookie_resolver::browser::BrowserType;
use cookie_resolver::host::{EntryKind, HostFacts, OsFamily, ProfilePath};

fn host_with_firefox_and_edge() -> HostFacts {
    HostFacts::new(
        OsFamily::Linux,
        vec![
            ProfilePath::home(EntryKind::Directory).join(".mozilla").join("firefox"),
            ProfilePath::home(EntryKind::File)
                .join(".config")
                .join("microsoft-edge")
                .join("Default")
                .join("Cookies"),
        ],
    )
}

fn empty_host() -> HostFacts {
    HostFacts::new(OsFamily::Linux, vec![])
}

#[test]
fn display_text_of_each_error() {
    assert_eq!(
        BrowserError::UnsupportedBrowser("opera".to_string()).to_string(),
        "Browser 'opera' is not supported. Available browsers: chrome, firefox, safari, edge"
    );
    assert_eq!(
        BrowserError::BrowserNotAvailable("edge".to_string()).to_string(),
        "Browser 'edge' is not available or installed"
    );
    assert_eq!(
        BrowserError::NoBrowsersAvailable.to_string(),
        "No supported browsers found. Please install one of: chrome, firefox, safari, edge"
    );
    assert_eq!(
        BrowserError::cookie_fetch_error("firefox", "database is locked").to_string(),
        "Failed to fetch cookies from firefox: database is locked"
    );
    assert_eq!(
        BrowserError::InvalidConfiguration("no name".to_string()).to_string(),
        "Invalid browser configuration: no name"
    );
}

#[test]
fn explanation_of_an_unsupported_browser() {
    let error = BrowserError::UnsupportedBrowser("opera".to_string());
    assert_eq!(
        error.user_friendly_message(&empty_host()),
        "⛔ Browser 'opera' is not supported. Available browsers: chrome, firefox, safari, edge"
    );
}

#[test]
fn explanation_of_a_missing_browser_names_alternatives() {
    let error = BrowserError::BrowserNotAvailable("chrome".to_string());
    assert_eq!(
        error.user_friendly_message(&host_with_firefox_and_edge()),
        "⛔ Browser 'chrome' is not available or installed.\n\n🔧 Installation help:\n   • Download from https://www.google.com/chrome/\n   • Make sure to run Chrome at least once after installation\n\n🔄 Available alternatives: firefox, edge\n💡 Tip: Try --browser firefox instead"
    );
    assert_eq!(
        error.user_friendly_message(&empty_host()),
        "⛔ Browser 'chrome' is not available or installed.\n\n🔧 Installation help:\n   • Download from https://www.google.com/chrome/\n   • Make sure to run Chrome at least once after installation\n"
    );
}

#[test]
fn explanation_of_an_unknown_missing_browser_gives_general_hint() {
    assert_eq!(
        BrowserError::format_browser_not_available_message("Chrome", &empty_host()),
        "⛔ Browser 'Chrome' is not available or installed.\n\n🔧 Installation help:\n   • Make sure the browser is installed and has been run at least once\n"
    );
}

#[test]
fn explanation_of_no_browsers() {
    assert_eq!(
        BrowserError::NoBrowsersAvailable.user_friendly_message(&empty_host()),
        "⛔ No supported browsers found on your system.\n\n📋 Supported browsers: chrome, firefox, safari, edge\n\n🔧 Installation help:\n• Chrome: https://www.google.com/chrome/\n• Firefox: https://www.mozilla.org/firefox/\n• Safari: Pre-installed on macOS\n• Edge: https://www.microsoft.com/edge/\n\n💡 Tip: After installing a browser, run it at least once to create cookie storage."
    );
}

#[test]
fn explanation_of_a_failed_fetch_leaves_out_the_failed_browser() {
    let error = BrowserError::cookie_fetch_error("firefox", "Database is LOCKED");
    assert_eq!(
        error.user_friendly_message(&host_with_firefox_and_edge()),
        "⛔ Failed to fetch cookies from firefox.\n\n🔍 Error details: Database is LOCKED\n\n🔧 Common solutions:\n   • Close all browser windows and try again\n   • The browser's cookie database might be locked\n\n🔄 Try a different browser:\n   • Available: edge\n   • Example: --browser edge"
    );
    let error = BrowserError::cookie_fetch_error("edge", "boom");
    assert_eq!(
        error.user_friendly_message(&HostFacts::without_home(OsFamily::Linux)),
        "⛔ Failed to fetch cookies from edge.\n\n🔍 Error details: boom\n\n🔧 Common solutions:\n   • Try closing the browser and running the command again\n   • Check if the browser profile exists\n"
    );
}

#[test]
fn advice_follows_the_key_words_in_order() {
    let host = empty_host();
    let locked = "• Close all browser windows";
    let permission = "• Check file permissions";
    let missing = "• Make sure the browser has been run at least once";
    let general = "• Try closing the browser";
    let advice = |message: &str| {
        BrowserError::format_cookie_fetch_error_message("chrome", message, &host)
    };
    // "database" alone is not enough for the first advice.
    assert!(advice("database error").contains(general));
    assert!(advice("DATABASE is LOCKED").contains(locked));
    // A lock on the database wins over a missing permission.
    assert!(advice("permission denied: database lock").contains(locked));
    assert!(advice("Access is denied").contains(permission));
    assert!(advice("permission denied, file not found").contains(permission));
    assert!(advice("No such file or directory").contains(missing));
    assert!(advice("profile NOT FOUND").contains(missing));
    assert!(advice("").contains(general));
    // The Kelvin sign counts as a capital `k`, as it does for `str::to_lowercase`.
    assert!(advice("DATABASE LOC\u{212A}ED").contains(locked));
    assert!("DATABASE LOC\u{212A}ED".to_lowercase().contains("lock"));
}

#[test]
fn explanation_of_an_invalid_configuration() {
    assert_eq!(
        BrowserError::InvalidConfiguration("browser name is empty".to_string())
            .user_friendly_message(&empty_host()),
        "⛔ Invalid browser configuration: browser name is empty\n\n📋 Valid options: chrome, firefox, safari, edge\n\n💡 Tips:\n• Use --browser <name> to specify a browser\n• Browser names are case-insensitive\n• Example: --browser chrome"
    );
}

#[test]
fn suggestions_name_the_available_browsers() {
    let host = host_with_firefox_and_edge();
    assert_eq!(
        BrowserError::BrowserNotAvailable("chrome".to_string()).get_suggestions(&host),
        vec!["Install chrome browser".to_string(), "Use --browser firefox".to_string()]
    );
    assert_eq!(
        BrowserError::BrowserNotAvailable("chrome".to_string()).get_suggestions(&empty_host()),
        vec!["Install chrome browser".to_string()]
    );
    assert_eq!(
        BrowserError::cookie_fetch_error("firefox", "locked").get_suggestions(&host),
        vec!["Close firefox and try again".to_string(), "Try --browser edge".to_string()]
    );
    assert_eq!(
        BrowserError::cookie_fetch_error("chrome", "locked").get_suggestions(&host),
        vec![
            "Close chrome and try again".to_string(),
            "Try --browser firefox".to_string(),
            "Try --browser edge".to_string()
        ]
    );
    assert_eq!(
        BrowserError::UnsupportedBrowser("x".to_string()).get_suggestions(&host),
        vec![
            "--browser chrome".to_string(),
            "--browser firefox".to_string(),
            "--browser safari".to_string(),
            "--browser edge".to_string()
        ]
    );
    assert_eq!(
        BrowserError::InvalidConfiguration("x".to_string()).get_suggestions(&host),
        vec![
            "Use --browser chrome".to_string(),
            "Use --browser firefox".to_string(),
            "Use --browser safari".to_string(),
            "Use --browser edge".to_string()
        ]
    );
    assert_eq!(
        BrowserError::NoBrowsersAvailable.get_suggestions(&host),
        vec![
            "Install Chrome, Firefox, Safari, or Edge".to_string(),
            "Run the browser at least once after installation".to_string()
        ]
    );
}

#[test]
fn name_lists_and_prefixes() {
    assert_eq!(list_names(&vec![]), "");
    assert_eq!(list_names(&vec![BrowserType::Safari]), "safari");
    assert_eq!(list_names(&vec![BrowserType::Edge, BrowserType::Chrome]), "edge, chrome");
    assert_eq!(
        prefix_names("Try ", &vec![BrowserType::Edge, BrowserType::Chrome]),
        vec!["Try edge".to_string(), "Try chrome".to_string()]
    );
    assert_eq!(
        browsers_named_otherwise(&BrowserType::all(), "safari"),
        vec![BrowserType::Chrome, BrowserType::Firefox, BrowserType::Edge]
    );
    assert_eq!(browsers_named_otherwise(&BrowserType::all(), "Safari"), BrowserType::all());
}
