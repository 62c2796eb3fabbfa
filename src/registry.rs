//! The browsers this library recognises, by process image path and by
//! application name.

use vstd::prelude::*;
use crate::text::{chars_of, has_infix, has_run, opt_view, same_chars};

verus! {

/// What `str::to_lowercase` makes of a string.
pub uninterp spec fn lower_of(s: Seq<char>) -> Seq<char>;

/// Relies on `str::to_lowercase`: the lower-case form of `s`, which depends on
/// the characters of `s` alone.
#[verifier::external_body]
fn lowercase(s: &str) -> (r: String)
    ensures
        r@ == lower_of(s@),
{
    s.to_lowercase()
}

/// The canonical browser name for a lower-case process image path, found by
/// the first matching entry of an ordered list of substrings. `chrome` only
/// counts where the path does not also name `chromium`.
pub open spec fn browser_label(path: Seq<char>) -> Option<Seq<char>> {
    if has_infix(path, "chrome"@) && !has_infix(path, "chromium"@) {
        Some("Google Chrome"@)
    } else if has_infix(path, "firefox"@) {
        Some("Firefox"@)
    } else if has_infix(path, "msedge"@) {
        Some("Microsoft Edge"@)
    } else if has_infix(path, "brave"@) {
        Some("Brave"@)
    } else if has_infix(path, "opera"@) {
        Some("Opera"@)
    } else if has_infix(path, "vivaldi"@) {
        Some("Vivaldi"@)
    } else if has_infix(path, "chromium"@) {
        Some("Chromium"@)
    } else {
        None
    }
}

/// The canonical browser name for a process image path that is already in
/// lower case, or `None` when it names no browser that is tracked.
pub fn identify_lowercased(path: &str) -> (r: Option<String>)
    ensures
        opt_view(r) == browser_label(path@),
{
    let p = chars_of(path);
    let chromium = has_run(&p, &chars_of("chromium"));
    if has_run(&p, &chars_of("chrome")) && !chromium {
        Some(String::from_str("Google Chrome"))
    } else if has_run(&p, &chars_of("firefox")) {
        Some(String::from_str("Firefox"))
    } else if has_run(&p, &chars_of("msedge")) {
        Some(String::from_str("Microsoft Edge"))
    } else if has_run(&p, &chars_of("brave")) {
        Some(String::from_str("Brave"))
    } else if has_run(&p, &chars_of("opera")) {
        Some(String::from_str("Opera"))
    } else if has_run(&p, &chars_of("vivaldi")) {
        Some(String::from_str("Vivaldi"))
    } else if chromium {
        Some(String::from_str("Chromium"))
    } else {
        None
    }
}

/// The canonical browser name for a process image path, matched without
/// regard to case.
pub fn identify(path: &str) -> (r: Option<String>)
    ensures
        opt_view(r) == browser_label(lower_of(path@)),
{
    let lowered = lowercase(path);
    identify_lowercased(lowered.as_str())
}

/// A path that names `chromium` is never taken for Google Chrome.
pub proof fn lemma_chromium_is_not_chrome(path: Seq<char>)
    requires
        has_infix(path, "chromium"@),
    ensures
        browser_label(path) != Some("Google Chrome"@),
{
    reveal_strlit("Google Chrome");
    reveal_strlit("Firefox");
    reveal_strlit("Microsoft Edge");
    reveal_strlit("Brave");
    reveal_strlit("Opera");
    reveal_strlit("Vivaldi");
    reveal_strlit("Chromium");
    assert("Google Chrome"@[0] == 'G');
    assert("Firefox"@[0] != 'G');
    assert("Microsoft Edge"@[0] != 'G');
    assert("Brave"@[0] != 'G');
    assert("Opera"@[0] != 'G');
    assert("Vivaldi"@[0] != 'G');
    assert("Chromium"@[0] != 'G');
}

/// The script that reads the current URL of an application on macOS, for the
/// applications that have one.
pub open spec fn app_script(app: Seq<char>) -> Option<Seq<char>> {
    if app == "Google Chrome"@ {
        Some("tell application \"Google Chrome\" to get URL of active tab of front window"@)
    } else if app == "Safari"@ {
        Some("tell application \"Safari\" to get URL of current tab of front window"@)
    } else if app == "Firefox"@ {
        Some("tell application \"System Events\" to tell process \"Firefox\" to get value of attribute \"AXValue\" of text field 1 of toolbar 1 of window 1"@)
    } else if app == "Arc"@ {
        Some("tell application \"Arc\" to get URL of active tab of front window"@)
    } else if app == "Microsoft Edge"@ {
        Some("tell application \"Microsoft Edge\" to get URL of active tab of front window"@)
    } else if app == "Brave Browser"@ {
        Some("tell application \"Brave Browser\" to get URL of active tab of front window"@)
    } else if app == "Opera"@ {
        Some("tell application \"Opera\" to get URL of active tab of front window"@)
    } else if app == "Vivaldi"@ {
        Some("tell application \"Vivaldi\" to get URL of active tab of front window"@)
    } else {
        None
    }
}

/// The URL-reading script for the application named `app`, or `None` when
/// the application is not a browser that is tracked.
pub fn script_for_app(app: &str) -> (r: Option<&'static str>)
    ensures
        match r {
            Some(s) => app_script(app@) == Some(s@),
            None => app_script(app@) is None,
        },
{
    let a = chars_of(app);
    if same_chars(&a, &chars_of("Google Chrome")) {
        Some("tell application \"Google Chrome\" to get URL of active tab of front window")
    } else if same_chars(&a, &chars_of("Safari")) {
        Some("tell application \"Safari\" to get URL of current tab of front window")
    } else if same_chars(&a, &chars_of("Firefox")) {
        Some("tell application \"System Events\" to tell process \"Firefox\" to get value of attribute \"AXValue\" of text field 1 of toolbar 1 of window 1")
    } else if same_chars(&a, &chars_of("Arc")) {
        Some("tell application \"Arc\" to get URL of active tab of front window")
    } else if same_chars(&a, &chars_of("Microsoft Edge")) {
        Some("tell application \"Microsoft Edge\" to get URL of active tab of front window")
    } else if same_chars(&a, &chars_of("Brave Browser")) {
        Some("tell application \"Brave Browser\" to get URL of active tab of front window")
    } else if same_chars(&a, &chars_of("Opera")) {
        Some("tell application \"Opera\" to get URL of active tab of front window")
    } else if same_chars(&a, &chars_of("Vivaldi")) {
        Some("tell application \"Vivaldi\" to get URL of active tab of front window")
    } else {
        None
    }
}

} // verus!
