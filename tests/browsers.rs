use browser_url_reader::registry::{identify, identify_lowercased, script_for_app};

#[test]
fn identify_chrome_and_chromium() {
    assert_eq!(
        identify("C:\\Program Files\\Google\\Chrome\\chrome.exe"),
        Some("Google Chrome".to_string())
    );
    assert_eq!(
        identify("C:\\Users\\me\\AppData\\Local\\chromium\\chromium.exe"),
        Some("Chromium".to_string())
    );
}

#[test]
fn identify_ignores_case() {
    assert_eq!(identify("C:\\APPS\\MOZILLA FIREFOX\\FIREFOX.EXE"), Some("Firefox".to_string()));
    assert_eq!(identify("D:\\Vivaldi\\Application\\VIVALDI.EXE"), Some("Vivaldi".to_string()));
    assert_eq!(identify_lowercased("C:\\APPS\\FIREFOX.EXE"), None);
}

#[test]
fn identify_each_browser() {
    assert_eq!(identify_lowercased("c:\\x\\msedge.exe"), Some("Microsoft Edge".to_string()));
    assert_eq!(identify_lowercased("c:\\x\\brave.exe"), Some("Brave".to_string()));
    assert_eq!(identify_lowercased("c:\\x\\opera.exe"), Some("Opera".to_string()));
    assert_eq!(identify_lowercased("c:\\x\\firefox.exe"), Some("Firefox".to_string()));
}

#[test]
fn identify_unknown_is_none() {
    assert_eq!(identify("C:\\Windows\\notepad.exe"), None);
    assert_eq!(identify(""), None);
}

#[test]
fn scripts_for_tracked_apps() {
    assert_eq!(
        script_for_app("Safari"),
        Some("tell application \"Safari\" to get URL of current tab of front window")
    );
    assert!(script_for_app("Firefox").unwrap().contains("AXValue"));
    assert!(script_for_app("Brave Browser").is_some());
    assert_eq!(script_for_app("Finder"), None);
    assert_eq!(script_for_app("safari"), None);
}
