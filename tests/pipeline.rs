use browser_url_reader::probe::{
    mac_plan, mac_report, unsupported_probe, MacPlan, WinEvent, WinProbe, WinStage,
};
use browser_url_reader::report::{assemble, get_browser_url, BrowserUrlResult, ProbeReport};

fn report(raw_url: Option<&str>, browser: Option<&str>) -> ProbeReport {
    ProbeReport { raw_url: raw_url.map(String::from), browser: browser.map(String::from) }
}

#[test]
fn browser_without_url_keeps_only_browser() {
    let r = assemble(report(None, Some("Firefox")));
    assert_eq!(r, BrowserUrlResult { url: None, domain: None, browser: Some("Firefox".to_string()) });
}

#[test]
fn nothing_found_gives_empty_record() {
    let r = assemble(unsupported_probe());
    assert_eq!(r, BrowserUrlResult { url: None, domain: None, browser: None });
}

#[test]
fn raw_url_is_normalized_and_split() {
    let r = assemble(report(Some(" github.com/rust-lang "), Some("Brave")));
    assert_eq!(r.url, Some("https://github.com/rust-lang".to_string()));
    assert_eq!(r.domain, Some("github.com".to_string()));
    assert_eq!(r.browser, Some("Brave".to_string()));
    let r = assemble(report(Some("about blank"), None));
    assert_eq!(r.url, Some("about blank".to_string()));
    assert_eq!(r.domain, None);
}

#[test]
fn probe_failure_is_the_single_error() {
    let r = get_browser_url(Err("access denied".to_string()));
    assert_eq!(r, Err("access denied".to_string()));
    let ok = get_browser_url(Ok(report(Some("https://a.b/c"), Some("Opera"))));
    assert_eq!(ok.unwrap().domain, Some("a.b".to_string()));
}

fn run_windows(events: Vec<WinEvent>) -> (Option<Result<ProbeReport, String>>, WinStage) {
    let mut probe = WinProbe::new();
    let mut last = None;
    for e in events {
        assert!(probe.accepts(&e));
        last = probe.step(e);
    }
    (last, probe.stage)
}

#[test]
fn windows_probe_reads_address_bar() {
    let (r, stage) = run_windows(vec![
        WinEvent::ForegroundWindow(true),
        WinEvent::ProcessId(42),
        WinEvent::ProcessHandle(true),
        WinEvent::ImagePath(Some("C:\\Program Files\\Google\\Chrome\\chrome.exe".to_string())),
        WinEvent::AddressBar(true),
        WinEvent::ValuePattern(true),
        WinEvent::AddressValue("example.com/x".to_string()),
    ]);
    assert_eq!(stage, WinStage::Finished);
    assert_eq!(r, Some(Ok(report(Some("example.com/x"), Some("Google Chrome")))));
}

#[test]
fn windows_probe_stages_in_order() {
    let mut probe = WinProbe::new();
    assert_eq!(probe.stage, WinStage::QueryForeground);
    assert!(!probe.accepts(&WinEvent::ProcessId(3)));
    assert_eq!(probe.step(WinEvent::ForegroundWindow(true)), None);
    assert_eq!(probe.stage, WinStage::QueryProcessId);
    assert_eq!(probe.step(WinEvent::ProcessId(7)), None);
    assert_eq!(probe.stage, WinStage::OpenProcess(7));
    assert_eq!(probe.step(WinEvent::ProcessHandle(true)), None);
    assert_eq!(probe.stage, WinStage::QueryImagePath);
    assert_eq!(probe.step(WinEvent::ImagePath(Some("c:\\msedge.exe".to_string()))), None);
    assert_eq!(probe.stage, WinStage::FindAddressBar);
    assert_eq!(probe.browser, Some("Microsoft Edge".to_string()));
}

#[test]
fn windows_probe_without_window_or_browser() {
    let (r, _) = run_windows(vec![WinEvent::ForegroundWindow(false)]);
    assert_eq!(r, Some(Ok(report(None, None))));
    let (r, _) = run_windows(vec![WinEvent::ForegroundWindow(true), WinEvent::ProcessId(0)]);
    assert_eq!(r, Some(Ok(report(None, None))));
    let (r, _) = run_windows(vec![
        WinEvent::ForegroundWindow(true),
        WinEvent::ProcessId(9),
        WinEvent::ProcessHandle(false),
    ]);
    assert_eq!(r, Some(Ok(report(None, None))));
    let (r, _) = run_windows(vec![
        WinEvent::ForegroundWindow(true),
        WinEvent::ProcessId(9),
        WinEvent::ProcessHandle(true),
        WinEvent::ImagePath(Some("C:\\Windows\\explorer.exe".to_string())),
    ]);
    assert_eq!(r, Some(Ok(report(None, None))));
    let (r, _) = run_windows(vec![
        WinEvent::ForegroundWindow(true),
        WinEvent::ProcessId(9),
        WinEvent::ProcessHandle(true),
        WinEvent::ImagePath(None),
    ]);
    assert_eq!(r, Some(Ok(report(None, None))));
}

#[test]
fn windows_probe_browser_without_address() {
    let start = vec![
        WinEvent::ForegroundWindow(true),
        WinEvent::ProcessId(5),
        WinEvent::ProcessHandle(true),
        WinEvent::ImagePath(Some("C:\\Brave\\brave.exe".to_string())),
    ];
    let mut a = start.clone();
    a.push(WinEvent::AddressBar(false));
    assert_eq!(run_windows(a).0, Some(Ok(report(None, Some("Brave")))));
    let mut b = start.clone();
    b.push(WinEvent::AddressBar(true));
    b.push(WinEvent::ValuePattern(false));
    assert_eq!(run_windows(b).0, Some(Ok(report(None, Some("Brave")))));
    let mut c = start;
    c.push(WinEvent::AddressBar(true));
    c.push(WinEvent::ValuePattern(true));
    c.push(WinEvent::AddressValue(String::new()));
    let (r, stage) = run_windows(c);
    assert_eq!(r, Some(Ok(report(None, Some("Brave")))));
    assert_eq!(stage, WinStage::Finished);
}

#[test]
fn windows_probe_failure_ends_it() {
    let (r, stage) = run_windows(vec![
        WinEvent::ForegroundWindow(true),
        WinEvent::ProcessId(5),
        WinEvent::OsFailure("OpenProcess failed".to_string()),
    ]);
    assert_eq!(r, Some(Err("OpenProcess failed".to_string())));
    assert_eq!(stage, WinStage::Finished);
    let mut probe = WinProbe::new();
    probe.step(WinEvent::OsFailure("x".to_string()));
    assert!(!probe.accepts(&WinEvent::OsFailure("y".to_string())));
}

#[test]
fn mac_plan_for_browser_and_other_app() {
    match mac_plan("Safari\n") {
        MacPlan::RunScript { app, script } => {
            assert_eq!(app, "Safari");
            assert!(script.starts_with("tell application \"Safari\""));
        }
        MacPlan::Finish(_) => panic!("Safari is a tracked browser"),
    }
    match mac_plan("Finder\n") {
        MacPlan::Finish(r) => assert_eq!(r, report(None, None)),
        MacPlan::RunScript { .. } => panic!("Finder is not a browser"),
    }
}

#[test]
fn mac_report_outcomes() {
    assert_eq!(
        mac_report("Arc", true, "https://x.y/z\n"),
        report(Some("https://x.y/z"), Some("Arc"))
    );
    assert_eq!(mac_report("Arc", true, "missing value\n"), report(None, Some("Arc")));
    assert_eq!(mac_report("Arc", true, "  \n"), report(None, Some("Arc")));
    assert_eq!(mac_report("Arc", false, "https://x.y"), report(None, Some("Arc")));
}
