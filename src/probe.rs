//! The decisions of the platform probes. The program around the library makes
//! each operating-system call that a probe asks for and hands back what came
//! of it; these functions decide what to ask next and what the probe found.

use vstd::prelude::*;
use crate::registry::{app_script, browser_label, identify, lower_of, script_for_app};
use crate::report::{ProbeRecord, ProbeReport};
use crate::text::{chars_of, has_prefix, opt_view, trim_white, trimmed};

verus! {

/// The operating-system call that the Windows probe waits on.
#[derive(Clone, Copy, Debug, PartialEq, Eq, Structural)]
pub enum WinStage {
    /// Read the foreground window.
    QueryForeground,
    /// Read the id of the process that owns the foreground window.
    QueryProcessId,
    /// Open the process with this id for a limited query.
    OpenProcess(u32),
    /// Read the full image path of the opened process.
    QueryImagePath,
    /// Start UI automation on the window and search its descendants for the
    /// first edit control.
    FindAddressBar,
    /// Ask the edit control for its value pattern.
    QueryValuePattern,
    /// Read the current value through the value pattern.
    ReadValue,
    /// The probe is over.
    Finished,
}

/// What one operating-system call of the Windows probe came to.
#[derive(Clone, Debug)]
pub enum WinEvent {
    /// Whether there is a foreground window.
    ForegroundWindow(bool),
    /// The owning process id; zero when it could not be read.
    ProcessId(u32),
    /// Whether the process handle that was opened is valid.
    ProcessHandle(bool),
    /// The image path of the process, or `None` when the query failed.
    ImagePath(Option<String>),
    /// Whether an edit control was found in the window.
    AddressBar(bool),
    /// Whether the edit control offers a value pattern.
    ValuePattern(bool),
    /// The current value of the edit control.
    AddressValue(String),
    /// An operating-system call failed unexpectedly, with this message.
    OsFailure(String),
}

/// Whether `event` answers the call that `stage` asked for. A failure
/// answers any call; nothing answers a finished probe.
pub open spec fn win_accepts(stage: WinStage, event: WinEvent) -> bool {
    match (stage, event) {
        (WinStage::Finished, _) => false,
        (_, WinEvent::OsFailure(_)) => true,
        (WinStage::QueryForeground, WinEvent::ForegroundWindow(_)) => true,
        (WinStage::QueryProcessId, WinEvent::ProcessId(_)) => true,
        (WinStage::OpenProcess(_), WinEvent::ProcessHandle(_)) => true,
        (WinStage::QueryImagePath, WinEvent::ImagePath(_)) => true,
        (WinStage::FindAddressBar, WinEvent::AddressBar(_)) => true,
        (WinStage::QueryValuePattern, WinEvent::ValuePattern(_)) => true,
        (WinStage::ReadValue, WinEvent::AddressValue(_)) => true,
        _ => false,
    }
}

/// Where one step of the Windows probe leads: the next stage, the browser
/// recognised so far, and the outcome once the probe is over.
pub struct WinStep {
    pub stage: WinStage,
    pub browser: Option<Seq<char>>,
    pub outcome: Option<Result<ProbeRecord, Seq<char>>>,
}

/// A step after which the probe waits on `stage`.
pub open spec fn win_continue(stage: WinStage, browser: Option<Seq<char>>) -> WinStep {
    WinStep { stage, browser, outcome: None }
}

/// A step that ends the probe with what it found.
pub open spec fn win_done(browser: Option<Seq<char>>, raw_url: Option<Seq<char>>) -> WinStep {
    WinStep {
        stage: WinStage::Finished,
        browser,
        outcome: Some(Ok(ProbeRecord { raw_url, browser })),
    }
}

/// One step of the Windows probe. A missing window, process or image path,
/// or a process that is not a tracked browser, ends it with nothing found.
/// Once a browser is recognised, a missing address bar, value pattern or an
/// empty value ends it with the browser alone. A failure ends it with that
/// failure.
pub open spec fn win_step(browser: Option<Seq<char>>, event: WinEvent) -> WinStep {
    match event {
        WinEvent::OsFailure(m) => WinStep {
            stage: WinStage::Finished,
            browser,
            outcome: Some(Err(m@)),
        },
        WinEvent::ForegroundWindow(found) => if found {
            win_continue(WinStage::QueryProcessId, browser)
        } else {
            win_done(None, None)
        },
        WinEvent::ProcessId(pid) => if pid == 0 {
            win_done(None, None)
        } else {
            win_continue(WinStage::OpenProcess(pid), browser)
        },
        WinEvent::ProcessHandle(valid) => if valid {
            win_continue(WinStage::QueryImagePath, browser)
        } else {
            win_done(None, None)
        },
        WinEvent::ImagePath(path) => match path {
            Some(p) => match browser_label(lower_of(p@)) {
                Some(b) => win_continue(WinStage::FindAddressBar, Some(b)),
                None => win_done(None, None),
            },
            None => win_done(None, None),
        },
        WinEvent::AddressBar(found) => if found {
            win_continue(WinStage::QueryValuePattern, browser)
        } else {
            win_done(browser, None)
        },
        WinEvent::ValuePattern(found) => if found {
            win_continue(WinStage::ReadValue, browser)
        } else {
            win_done(browser, None)
        },
        WinEvent::AddressValue(text) => if text@.len() == 0 {
            win_done(browser, None)
        } else {
            win_done(browser, Some(text@))
        },
    }
}

/// The characters of a step's outcome.
pub open spec fn step_view(r: Option<Result<ProbeReport, String>>) -> Option<Result<ProbeRecord, Seq<char>>> {
    match r {
        Some(Ok(p)) => Some(Ok(p@)),
        Some(Err(m)) => Some(Err(m@)),
        None => None,
    }
}

/// The Windows probe: which call it waits on, and the browser it recognised.
pub struct WinProbe {
    pub stage: WinStage,
    pub browser: Option<String>,
}

impl WinProbe {
    /// A probe that first asks for the foreground window.
    pub fn new() -> (r: WinProbe)
        ensures
            r.stage == WinStage::QueryForeground,
            r.browser is None,
    {
        WinProbe { stage: WinStage::QueryForeground, browser: None }
    }

    /// Whether `event` answers the call the probe waits on.
    pub fn accepts(&self, event: &WinEvent) -> (r: bool)
        ensures
            r == win_accepts(self.stage, *event),
    {
        match (self.stage, event) {
            (WinStage::Finished, _) => false,
            (_, WinEvent::OsFailure(_)) => true,
            (WinStage::QueryForeground, WinEvent::ForegroundWindow(_)) => true,
            (WinStage::QueryProcessId, WinEvent::ProcessId(_)) => true,
            (WinStage::OpenProcess(_), WinEvent::ProcessHandle(_)) => true,
            (WinStage::QueryImagePath, WinEvent::ImagePath(_)) => true,
            (WinStage::FindAddressBar, WinEvent::AddressBar(_)) => true,
            (WinStage::QueryValuePattern, WinEvent::ValuePattern(_)) => true,
            (WinStage::ReadValue, WinEvent::AddressValue(_)) => true,
            _ => false,
        }
    }

    fn finish(&mut self, browser: Option<String>, raw_url: Option<String>) -> (r: Option<Result<ProbeReport, String>>)
        ensures
            final(self).stage == WinStage::Finished,
            opt_view(final(self).browser) == opt_view(browser),
            step_view(r) == Some(Ok::<ProbeRecord, Seq<char>>(
                ProbeRecord { raw_url: opt_view(raw_url), browser: opt_view(browser) },
            )),
    {
        self.stage = WinStage::Finished;
        self.browser = browser.clone();
        Some(Ok(ProbeReport { raw_url, browser }))
    }

    /// Takes what the awaited call came to. Returns `None` while the probe
    /// goes on, with the next call in `stage`, and the probe's outcome once it
    /// is over.
    pub fn step(&mut self, event: WinEvent) -> (r: Option<Result<ProbeReport, String>>)
        requires
            win_accepts(old(self).stage, event),
        ensures
            ({
                let s = win_step(opt_view(old(self).browser), event);
                &&& final(self).stage == s.stage
                &&& opt_view(final(self).browser) == s.browser
                &&& step_view(r) == s.outcome
            }),
    {
        match event {
            WinEvent::OsFailure(m) => {
                self.stage = WinStage::Finished;
                Some(Err(m))
            },
            WinEvent::ForegroundWindow(found) => {
                if found {
                    self.stage = WinStage::QueryProcessId;
                    None
                } else {
                    self.finish(None, None)
                }
            },
            WinEvent::ProcessId(pid) => {
                if pid == 0 {
                    self.finish(None, None)
                } else {
                    self.stage = WinStage::OpenProcess(pid);
                    None
                }
            },
            WinEvent::ProcessHandle(valid) => {
                if valid {
                    self.stage = WinStage::QueryImagePath;
                    None
                } else {
                    self.finish(None, None)
                }
            },
            WinEvent::ImagePath(path) => match path {
                Some(p) => match identify(p.as_str()) {
                    Some(b) => {
                        self.stage = WinStage::FindAddressBar;
                        self.browser = Some(b);
                        None
                    },
                    None => self.finish(None, None),
                },
                None => self.finish(None, None),
            },
            WinEvent::AddressBar(found) => {
                if found {
                    self.stage = WinStage::QueryValuePattern;
                    None
                } else {
                    let b = self.browser.clone();
                    self.finish(b, None)
                }
            },
            WinEvent::ValuePattern(found) => {
                if found {
                    self.stage = WinStage::ReadValue;
                    None
                } else {
                    let b = self.browser.clone();
                    self.finish(b, None)
                }
            },
            WinEvent::AddressValue(text) => {
                let b = self.browser.clone();
                if text.as_str().is_empty() {
                    self.finish(b, None)
                } else {
                    self.finish(b, Some(text))
                }
            },
        }
    }
}

/// What the macOS probe does once it knows the frontmost application.
#[derive(Debug)]
pub enum MacPlan {
    /// Run `script` through the scripting bridge to read the URL shown by `app`.
    RunScript { app: String, script: &'static str },
    /// The probe is over with this report.
    Finish(ProbeReport),
}

/// Decides the macOS probe from the output of the query for the frontmost
/// application: the trimmed output names the application, whose script is
/// run where the application is a tracked browser.
pub fn mac_plan(name_output: &str) -> (r: MacPlan)
    ensures
        ({
            let app = trimmed(name_output@);
            match app_script(app) {
                Some(sc) => r matches MacPlan::RunScript { app: a, script } && a@ == app
                    && script@ == sc,
                None => r matches MacPlan::Finish(p) && p@.raw_url is None && p@.browser is None,
            }
        }),
{
    let app = trim_white(name_output);
    match script_for_app(app) {
        Some(script) => MacPlan::RunScript { app: String::from_str(app), script },
        None => MacPlan::Finish(ProbeReport::empty()),
    }
}

/// The scripting bridge's sentinel for a value it does not have.
pub open spec fn missing_value() -> Seq<char> {
    "missing value"@
}

/// What the macOS probe found, from the script's exit status and output: the
/// trimmed output is the raw URL when the script succeeded and the output is
/// neither empty nor the missing-value sentinel.
pub open spec fn mac_record(app: Seq<char>, succeeded: bool, output: Seq<char>) -> ProbeRecord {
    let url = trimmed(output);
    ProbeRecord {
        raw_url: if succeeded && url.len() > 0 && !missing_value().is_prefix_of(url) {
            Some(url)
        } else {
            None
        },
        browser: Some(app),
    }
}

/// The report of the macOS probe for browser `app`, once its script ran.
pub fn mac_report(app: &str, succeeded: bool, output: &str) -> (r: ProbeReport)
    ensures
        r@ == mac_record(app@, succeeded, output@),
{
    let url = trim_white(output);
    let raw_url = if succeeded && !url.is_empty() && !has_prefix(
        &chars_of(url),
        &chars_of("missing value"),
    ) {
        Some(String::from_str(url))
    } else {
        None
    };
    ProbeReport { raw_url, browser: Some(String::from_str(app)) }
}

/// The probe for an operating system without one: it finds nothing.
pub fn unsupported_probe() -> (r: ProbeReport)
    ensures
        r@.raw_url is None,
        r@.browser is None,
{
    ProbeReport::empty()
}

} // verus!
