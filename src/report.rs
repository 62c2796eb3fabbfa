//! What a platform probe reports, and the record assembled from it.

use vstd::prelude::*;
use crate::text::opt_view;
use crate::url::{domain_of, extract_domain, normalize_url, normalized};

verus! {

/// What a platform probe found: the raw address-bar text, if it could be
/// read, and the canonical name of the foreground browser, if it is one.
#[derive(Clone, Debug, PartialEq, Eq)]
pub struct ProbeReport {
    pub raw_url: Option<String>,
    pub browser: Option<String>,
}

/// The characters of a [`ProbeReport`].
pub struct ProbeRecord {
    pub raw_url: Option<Seq<char>>,
    pub browser: Option<Seq<char>>,
}

impl View for ProbeReport {
    type V = ProbeRecord;

    open spec fn view(&self) -> ProbeRecord {
        ProbeRecord { raw_url: opt_view(self.raw_url), browser: opt_view(self.browser) }
    }
}

impl ProbeReport {
    /// A report that found nothing: no browser in front, or none that is tracked.
    pub fn empty() -> (r: ProbeReport)
        ensures
            r@.raw_url is None,
            r@.browser is None,
    {
        ProbeReport { raw_url: None, browser: None }
    }
}

/// The final record: the normalised URL, its domain and the browser name.
#[derive(Clone, Debug, PartialEq, Eq)]
pub struct BrowserUrlResult {
    pub url: Option<String>,
    pub domain: Option<String>,
    pub browser: Option<String>,
}

/// The characters of a [`BrowserUrlResult`].
pub struct UrlRecord {
    pub url: Option<Seq<char>>,
    pub domain: Option<Seq<char>>,
    pub browser: Option<Seq<char>>,
}

impl View for BrowserUrlResult {
    type V = UrlRecord;

    open spec fn view(&self) -> UrlRecord {
        UrlRecord {
            url: opt_view(self.url),
            domain: opt_view(self.domain),
            browser: opt_view(self.browser),
        }
    }
}

/// The record assembled from a probe report: raw text, when there is some,
/// is normalised and its domain extracted; the browser name is passed on.
pub open spec fn assembled(p: ProbeRecord) -> UrlRecord {
    match p.raw_url {
        Some(raw) => UrlRecord {
            url: Some(normalized(raw)),
            domain: domain_of(normalized(raw)),
            browser: p.browser,
        },
        None => UrlRecord { url: None, domain: None, browser: p.browser },
    }
}

/// The outcome of a whole run: the assembled record, or the probe's error
/// message unchanged.
pub open spec fn run_outcome(probe: Result<ProbeRecord, Seq<char>>) -> Result<UrlRecord, Seq<char>> {
    match probe {
        Ok(p) => Ok(assembled(p)),
        Err(e) => Err(e),
    }
}

/// The characters of a probe outcome.
pub open spec fn probe_view(probe: Result<ProbeReport, String>) -> Result<ProbeRecord, Seq<char>> {
    match probe {
        Ok(p) => Ok(p@),
        Err(e) => Err(e@),
    }
}

/// The characters of a run's outcome.
pub open spec fn outcome_view(r: Result<BrowserUrlResult, String>) -> Result<UrlRecord, Seq<char>> {
    match r {
        Ok(res) => Ok(res@),
        Err(m) => Err(m@),
    }
}

/// Builds the final record from what a probe reported.
pub fn assemble(report: ProbeReport) -> (r: BrowserUrlResult)
    ensures
        r@ == assembled(report@),
        r@.domain is Some ==> r@.url is Some,
{
    match report.raw_url {
        Some(raw) => {
            let url = normalize_url(raw.as_str());
            let domain = extract_domain(url.as_str());
            BrowserUrlResult { url: Some(url), domain, browser: report.browser }
        },
        None => BrowserUrlResult { url: None, domain: None, browser: report.browser },
    }
}

/// Completes a run from the outcome of the platform probe: a report becomes
/// the final record, and a failure of the operating system is passed on as
/// the single error of the run.
pub fn get_browser_url(probe: Result<ProbeReport, String>) -> (r: Result<BrowserUrlResult, String>)
    ensures
        outcome_view(r) == run_outcome(probe_view(probe)),
{
    match probe {
        Ok(report) => Ok(assemble(report)),
        Err(e) => Err(e),
    }
}

/// A recognised browser whose address bar could not be read yields a record
/// with the browser name and neither URL nor domain.
pub proof fn lemma_browser_without_url(p: ProbeRecord)
    requires
        p.raw_url is None,
        p.browser is Some,
    ensures
        assembled(p).browser == p.browser,
        assembled(p).url is None,
        assembled(p).domain is None,
{
}

/// A report with neither browser nor URL yields a record with all three
/// fields absent.
pub proof fn lemma_nothing_found(p: ProbeRecord)
    requires
        p.raw_url is None,
        p.browser is None,
    ensures
        assembled(p).url is None,
        assembled(p).domain is None,
        assembled(p).browser is None,
{
}

/// A failure of the probe ends the run with that one error and no record.
pub proof fn lemma_failure_is_single_error(e: Seq<char>)
    ensures
        run_outcome(Err(e)) == Err::<UrlRecord, Seq<char>>(e),
{
}

} // verus!
