//! Decisions of the background worker, as pure functions: the initial
//! progress message, the mapping from the external process's outcome to the
//! payload message, and the closing signal. The surrounding task only spawns
//! the process and sends what these functions hand it, in order.

use crate::model::{AuditResult, AuditUpdate, Issue, Metrics, Severity};
use vstd::prelude::*;
use vstd::string::StringExecFns;

verus! {

/// What became of one invocation of the external audit process, reduced to
/// plain values: its exit status, its parsed standard output (if its output
/// parsed as a result record), and its captured standard error; or the
/// failure to launch it at all.
#[derive(Debug)]
pub enum AuditOutcome {
    Exited { success: bool, parsed: Option<AuditResult>, stderr: String },
    LaunchFailed { message: String },
}

/// Relies on chrono: `Utc::now()` reads the wall clock, and
/// `DateTime::to_rfc3339` formats any date as a non-empty RFC 3339 string.
/// The clock makes the result different on every call, so nothing more is
/// claimed of it.
#[verifier::external_body]
fn now_rfc3339() -> (r: String)
    ensures
        r@.len() > 0,
{
    chrono::Utc::now().to_rfc3339()
}

/// The fixed metrics of the placeholder result.
pub open spec fn demo_metrics() -> Metrics {
    Metrics {
        pages_scanned: 15,
        total_issues: 27,
        critical_issues: 5,
        warnings: 12,
        info: 10,
        health_score: 73,
    }
}

/// The placeholder result substituted for unparsable output: the fixed demo
/// metrics and the five fixed demo issues, for the given URL.
pub open spec fn is_demo_result(r: AuditResult, url: Seq<char>) -> bool {
    &&& r.url@ == url
    &&& r.metrics == demo_metrics()
    &&& r.issues@.len() == 5
    &&& r.issues@[0].severity == Severity::Critical
    &&& r.issues@[0].category@ == "Meta Tags"@
    &&& r.issues@[0].title@ == "Missing meta description"@
    &&& r.issues@[0].affected_pages@.len() == 3
    &&& r.issues@[0].affected_pages@[0]@ == url + "/about"@
    &&& r.issues@[1].severity == Severity::Critical
    &&& r.issues@[1].category@ == "Links"@
    &&& r.issues@[1].title@ == "Broken internal links"@
    &&& r.issues@[1].affected_pages@.len() == 1
    &&& r.issues@[2].severity == Severity::Warning
    &&& r.issues@[2].category@ == "Performance"@
    &&& r.issues@[2].title@ == "Large unoptimized images"@
    &&& r.issues@[2].affected_pages@.len() == 2
    &&& r.issues@[3].severity == Severity::Warning
    &&& r.issues@[3].category@ == "Security"@
    &&& r.issues@[3].title@ == "Missing security headers"@
    &&& r.issues@[3].affected_pages@.len() == 1
    &&& r.issues@[4].severity == Severity::Info
    &&& r.issues@[4].category@ == "Content"@
    &&& r.issues@[4].title@ == "Short title tags"@
    &&& r.issues@[4].affected_pages@.len() == 1
    &&& r.analysis is Some
}

/// Builds the placeholder result for one URL: fully populated, so the
/// renderer needs no special-case path, with the fixed demo metrics and five
/// demo issues.
pub fn create_demo_result(url: &str) -> (r: AuditResult)
    ensures
        is_demo_result(r, url@),
        r.timestamp@.len() > 0,
{
    let mut issues: Vec<Issue> = Vec::new();

    let mut pages0: Vec<String> = Vec::new();
    pages0.push(url.to_owned().concat("/about"));
    pages0.push(url.to_owned().concat("/contact"));
    pages0.push(url.to_owned().concat("/services"));
    issues.push(
        Issue {
            severity: Severity::Critical,
            category: "Meta Tags".to_owned(),
            title: "Missing meta description".to_owned(),
            description: "5 pages are missing meta descriptions which are crucial for SEO"
                .to_owned(),
            affected_pages: pages0,
            recommendation: "Add unique meta descriptions to each page (150-160 characters)"
                .to_owned(),
        },
    );

    let mut pages1: Vec<String> = Vec::new();
    pages1.push(url.to_owned().concat("/old-page"));
    issues.push(
        Issue {
            severity: Severity::Critical,
            category: "Links".to_owned(),
            title: "Broken internal links".to_owned(),
            description: "3 internal links are returning 404 errors".to_owned(),
            affected_pages: pages1,
            recommendation: "Update or remove broken links to improve user experience".to_owned(),
        },
    );

    let mut pages2: Vec<String> = Vec::new();
    pages2.push(url.to_owned().concat("/gallery"));
    pages2.push(url.to_owned().concat("/products"));
    issues.push(
        Issue {
            severity: Severity::Warning,
            category: "Performance".to_owned(),
            title: "Large unoptimized images".to_owned(),
            description: "8 images are larger than 200KB and not optimized".to_owned(),
            affected_pages: pages2,
            recommendation: "Compress images using WebP format or modern compression tools"
                .to_owned(),
        },
    );

    let mut pages3: Vec<String> = Vec::new();
    pages3.push(url.to_owned());
    issues.push(
        Issue {
            severity: Severity::Warning,
            category: "Security".to_owned(),
            title: "Missing security headers".to_owned(),
            description: "X-Content-Type-Options and X-Frame-Options headers are not set"
                .to_owned(),
            affected_pages: pages3,
            recommendation: "Add security headers to protect against XSS and clickjacking"
                .to_owned(),
        },
    );

    let mut pages4: Vec<String> = Vec::new();
    pages4.push(url.to_owned().concat("/blog"));
    issues.push(
        Issue {
            severity: Severity::Info,
            category: "Content".to_owned(),
            title: "Short title tags".to_owned(),
            description: "4 pages have title tags shorter than 30 characters".to_owned(),
            affected_pages: pages4,
            recommendation: "Expand title tags to 50-60 characters for better SEO impact"
                .to_owned(),
        },
    );

    AuditResult {
        url: url.to_owned(),
        timestamp: now_rfc3339(),
        metrics: Metrics {
            pages_scanned: 15,
            total_issues: 27,
            critical_issues: 5,
            warnings: 12,
            info: 10,
            health_score: 73,
        },
        issues,
        analysis: Some(
            "The website has a good foundation but needs attention to meta tags and performance optimization. Critical issues should be addressed first to improve search engine visibility and user experience.".to_owned(),
        ),
    }
}

/// The first message of every audit run: zero of one hundred steps done,
/// with the starting notice.
pub fn initial_progress_update() -> (u: AuditUpdate)
    ensures
        u matches AuditUpdate::Progress { current, total, message } && current == 0 && total == 100
            && message@ == "Starting audit..."@,
{
    AuditUpdate::Progress { current: 0, total: 100, message: "Starting audit...".to_owned() }
}

/// The messages that close one audit run, in send order: exactly one payload
/// — the parsed result on a clean exit, the placeholder result when a clean
/// exit produced unparsable output, or an error naming the captured standard
/// error or the launch failure — followed by exactly one closing `Complete`.
pub fn completion_updates(outcome: AuditOutcome, url: &str) -> (us: Vec<AuditUpdate>)
    ensures
        us@.len() == 2,
        us@[0] is Result || us@[0] is Error,
        us@[1] is Complete,
        outcome matches AuditOutcome::Exited { success: true, parsed: Some(r), .. } ==> us@[0]
            == AuditUpdate::Result(r),
        outcome matches AuditOutcome::Exited { success: true, parsed: None, .. } ==> (us@[0]
            matches AuditUpdate::Result(r) && is_demo_result(r, url@)),
        outcome matches AuditOutcome::Exited { success: false, stderr, .. } ==> (us@[0]
            matches AuditUpdate::Error(e) && e@ == "Audit failed: "@ + stderr@),
        outcome matches AuditOutcome::LaunchFailed { message } ==> (us@[0]
            matches AuditUpdate::Error(e) && e@ == "Failed to run audit: "@ + message@),
{
    let first: AuditUpdate = match outcome {
        AuditOutcome::Exited { success, parsed, stderr } => {
            if success {
                match parsed {
                    Some(r) => AuditUpdate::Result(r),
                    None => AuditUpdate::Result(create_demo_result(url)),
                }
            } else {
                AuditUpdate::Error("Audit failed: ".to_owned().concat(stderr.as_str()))
            }
        },
        AuditOutcome::LaunchFailed { message } => AuditUpdate::Error(
            "Failed to run audit: ".to_owned().concat(message.as_str()),
        ),
    };
    let mut us: Vec<AuditUpdate> = Vec::new();
    us.push(first);
    us.push(AuditUpdate::Complete);
    us
}

} // verus!
