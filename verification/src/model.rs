//! Data model of one audit run: the result record received from the external
//! tool, its metrics and issues, the lifecycle phase, and the update messages
//! flowing from the background worker to the UI.

use vstd::prelude::*;

verus! {

/// Severity of one issue: a closed enumeration. Labels the external tool
/// emits are mapped to it at the parsing boundary; anything unrecognized
/// degrades to `Info`.
#[derive(Clone, Copy, Debug, PartialEq, Eq, Structural)]
pub enum Severity {
    Critical,
    Warning,
    Info,
}

/// The severity a textual label denotes: `"critical"` and `"warning"` name
/// their variants, every other label falls back to `Info`.
pub open spec fn severity_of_label(s: Seq<char>) -> Severity {
    if s == "critical"@ {
        Severity::Critical
    } else if s == "warning"@ {
        Severity::Warning
    } else {
        Severity::Info
    }
}

/// Maps a severity label coming from the external tool to the closed
/// enumeration, with `Info` as the fallback for unrecognized labels.
pub fn severity_from_label(label: &str) -> (r: Severity)
    ensures
        r == severity_of_label(label@),
{
    let l: String = label.to_owned();
    if l == "critical".to_owned() {
        Severity::Critical
    } else if l == "warning".to_owned() {
        Severity::Warning
    } else {
        Severity::Info
    }
}

/// Aggregate counters reported by the external tool. All six are passed
/// through as received; the health score is supplied, not derived.
#[derive(Clone, Copy, Debug, PartialEq, Eq, Structural)]
pub struct Metrics {
    pub pages_scanned: usize,
    pub total_issues: usize,
    pub critical_issues: usize,
    pub warnings: usize,
    pub info: usize,
    pub health_score: usize,
}

/// One finding of the audit. Issues are never mutated or reordered after
/// receipt; their position in the result's sequence is the stable index
/// navigation uses.
#[derive(Debug)]
pub struct Issue {
    pub severity: Severity,
    pub category: String,
    pub title: String,
    pub description: String,
    pub affected_pages: Vec<String>,
    pub recommendation: String,
}

/// The record describing one completed audit. Received once over the update
/// channel and immutable thereafter.
#[derive(Debug)]
pub struct AuditResult {
    pub url: String,
    pub timestamp: String,
    pub metrics: Metrics,
    pub issues: Vec<Issue>,
    pub analysis: Option<String>,
}

/// Lifecycle phase of the audit run. Exactly one phase is active at a time;
/// `Complete` and `Error` are terminal for this field.
#[derive(Debug)]
pub enum AppState {
    Loading,
    Running { progress: usize, message: String },
    Complete,
    Error(String),
}

/// One message on the update channel from the background worker to the UI.
#[derive(Debug)]
pub enum AuditUpdate {
    Progress { current: usize, total: usize, message: String },
    Result(AuditResult),
    Error(String),
    Complete,
}

} // verus!
