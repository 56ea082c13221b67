//! The render logic as a pure function: it maps the full application state to
//! a frame model — header, one content panel chosen by the lifecycle phase,
//! and a context-sensitive footer — and never mutates the state. The terminal
//! layer only turns the frame model into widgets.

use crate::app::App;
use crate::model::{AppState, AuditResult, Issue, Metrics, Severity};
use vstd::prelude::*;
use vstd::string::StringExecFns;

verus! {

/// Classification of a health score for the colored gauge.
#[derive(Clone, Copy, Debug, PartialEq, Eq, Structural)]
pub enum HealthLevel {
    Healthy,
    Caution,
    Critical,
}

/// The level a health score falls in: ninety and above is healthy, seventy
/// up to eighty-nine is caution, anything below seventy is critical.
pub open spec fn spec_health_level(score: int) -> HealthLevel {
    if score >= 90 {
        HealthLevel::Healthy
    } else if score >= 70 {
        HealthLevel::Caution
    } else {
        HealthLevel::Critical
    }
}

/// Classifies a health score, with the exact boundaries at ninety and
/// seventy.
pub fn health_level(score: usize) -> (r: HealthLevel)
    ensures
        r == spec_health_level(score as int),
        r is Healthy <==> score >= 90,
        r is Caution <==> 70 <= score < 90,
        r is Critical <==> score < 70,
{
    if score >= 90 {
        HealthLevel::Healthy
    } else if score >= 70 {
        HealthLevel::Caution
    } else {
        HealthLevel::Critical
    }
}

/// Key-binding help shown in the footer: the full navigation help once the
/// run is complete, a please-wait notice before that.
#[derive(Clone, Copy, Debug, PartialEq, Eq, Structural)]
pub enum FooterHelp {
    Navigation,
    Waiting,
}

/// One row of the issue list: the issue's severity (which keys the icon),
/// its labels, and whether it is the highlighted row.
#[derive(Debug)]
pub struct IssueLine {
    pub severity: Severity,
    pub category: String,
    pub title: String,
    pub selected: bool,
}

/// The detail panel of the selected issue.
#[derive(Debug)]
pub struct IssueDetail {
    pub severity: Severity,
    pub description: String,
    pub affected_pages: Vec<String>,
    pub recommendation: String,
}

/// Body of the tab selected in the result view.
#[derive(Debug)]
pub enum TabView {
    Overview { metrics: Metrics, health: HealthLevel, health_percent: usize },
    Issues {
        lines: Vec<IssueLine>,
        selected_issue: usize,
        total: usize,
        detail: Option<IssueDetail>,
        scroll_offset: usize,
    },
    Analysis { text: String },
    Empty,
}

/// The content band of the frame, one variant per lifecycle phase; `Blank`
/// stands for a completed run that never delivered a result.
#[derive(Debug)]
pub enum ContentModel {
    Loading,
    Progress { percent: usize, message: String },
    Tabs { selected_tab: usize, body: TabView },
    Blank,
    Failure { message: String },
}

/// One drawn frame: the header subtitle naming the audited URL, the content
/// band, and the footer help.
#[derive(Debug)]
pub struct FrameModel {
    pub subtitle: String,
    pub content: ContentModel,
    pub footer: FooterHelp,
}

/// A list row faithfully shows one issue and whether it is selected.
pub open spec fn spec_issue_line(line: IssueLine, issue: Issue, selected: bool) -> bool {
    &&& line.severity == issue.severity
    &&& line.category@ == issue.category@
    &&& line.title@ == issue.title@
    &&& line.selected == selected
}

/// The detail panel faithfully shows one issue.
pub open spec fn spec_issue_detail(d: IssueDetail, issue: Issue) -> bool {
    &&& d.severity == issue.severity
    &&& d.description@ == issue.description@
    &&& d.affected_pages@.len() == issue.affected_pages@.len()
    &&& forall|i: int|
        0 <= i < issue.affected_pages@.len() ==> d.affected_pages@[i]@
            == issue.affected_pages@[i]@
    &&& d.recommendation@ == issue.recommendation@
}

/// The analysis tab shows the stored narrative, or the fixed placeholder
/// where none was delivered.
pub open spec fn spec_analysis_text(t: Seq<char>, analysis: Option<String>) -> bool {
    match analysis {
        Some(a) => t == a@,
        None => t
            == "No analysis available yet. Run the AI-powered audit for detailed insights."@,
    }
}

/// The tab body belongs to the selected tab and faithfully shows the result:
/// the overview carries the metrics and the classified health score, the
/// issue tab lists every issue with the selection highlighted and details the
/// selected one, the analysis tab carries the narrative or its placeholder.
pub open spec fn spec_tab_view(body: TabView, app: App, r: AuditResult) -> bool {
    if app.selected_tab == 0 {
        body matches TabView::Overview { metrics, health, health_percent } && metrics == r.metrics
            && health == spec_health_level(r.metrics.health_score as int) && health_percent == (
        if r.metrics.health_score > 100 {
            100int
        } else {
            r.metrics.health_score as int
        })
    } else if app.selected_tab == 1 {
        body matches TabView::Issues { lines, selected_issue, total, detail, scroll_offset }
            && lines@.len() == r.issues@.len() && (forall|i: int|
            0 <= i < r.issues@.len() ==> spec_issue_line(
                lines@[i],
                r.issues@[i],
                i == app.selected_issue,
            )) && selected_issue == app.selected_issue && total == r.issues@.len()
            && scroll_offset == app.scroll_offset && (if app.selected_issue < r.issues@.len() {
            detail matches Some(d) && spec_issue_detail(d, r.issues@[app.selected_issue as int])
        } else {
            detail is None
        })
    } else if app.selected_tab == 2 {
        body matches TabView::Analysis { text } && spec_analysis_text(text@, r.analysis)
    } else {
        body is Empty
    }
}

/// Copies a list of page identifiers for the detail panel.
fn clone_pages(v: &Vec<String>) -> (r: Vec<String>)
    ensures
        r@.len() == v@.len(),
        forall|i: int| 0 <= i < v@.len() ==> r@[i]@ == v@[i]@,
{
    let mut r: Vec<String> = Vec::new();
    let mut i: usize = 0;
    while i < v.len()
        invariant
            i <= v@.len(),
            r@.len() == i,
            forall|j: int| 0 <= j < i ==> r@[j]@ == v@[j]@,
        decreases v@.len() - i,
    {
        r.push(v[i].clone());
        i = i + 1;
    }
    r
}

/// Builds the overview tab: the metrics table and the health gauge, colored
/// by the classified score and clamped to a drawable percentage.
pub fn overview_view(m: &Metrics) -> (body: TabView)
    ensures
        body matches TabView::Overview { metrics, health, health_percent } && metrics == *m
            && health == spec_health_level(m.health_score as int) && health_percent == (
        if m.health_score > 100 {
            100int
        } else {
            m.health_score as int
        }),
{
    TabView::Overview {
        metrics: *m,
        health: health_level(m.health_score),
        health_percent: if m.health_score > 100 {
            100
        } else {
            m.health_score
        },
    }
}

/// Builds the issue tab: every issue as one list row with the selected row
/// highlighted, and the detail panel of the selected issue, if the selection
/// is in range.
pub fn issues_view(r: &AuditResult, selected: usize, scroll: usize) -> (body: TabView)
    ensures
        body matches TabView::Issues {
            lines,
            selected_issue,
            total,
            detail,
            scroll_offset,
        } && lines@.len() == r.issues@.len() && (forall|i: int|
            0 <= i < r.issues@.len() ==> spec_issue_line(
                lines@[i],
                r.issues@[i],
                i == selected,
            )) && selected_issue == selected && total == r.issues@.len() && scroll_offset == scroll
            && (if selected < r.issues@.len() {
            detail matches Some(d) && spec_issue_detail(d, r.issues@[selected as int])
        } else {
            detail is None
        }),
{
    let mut lines: Vec<IssueLine> = Vec::new();
    let mut i: usize = 0;
    while i < r.issues.len()
        invariant
            i <= r.issues@.len(),
            lines@.len() == i,
            forall|j: int|
                0 <= j < i ==> spec_issue_line(lines@[j], r.issues@[j], j == selected),
        decreases r.issues@.len() - i,
    {
        let issue = &r.issues[i];
        lines.push(
            IssueLine {
                severity: issue.severity,
                category: issue.category.clone(),
                title: issue.title.clone(),
                selected: i == selected,
            },
        );
        i = i + 1;
    }
    let detail: Option<IssueDetail> = if selected < r.issues.len() {
        let issue = &r.issues[selected];
        Some(
            IssueDetail {
                severity: issue.severity,
                description: issue.description.clone(),
                affected_pages: clone_pages(&issue.affected_pages),
                recommendation: issue.recommendation.clone(),
            },
        )
    } else {
        None
    };
    TabView::Issues {
        lines,
        selected_issue: selected,
        total: r.issues.len(),
        detail,
        scroll_offset: scroll,
    }
}

/// Builds the analysis tab: the narrative, or the fixed placeholder.
pub fn analysis_view(r: &AuditResult) -> (body: TabView)
    ensures
        body matches TabView::Analysis { text } && spec_analysis_text(text@, r.analysis),
{
    let text: String = match &r.analysis {
        Some(a) => a.clone(),
        None => "No analysis available yet. Run the AI-powered audit for detailed insights."
            .to_owned(),
    };
    TabView::Analysis { text }
}

/// Draws one frame from the full application state: the header names the
/// audited URL; the content band follows the lifecycle phase — the loading
/// panel, the progress gauge with the latest message, the tabbed result view,
/// a blank panel for a completed run without a result, or the error panel;
/// the footer shows the navigation help exactly when the run is complete.
pub fn draw(app: &App) -> (f: FrameModel)
    ensures
        f.subtitle@ == "Analyzing: "@ + app.url@,
        f.footer is Navigation <==> app.state is Complete,
        app.state is Loading ==> f.content is Loading,
        app.state matches AppState::Running { progress, message } ==> f.content
            matches ContentModel::Progress { percent, message: m } && m@ == message@ && percent
            == (if progress > 100 {
            100int
        } else {
            progress as int
        }),
        app.state is Complete && app.result is None ==> f.content is Blank,
        app.state is Complete ==> (app.result matches Some(r) ==> f.content
            matches ContentModel::Tabs { selected_tab, body } && selected_tab == app.selected_tab
            && spec_tab_view(body, *app, r)),
        app.state matches AppState::Error(e) ==> f.content matches ContentModel::Failure {
            message,
        } && message@ == e@,
{
    let subtitle = "Analyzing: ".to_owned().concat(app.url.as_str());
    let footer = match &app.state {
        AppState::Complete => FooterHelp::Navigation,
        _ => FooterHelp::Waiting,
    };
    let content = match &app.state {
        AppState::Loading => ContentModel::Loading,
        AppState::Running { progress, message } => ContentModel::Progress {
            percent: if *progress > 100 {
                100
            } else {
                *progress
            },
            message: message.clone(),
        },
        AppState::Complete => {
            match &app.result {
                Some(r) => {
                    let body = if app.selected_tab == 0 {
                        overview_view(&r.metrics)
                    } else if app.selected_tab == 1 {
                        issues_view(r, app.selected_issue, app.scroll_offset)
                    } else if app.selected_tab == 2 {
                        analysis_view(r)
                    } else {
                        TabView::Empty
                    };
                    ContentModel::Tabs { selected_tab: app.selected_tab, body }
                },
                None => ContentModel::Blank,
            }
        },
        AppState::Error(e) => ContentModel::Failure { message: e.clone() },
    };
    FrameModel { subtitle, content, footer }
}

} // verus!
