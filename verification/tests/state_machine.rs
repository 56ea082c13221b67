use audit_dashboard::app::{App, KeyInput};
use audit_dashboard::model::{AppState, AuditResult, AuditUpdate, Issue, Metrics, Severity};
use audit_dashboard::progress_percent;

fn metrics(health_score: usize) -> Metrics {
    Metrics {
        pages_scanned: 10,
        total_issues: 6,
        critical_issues: 1,
        warnings: 2,
        info: 3,
        health_score,
    }
}

fn issue(title: &str, severity: Severity) -> Issue {
    Issue {
        severity,
        category: "Content".to_string(),
        title: title.to_string(),
        description: "details".to_string(),
        affected_pages: vec!["https://example.com/a".to_string()],
        recommendation: "fix it".to_string(),
    }
}

fn result_with_issues(n: usize, health_score: usize) -> AuditResult {
    let mut issues = Vec::new();
    for i in 0..n {
        issues.push(issue(&format!("issue {}", i), Severity::Warning));
    }
    AuditResult {
        url: "https://example.com".to_string(),
        timestamp: "2024-01-01T00:00:00+00:00".to_string(),
        metrics: metrics(health_score),
        issues,
        analysis: Some("narrative".to_string()),
    }
}

#[test]
fn progress_percent_is_truncated_ratio() {
    assert_eq!(progress_percent(0, 100), 0);
    assert_eq!(progress_percent(50, 200), 25);
    assert_eq!(progress_percent(1, 3), 33);
    assert_eq!(progress_percent(100, 100), 100);
}

#[test]
fn progress_percent_guards_division_and_range() {
    assert_eq!(progress_percent(0, 0), 0);
    assert_eq!(progress_percent(5, 0), 100);
    assert_eq!(progress_percent(200, 100), 100);
    assert_eq!(progress_percent(usize::MAX, 1), 100);
}

#[test]
fn new_app_starts_loading_at_origin() {
    let app = App::new("https://example.com".to_string());
    assert!(matches!(app.state, AppState::Loading));
    assert!(app.result.is_none());
    assert_eq!(app.selected_tab, 0);
    assert_eq!(app.selected_issue, 0);
    assert_eq!(app.scroll_offset, 0);
    assert!(!app.should_exit);
}

#[test]
fn progress_update_sets_running_percentage() {
    let mut app = App::new("https://example.com".to_string());
    app.handle_update(AuditUpdate::Progress {
        current: 30,
        total: 100,
        message: "crawling".to_string(),
    });
    match &app.state {
        AppState::Running { progress, message } => {
            assert_eq!(*progress, 30);
            assert_eq!(message, "crawling");
        }
        other => panic!("expected Running, got {:?}", other),
    }
}

#[test]
fn stale_progress_after_complete_is_ignored() {
    let mut app = App::new("https://example.com".to_string());
    app.handle_update(AuditUpdate::Result(result_with_issues(2, 80)));
    app.handle_update(AuditUpdate::Progress {
        current: 10,
        total: 100,
        message: "stale".to_string(),
    });
    assert!(matches!(app.state, AppState::Complete));
    assert_eq!(app.result.as_ref().unwrap().issues.len(), 2);
}

#[test]
fn stale_progress_after_error_is_ignored() {
    let mut app = App::new("https://example.com".to_string());
    app.handle_update(AuditUpdate::Error("boom".to_string()));
    app.handle_update(AuditUpdate::Progress {
        current: 10,
        total: 100,
        message: "stale".to_string(),
    });
    match &app.state {
        AppState::Error(e) => assert_eq!(e, "boom"),
        other => panic!("expected Error, got {:?}", other),
    }
}

#[test]
fn result_overrides_prior_error() {
    let mut app = App::new("https://example.com".to_string());
    app.handle_update(AuditUpdate::Error("transient".to_string()));
    app.handle_update(AuditUpdate::Result(result_with_issues(3, 90)));
    assert!(matches!(app.state, AppState::Complete));
    assert_eq!(app.result.as_ref().unwrap().issues.len(), 3);
    assert_eq!(app.result.as_ref().unwrap().metrics.health_score, 90);
}

#[test]
fn complete_signal_closes_running_phase() {
    let mut app = App::new("https://example.com".to_string());
    app.handle_update(AuditUpdate::Progress {
        current: 50,
        total: 100,
        message: "halfway".to_string(),
    });
    app.handle_update(AuditUpdate::Complete);
    assert!(matches!(app.state, AppState::Complete));
}

#[test]
fn complete_signal_after_terminal_phase_is_noop() {
    let mut app = App::new("https://example.com".to_string());
    app.handle_update(AuditUpdate::Result(result_with_issues(1, 50)));
    app.handle_update(AuditUpdate::Complete);
    assert!(matches!(app.state, AppState::Complete));

    let mut failed = App::new("https://example.com".to_string());
    failed.handle_update(AuditUpdate::Error("broken".to_string()));
    failed.handle_update(AuditUpdate::Complete);
    match &failed.state {
        AppState::Error(e) => assert_eq!(e, "broken"),
        other => panic!("expected Error, got {:?}", other),
    }
}

#[test]
fn issue_navigation_clamps_at_both_ends() {
    let mut app = App::new("https://example.com".to_string());
    app.handle_update(AuditUpdate::Result(result_with_issues(3, 80)));
    for _ in 0..5 {
        app.next_issue();
    }
    assert_eq!(app.selected_issue, 2);
    for _ in 0..5 {
        app.previous_issue();
    }
    assert_eq!(app.selected_issue, 0);
}

#[test]
fn issue_navigation_without_issues_is_noop() {
    let mut app = App::new("https://example.com".to_string());
    app.next_issue();
    app.previous_issue();
    assert_eq!(app.selected_issue, 0);

    app.handle_update(AuditUpdate::Result(result_with_issues(0, 80)));
    app.next_issue();
    app.previous_issue();
    assert_eq!(app.selected_issue, 0);
}

#[test]
fn tab_navigation_wraps_both_ways() {
    let mut app = App::new("https://example.com".to_string());
    assert_eq!(app.selected_tab, 0);
    app.previous_tab();
    assert_eq!(app.selected_tab, 2);
    app.next_tab();
    assert_eq!(app.selected_tab, 0);
    app.next_tab();
    app.next_tab();
    assert_eq!(app.selected_tab, 2);
    app.next_tab();
    assert_eq!(app.selected_tab, 0);
}

#[test]
fn selection_changes_reset_scroll() {
    let mut app = App::new("https://example.com".to_string());
    app.handle_update(AuditUpdate::Result(result_with_issues(3, 80)));

    app.scroll_down();
    app.scroll_down();
    assert_eq!(app.scroll_offset, 2);
    app.next_tab();
    assert_eq!(app.scroll_offset, 0);

    app.scroll_down();
    app.previous_tab();
    assert_eq!(app.scroll_offset, 0);

    app.scroll_down();
    app.next_issue();
    assert_eq!(app.scroll_offset, 0);

    app.scroll_down();
    app.previous_issue();
    assert_eq!(app.scroll_offset, 0);
}

#[test]
fn scroll_up_never_goes_below_zero() {
    let mut app = App::new("https://example.com".to_string());
    app.scroll_up();
    assert_eq!(app.scroll_offset, 0);
    app.scroll_down();
    app.scroll_up();
    app.scroll_up();
    assert_eq!(app.scroll_offset, 0);
}

#[test]
fn channel_closed_before_finish_becomes_error() {
    let mut app = App::new("https://example.com".to_string());
    app.handle_update(AuditUpdate::Progress {
        current: 10,
        total: 100,
        message: "crawling".to_string(),
    });
    app.handle_channel_closed();
    match &app.state {
        AppState::Error(e) => {
            assert_eq!(e, "update channel closed before the audit finished")
        }
        other => panic!("expected Error, got {:?}", other),
    }

    let mut done = App::new("https://example.com".to_string());
    done.handle_update(AuditUpdate::Result(result_with_issues(1, 80)));
    done.handle_channel_closed();
    assert!(matches!(done.state, AppState::Complete));
}

#[test]
fn key_inputs_drive_navigation_and_quit() {
    let mut app = App::new("https://example.com".to_string());
    app.handle_update(AuditUpdate::Result(result_with_issues(2, 80)));

    app.handle_key(KeyInput::NextIssue);
    assert_eq!(app.selected_issue, 1);
    app.handle_key(KeyInput::PreviousIssue);
    assert_eq!(app.selected_issue, 0);
    app.handle_key(KeyInput::NextTab);
    assert_eq!(app.selected_tab, 1);
    app.handle_key(KeyInput::PreviousTab);
    assert_eq!(app.selected_tab, 0);
    app.handle_key(KeyInput::ScrollDown);
    assert_eq!(app.scroll_offset, 1);
    app.handle_key(KeyInput::ScrollUp);
    assert_eq!(app.scroll_offset, 0);
    assert!(!app.should_exit);
    app.handle_key(KeyInput::Quit);
    assert!(app.should_exit);
}
