//! The figures behind a report on workflow runs.

use workflow_orchestrator::reporter::{
    comes_after, created_after, read_after, runs_since, summarize, Moment, RunSummary,
};
use workflow_orchestrator::runs::{WorkflowAnalysis, WorkflowRun};

fn run(id: u64, conclusion: Option<&str>, created_at: &str) -> WorkflowRun {
    WorkflowRun {
        id,
        name: format!("run {}", id),
        status: "completed".to_string(),
        conclusion: conclusion.map(|c| c.to_string()),
        created_at: created_at.to_string(),
        html_url: format!("https://example.org/runs/{}", id),
    }
}

fn analysis(id: u64, conclusion: Option<&str>, duration_seconds: Option<i64>) -> WorkflowAnalysis {
    WorkflowAnalysis {
        run: run(id, conclusion, "2024-01-01T00:00:00Z"),
        jobs: Vec::new(),
        duration_seconds,
        errors: Vec::new(),
        warnings: Vec::new(),
    }
}

fn at(seconds: i64, nanos: u32) -> Moment {
    Moment { seconds, nanos }
}

#[test]
fn moments_are_ordered_by_seconds_then_nanos() {
    assert!(comes_after(at(2, 0), at(1, 999)));
    assert!(comes_after(at(1, 5), at(1, 4)));
    assert!(!comes_after(at(1, 5), at(1, 5)));
    assert!(!comes_after(at(1, 5), at(2, 0)));
    assert!(comes_after(at(-1, 0), at(-2, 999_999_999)));
    assert!(read_after(Some(at(2, 0)), at(1, 0)));
    assert!(!read_after(Some(at(1, 0)), at(1, 0)));
    assert!(!read_after(None, at(i64::MIN, 0)));
}

#[test]
fn creation_times_are_read_as_rfc3339() {
    // 2015-05-15T00:00:00Z is 1431648000 seconds after the start of 1970
    assert!(created_after("2015-05-15T00:00:00Z", at(1431647999, 999_999_999)));
    assert!(!created_after("2015-05-15T00:00:00Z", at(1431648000, 0)));
    assert!(created_after("2015-05-15T00:00:00.5Z", at(1431648000, 499_999_999)));
    assert!(!created_after("2015-05-15T00:00:00.5Z", at(1431648000, 500_000_000)));
    // the offset is taken into account
    assert!(created_after("2015-05-15T02:00:00+02:00", at(1431647999, 0)));
    assert!(!created_after("2015-05-15T02:00:00+02:00", at(1431648000, 0)));
    // what cannot be read is never recent
    assert!(!created_after("yesterday", at(i64::MIN, 0)));
    assert!(!created_after("", at(i64::MIN, 0)));
    assert!(!created_after("2015-05-15", at(i64::MIN, 0)));
}

#[test]
fn runs_since_keeps_recent_runs_in_order() {
    let runs = vec![
        run(1, Some("success"), "2024-03-01T12:00:00Z"),
        run(2, Some("failure"), "2024-02-01T12:00:00Z"),
        run(3, None, "not a date"),
        run(4, Some("success"), "2024-03-02T12:00:00Z"),
    ];
    // 2024-02-15T00:00:00Z
    let recent = runs_since(&runs, at(1707955200, 0));
    assert_eq!(recent.iter().map(|r| r.id).collect::<Vec<u64>>(), vec![1, 4]);
    assert_eq!(recent[0].name, "run 1");
    assert_eq!(recent[0].conclusion, Some("success".to_string()));
    assert_eq!(recent[1].created_at, "2024-03-02T12:00:00Z");
    assert_eq!(recent[1].html_url, "https://example.org/runs/4");
    assert!(runs_since(&runs, at(i64::MAX, 0)).is_empty());
    assert_eq!(runs_since(&runs, at(0, 0)).len(), 3);
    assert!(runs_since(&[], at(0, 0)).is_empty());
}

#[test]
fn summary_counts_conclusions() {
    let analyses = vec![
        analysis(1, Some("success"), Some(100)),
        analysis(2, Some("failure"), Some(50)),
        analysis(3, Some("cancelled"), None),
        analysis(4, Some("success"), Some(11)),
        analysis(5, None, Some(0)),
        analysis(6, Some("Success"), None),
    ];
    assert_eq!(
        summarize(&analyses),
        RunSummary {
            total: 6,
            successful: 2,
            failed: 1,
            cancelled: 1,
            average_duration_seconds: 26,
        }
    );
}

#[test]
fn summary_of_no_runs_and_of_extremes() {
    assert_eq!(
        summarize(&[]),
        RunSummary {
            total: 0,
            successful: 0,
            failed: 0,
            cancelled: 0,
            average_duration_seconds: 0,
        }
    );
    let long = vec![analysis(1, None, Some(i64::MAX)), analysis(2, None, Some(i64::MAX))];
    assert_eq!(summarize(&long).average_duration_seconds, i64::MAX);
    let negative = vec![analysis(1, None, Some(-7)), analysis(2, None, Some(0))];
    assert_eq!(summarize(&negative).average_duration_seconds, -3);
    let lowest = vec![analysis(1, None, Some(i64::MIN))];
    assert_eq!(summarize(&lowest).average_duration_seconds, i64::MIN);
}
