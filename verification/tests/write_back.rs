//! Planning and running the writes to the repository.

use workflow_orchestrator::dispatcher_core::{Agent, Assignment};
use workflow_orchestrator::write_back::{plan_write_backs, write_backs_for, WriteBack, WriteBackRun};

fn assignment(issue_number: u64, agent: Agent) -> Assignment {
    Assignment {
        issue_number,
        issue_title: format!("issue {}", issue_number),
        agent,
        risk_score: 0,
        reason: "Round-robin distribution".to_string(),
    }
}

fn label(issue_number: u64, label: &str) -> WriteBack {
    WriteBack::AddLabel { issue_number, label: label.to_string() }
}

fn assign(issue_number: u64, assignee: &str) -> WriteBack {
    WriteBack::Assign { issue_number, assignee: assignee.to_string() }
}

#[test]
fn writes_for_each_agent() {
    assert_eq!(
        write_backs_for(&assignment(7, Agent::Copilot)),
        vec![label(7, "copilot"), assign(7, "Copilot")]
    );
    assert_eq!(write_backs_for(&assignment(8, Agent::Jules)), vec![label(8, "jules")]);
}

#[test]
fn plan_follows_the_assignments() {
    let assignments = vec![
        assignment(1, Agent::Copilot),
        assignment(2, Agent::Jules),
        assignment(3, Agent::Copilot),
    ];
    assert_eq!(
        plan_write_backs(&assignments, false),
        vec![
            label(1, "copilot"),
            assign(1, "Copilot"),
            label(2, "jules"),
            label(3, "copilot"),
            assign(3, "Copilot"),
        ]
    );
    assert!(plan_write_backs(&Vec::new(), false).is_empty());
}

#[test]
fn dry_run_writes_nothing() {
    let assignments = vec![assignment(1, Agent::Copilot), assignment(2, Agent::Jules)];
    assert!(plan_write_backs(&assignments, true).is_empty());
    assert!(plan_write_backs(&Vec::new(), true).is_empty());
}

#[test]
fn a_failed_write_does_not_stop_the_run() {
    let plan = vec![label(1, "copilot"), assign(1, "Copilot"), label(2, "jules")];
    let mut run = WriteBackRun::new(plan.clone());
    let mut tried = Vec::new();
    let outcomes = [true, false, true];
    let mut step = 0;
    while let Some(write) = run.next().cloned() {
        tried.push(write);
        run = run.record(outcomes[step]);
        step += 1;
    }
    assert_eq!(tried, plan);
    assert!(run.is_finished());
    assert_eq!(run.failed_positions(), vec![1]);
    // nothing more is recorded once the plan is through
    let run = run.record(false);
    assert!(run.is_finished());
    assert_eq!(run.next(), None);
    assert_eq!(run.failed_positions(), vec![1]);
}

#[test]
fn run_over_an_empty_plan_is_finished() {
    let run = WriteBackRun::new(Vec::new());
    assert!(run.is_finished());
    assert_eq!(run.next(), None);
    assert!(run.failed_positions().is_empty());
    let run = WriteBackRun::new(vec![label(1, "jules"), label(2, "jules")]);
    assert!(!run.is_finished());
    assert_eq!(run.next(), Some(&label(1, "jules")));
    let run = run.record(false).record(false);
    assert_eq!(run.failed_positions(), vec![0, 1]);
}
