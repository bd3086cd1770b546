//! Strategy parsing, agents, risk scoring and assignment.

use workflow_orchestrator::dispatcher_core::{
    agent_for_slot, agent_for_toss, label_risk_points, text_risk_points, Agent, DispatcherCore,
    InvalidStrategy, Issue, Strategy,
};

fn dispatcher() -> DispatcherCore {
    DispatcherCore::new("owner".to_string(), "repo".to_string())
}

fn issue(number: u64, title: &str, body: Option<&str>, labels: &[&str]) -> Issue {
    Issue {
        number,
        title: title.to_string(),
        body: body.map(|text| text.to_string()),
        labels: labels.iter().map(|label| label.to_string()).collect(),
    }
}

#[test]
fn test_strategy_from_str() {
    assert_eq!("round-robin".parse::<Strategy>().unwrap(), Strategy::RoundRobin);
    assert_eq!("random".parse::<Strategy>().unwrap(), Strategy::Random);
    assert_eq!("copilot-only".parse::<Strategy>().unwrap(), Strategy::CopilotOnly);
    assert_eq!("jules-only".parse::<Strategy>().unwrap(), Strategy::JulesOnly);
    assert!("invalid".parse::<Strategy>().is_err());
}

#[test]
fn test_agent_labels() {
    assert_eq!(Agent::Copilot.label(), "copilot");
    assert_eq!(Agent::Jules.label(), "jules");
}

#[test]
fn test_risk_analysis() {
    let dispatcher = dispatcher();

    let issue = Issue {
        number: 1,
        title: "Security vulnerability in auth".to_string(),
        body: Some("Critical security issue".to_string()),
        labels: vec!["security".to_string(), "bug".to_string()],
    };

    let risk = dispatcher.analyze_risk(&issue);
    assert!(risk >= 60, "High-risk issue should have risk >= 60");
    assert_eq!(risk, 60);
}

#[test]
fn strategy_names_in_any_case() {
    assert_eq!(Strategy::parse("ROUND-ROBIN"), Ok(Strategy::RoundRobin));
    assert_eq!(Strategy::parse("roundrobin"), Ok(Strategy::RoundRobin));
    assert_eq!(Strategy::parse("RoundRobin"), Ok(Strategy::RoundRobin));
    assert_eq!(Strategy::parse("Random"), Ok(Strategy::Random));
    assert_eq!(Strategy::parse("copilot"), Ok(Strategy::CopilotOnly));
    assert_eq!(Strategy::parse("Copilot-Only"), Ok(Strategy::CopilotOnly));
    assert_eq!(Strategy::parse("JULES"), Ok(Strategy::JulesOnly));
    assert_eq!(Strategy::parse("jules-only"), Ok(Strategy::JulesOnly));
}

#[test]
fn strategy_unknown_names_come_back() {
    assert_eq!(
        Strategy::parse("bogus"),
        Err(InvalidStrategy { input: "bogus".to_string() })
    );
    assert_eq!(
        Strategy::parse("Round Robin"),
        Err(InvalidStrategy { input: "Round Robin".to_string() })
    );
    assert_eq!(Strategy::parse(""), Err(InvalidStrategy { input: String::new() }));
    assert_eq!(
        Strategy::parse(" random"),
        Err(InvalidStrategy { input: " random".to_string() })
    );
    let error = "bogus".parse::<Strategy>().unwrap_err();
    assert_eq!(error.message(), "Invalid strategy: bogus");
}

#[test]
fn strategy_from_lowercase_name_is_exact() {
    assert_eq!(Strategy::from_lowercase_name("round-robin"), Some(Strategy::RoundRobin));
    assert_eq!(Strategy::from_lowercase_name("ROUND-ROBIN"), None);
    assert_eq!(Strategy::from_lowercase_name("jules"), Some(Strategy::JulesOnly));
    assert_eq!(Strategy::from_lowercase_name("jules-"), None);
}

#[test]
fn agent_assignees() {
    assert_eq!(Agent::Copilot.assignee(), Some("Copilot"));
    assert_eq!(Agent::Jules.assignee(), None);
}

#[test]
fn strategy_reasons() {
    assert_eq!(Strategy::RoundRobin.reason(), "Round-robin distribution");
    assert_eq!(Strategy::Random.reason(), "Random selection");
    assert_eq!(Strategy::CopilotOnly.reason(), "Copilot-only mode");
    assert_eq!(Strategy::JulesOnly.reason(), "Jules-only mode");
}

#[test]
fn label_points() {
    assert_eq!(label_risk_points("security"), 30);
    assert_eq!(label_risk_points("breaking-change"), 30);
    assert_eq!(label_risk_points("critical"), 30);
    assert_eq!(label_risk_points("bug"), 10);
    assert_eq!(label_risk_points("security-bug"), 40);
    assert_eq!(label_risk_points("critical security breaking"), 30);
    assert_eq!(label_risk_points("enhancement"), 0);
    assert_eq!(label_risk_points(""), 0);
    // the caller lowers the case
    assert_eq!(label_risk_points("Security"), 0);
}

#[test]
fn text_points() {
    assert_eq!(text_risk_points("fix auth flow"), 20);
    assert_eq!(text_risk_points("auth security crypto"), 20);
    assert_eq!(text_risk_points("refactor the parser"), 10);
    assert_eq!(text_risk_points("migration and refactor"), 10);
    assert_eq!(text_risk_points("crypto migration"), 30);
    assert_eq!(text_risk_points("typo in readme"), 0);
    assert_eq!(text_risk_points(""), 0);
}

#[test]
fn risk_adds_labels_and_text() {
    let dispatcher = dispatcher();
    assert_eq!(dispatcher.analyze_risk(&issue(1, "Typo", None, &[])), 0);
    assert_eq!(dispatcher.analyze_risk(&issue(1, "Typo", None, &["bug"])), 10);
    assert_eq!(dispatcher.analyze_risk(&issue(1, "Typo", None, &["Security"])), 30);
    assert_eq!(dispatcher.analyze_risk(&issue(1, "Typo", None, &["BUG", "Breaking"])), 40);
    assert_eq!(dispatcher.analyze_risk(&issue(1, "Refactor AUTH", None, &[])), 30);
    assert_eq!(dispatcher.analyze_risk(&issue(1, "Typo", Some("Crypto MIGRATION"), &[])), 30);
    // every label counts, the text counts once per kind
    assert_eq!(
        dispatcher.analyze_risk(&issue(1, "auth auth", Some("security"), &["security", "critical"])),
        80
    );
}

#[test]
fn risk_is_capped() {
    let dispatcher = dispatcher();
    let many = ["security", "breaking", "critical", "security-bug"];
    assert_eq!(dispatcher.analyze_risk(&issue(1, "x", None, &many)), 100);
    let heaps = ["security-bug"; 40];
    assert_eq!(dispatcher.analyze_risk(&issue(1, "auth refactor", Some("x"), &heaps)), 100);
    let nine = ["critical"; 9];
    assert_eq!(dispatcher.analyze_risk(&issue(1, "x", None, &nine)), 100);
}

#[test]
fn risk_reads_title_and_body_as_one_text() {
    let dispatcher = dispatcher();
    assert_eq!(dispatcher.analyze_risk(&issue(1, "needs au", Some("th fix"), &[])), 20);
    assert_eq!(dispatcher.analyze_risk(&issue(1, "needs au", None, &[])), 0);
}

#[test]
fn slots_alternate_from_copilot() {
    assert_eq!(agent_for_slot(0), Agent::Copilot);
    assert_eq!(agent_for_slot(1), Agent::Jules);
    assert_eq!(agent_for_slot(2), Agent::Copilot);
    assert_eq!(agent_for_slot(usize::MAX), Agent::Jules);
    assert_eq!(agent_for_toss(true), Agent::Copilot);
    assert_eq!(agent_for_toss(false), Agent::Jules);
}

#[test]
fn round_robin_alternates_over_sequential_calls() {
    let dispatcher = dispatcher();
    let any = issue(1, "x", None, &[]);
    for call in 0..10 {
        let agent = dispatcher.select_agent(Strategy::RoundRobin, &any, 0);
        let expected = if call % 2 == 0 { Agent::Copilot } else { Agent::Jules };
        assert_eq!(agent, expected);
    }
}

#[test]
fn round_robin_counter_is_untouched_by_other_strategies() {
    let dispatcher = dispatcher();
    let any = issue(1, "x", None, &[]);
    assert_eq!(dispatcher.select_agent(Strategy::RoundRobin, &any, 0), Agent::Copilot);
    for _ in 0..3 {
        assert_eq!(dispatcher.select_agent(Strategy::CopilotOnly, &any, 90), Agent::Copilot);
        assert_eq!(dispatcher.select_agent(Strategy::JulesOnly, &any, 90), Agent::Jules);
        let _ = dispatcher.select_agent(Strategy::Random, &any, 90);
    }
    assert_eq!(dispatcher.select_agent(Strategy::RoundRobin, &any, 0), Agent::Jules);
    assert_eq!(dispatcher.claim_slot(), 2);
    assert_eq!(dispatcher.claim_slot(), 3);
}

#[test]
fn random_picks_both_agents() {
    let dispatcher = dispatcher();
    let any = issue(1, "x", None, &[]);
    let mut copilot = 0;
    let mut jules = 0;
    for _ in 0..400 {
        match dispatcher.select_agent(Strategy::Random, &any, 0) {
            Agent::Copilot => copilot += 1,
            Agent::Jules => jules += 1,
        }
    }
    assert_eq!(copilot + jules, 400);
    assert!(copilot > 0 && jules > 0);
}

#[test]
fn assignment_describes_the_issue() {
    let dispatcher = dispatcher();
    let risky = issue(42, "Security vulnerability in auth", Some("Critical"), &["security", "bug"]);
    let assignment = dispatcher.analyze_and_assign(&risky, Strategy::JulesOnly);
    assert_eq!(assignment.issue_number, 42);
    assert_eq!(assignment.issue_title, "Security vulnerability in auth");
    assert_eq!(assignment.agent, Agent::Jules);
    assert_eq!(assignment.risk_score, 60);
    assert_eq!(assignment.reason, "Jules-only mode");
    let assignment = dispatcher.analyze_and_assign(&risky, Strategy::CopilotOnly);
    assert_eq!(assignment.agent, Agent::Copilot);
    assert_eq!(assignment.reason, "Copilot-only mode");
}

#[test]
fn assign_issues_keeps_order_and_limit() {
    let dispatcher = dispatcher();
    let issues = vec![
        issue(7, "first", None, &[]),
        issue(3, "second", None, &["bug"]),
        issue(9, "third", Some("auth"), &[]),
    ];
    let all = dispatcher.assign_issues(Strategy::RoundRobin, 5, &issues);
    assert_eq!(all.len(), 3);
    assert_eq!(
        all.iter().map(|a| a.issue_number).collect::<Vec<u64>>(),
        vec![7, 3, 9]
    );
    assert_eq!(
        all.iter().map(|a| a.agent).collect::<Vec<Agent>>(),
        vec![Agent::Copilot, Agent::Jules, Agent::Copilot]
    );
    assert_eq!(all.iter().map(|a| a.risk_score).collect::<Vec<u8>>(), vec![0, 10, 20]);
    assert!(all.iter().all(|a| a.reason == "Round-robin distribution"));

    let two = dispatcher.assign_issues(Strategy::RoundRobin, 2, &issues);
    assert_eq!(two.len(), 2);
    assert_eq!(two[0].issue_title, "first");
    // the rotation goes on where the last batch left it
    assert_eq!(two[0].agent, Agent::Jules);
    assert_eq!(two[1].agent, Agent::Copilot);

    assert!(dispatcher.assign_issues(Strategy::Random, 0, &issues).is_empty());
    assert!(dispatcher.assign_issues(Strategy::Random, 5, &Vec::new()).is_empty());
}

#[test]
fn high_risk_threshold_is_kept() {
    assert_eq!(dispatcher().high_risk_threshold(), 70);
    assert_eq!(dispatcher().with_risk_threshold(55).high_risk_threshold(), 55);
    // the rotation is carried over
    let used = dispatcher();
    assert_eq!(used.claim_slot(), 0);
    let tuned = used.with_risk_threshold(10);
    assert_eq!(tuned.claim_slot(), 1);
}
