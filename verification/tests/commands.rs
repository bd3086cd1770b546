//! The decisions behind the command line.

use workflow_orchestrator::commands::git::{git_arguments, GitArgs, GitCommands};
use workflow_orchestrator::commands::issue::{
    join, labels_tag, parse_repo_from_url, IssueArgs, IssueCommands, RepoUrlError,
};

fn repo(owner: &str, name: &str) -> Result<(String, String), RepoUrlError> {
    Ok((owner.to_string(), name.to_string()))
}

fn no_repo(url: &str) -> Result<(String, String), RepoUrlError> {
    Err(RepoUrlError { url: url.to_string() })
}

#[test]
fn git_status_and_log_arguments() {
    let args = GitArgs { command: GitCommands::Status };
    assert_eq!(git_arguments(&args.command), vec!["status".to_string()]);
    assert_eq!(
        git_arguments(&GitCommands::Log { limit: 5 }),
        vec!["log".to_string(), "--oneline".to_string(), "-5".to_string()]
    );
    assert_eq!(git_arguments(&GitCommands::Log { limit: 0 })[2], "-0");
    assert_eq!(git_arguments(&GitCommands::Log { limit: 120 })[2], "-120");
}

#[test]
fn repo_from_https_address() {
    assert_eq!(parse_repo_from_url("https://github.com/owner/repo.git"), repo("owner", "repo"));
    assert_eq!(parse_repo_from_url("https://github.com/owner/repo"), repo("owner", "repo"));
    assert_eq!(parse_repo_from_url("  https://github.com/o/r.git\n"), repo("o", "r"));
    assert_eq!(parse_repo_from_url("https://github.com/o/r/tree/main"), repo("o", "r"));
    assert_eq!(parse_repo_from_url("https://github.com/o/r.git.git"), repo("o", "r"));
    assert_eq!(parse_repo_from_url("https://github.com/o/"), repo("o", ""));
    assert_eq!(parse_repo_from_url("github.com/o/r"), repo("o", "r"));
}

#[test]
fn repo_from_ssh_address() {
    assert_eq!(parse_repo_from_url("git@github.com:owner/repo.git"), repo("owner", "repo"));
    assert_eq!(parse_repo_from_url("git@example.org:team/tool"), repo("team", "tool"));
    assert_eq!(parse_repo_from_url("git@github.com:a/b:c/d"), repo("a", "b"));
    assert_eq!(parse_repo_from_url("\tgit@github.com:a/b.git  "), repo("a", "b"));
}

#[test]
fn repo_from_unreadable_address() {
    assert_eq!(
        parse_repo_from_url("https://github.com/owner"),
        no_repo("https://github.com/owner")
    );
    assert_eq!(parse_repo_from_url("git@github.com"), no_repo("git@github.com"));
    assert_eq!(parse_repo_from_url("git@github.com:owner"), no_repo("git@github.com:owner"));
    assert_eq!(
        parse_repo_from_url("https://gitlab.com/owner/repo"),
        no_repo("https://gitlab.com/owner/repo")
    );
    assert_eq!(parse_repo_from_url(""), no_repo(""));
    assert_eq!(parse_repo_from_url("  nothing  "), no_repo("nothing"));
    // a second host name ends the part that is read
    assert_eq!(
        parse_repo_from_url("https://github.com/ogithub.com/x/y"),
        no_repo("https://github.com/ogithub.com/x/y")
    );
    let error = parse_repo_from_url(" x ").unwrap_err();
    assert_eq!(error.message(), "Could not parse repo from URL: x");
}

#[test]
fn issue_assignee_filter() {
    let named = IssueArgs {
        command: IssueCommands::List {
            state: "open".to_string(),
            assignee: Some("alice".to_string()),
            assigned_to_me: false,
            limit: 10,
        },
    };
    assert!(!named.command.asks_for_current_user());
    assert_eq!(named.command.assignee_filter("bob"), Some("alice".to_string()));
    let mine = IssueCommands::List {
        state: "open".to_string(),
        assignee: Some("alice".to_string()),
        assigned_to_me: true,
        limit: 10,
    };
    assert!(mine.asks_for_current_user());
    assert_eq!(mine.assignee_filter("bob"), Some("bob".to_string()));
    let anyone = IssueCommands::List {
        state: "all".to_string(),
        assignee: None,
        assigned_to_me: false,
        limit: 1,
    };
    assert_eq!(anyone.assignee_filter("bob"), None);
}

#[test]
fn labels_are_joined_and_bracketed() {
    let none: Vec<String> = Vec::new();
    assert_eq!(join(&none, ", "), "");
    assert_eq!(join(&vec!["a".to_string()], ", "), "a");
    assert_eq!(join(&vec!["a".to_string(), "b".to_string(), "c".to_string()], ", "), "a, b, c");
    assert_eq!(labels_tag(&none), "");
    assert_eq!(labels_tag(&vec!["bug".to_string()]), "[bug]");
    assert_eq!(labels_tag(&vec!["bug".to_string(), "ui".to_string()]), "[bug, ui]");
    assert_eq!(labels_tag(&vec![String::new()]), "");
    assert_eq!(labels_tag(&vec![String::new(), String::new()]), "[, ]");
}
