//! The step before dispatch: of the issues fetched from the repository,
//! only those that nobody has claimed yet go on to the dispatcher.

use vstd::prelude::*;
use crate::dispatcher_core::{Issue, IssueView};
use crate::text::{lowercase, text_is, to_lowercase};

verus! {

/// An open issue as the repository reports it.
#[derive(Debug, Clone)]
pub struct FetchedIssue {
    pub number: u64,
    pub title: String,
    pub body: Option<String>,
    pub labels: Vec<String>,
    pub assignees: Vec<String>,
}

/// A fetched issue as plain values.
pub struct FetchedIssueView {
    pub number: nat,
    pub title: Seq<char>,
    pub body: Option<Seq<char>>,
    pub labels: Seq<Seq<char>>,
    pub assignees: Seq<Seq<char>>,
}

impl DeepView for FetchedIssue {
    type V = FetchedIssueView;

    open spec fn deep_view(&self) -> FetchedIssueView {
        FetchedIssueView {
            number: self.number as nat,
            title: self.title@,
            body: self.body.deep_view(),
            labels: self.labels.deep_view(),
            assignees: self.assignees.deep_view(),
        }
    }
}

/// A label that, in lower case, is an agent's own.
pub open spec fn is_agent_label(lowered: Seq<char>) -> bool {
    lowered == "copilot"@ || lowered == "jules"@
}

/// One of the labels is an agent's, in whatever case it is written.
pub open spec fn has_agent_label(labels: Seq<Seq<char>>) -> bool {
    exists|i: int| 0 <= i < labels.len() && is_agent_label(lowercase(#[trigger] labels[i]))
}

/// Nobody has claimed the issue: it has no agent's label and no assignee.
pub open spec fn is_unclaimed(issue: FetchedIssueView) -> bool {
    !has_agent_label(issue.labels) && issue.assignees.len() == 0
}

/// What the dispatcher gets to see of a fetched issue.
pub open spec fn candidate(issue: FetchedIssueView) -> IssueView {
    IssueView { number: issue.number, title: issue.title, body: issue.body, labels: issue.labels }
}

/// The unclaimed issues among `fetched`, in their order, as candidates.
pub open spec fn unclaimed(fetched: Seq<FetchedIssueView>) -> Seq<IssueView>
    decreases fetched.len(),
{
    if fetched.len() == 0 {
        Seq::empty()
    } else {
        let earlier = unclaimed(fetched.drop_last());
        if is_unclaimed(fetched.last()) {
            earlier.push(candidate(fetched.last()))
        } else {
            earlier
        }
    }
}

/// Tests whether the lower-case label `lowered` is an agent's own.
pub fn names_agent(lowered: &str) -> (agent: bool)
    ensures
        agent == is_agent_label(lowered@),
{
    text_is(lowered, "copilot") || text_is(lowered, "jules")
}

/// Tests whether one of the labels is an agent's.
pub fn carries_agent_label(labels: &Vec<String>) -> (found: bool)
    ensures
        found == has_agent_label(labels.deep_view()),
{
    let mut i: usize = 0;
    while i < labels.len()
        invariant
            i <= labels.len(),
            forall|j: int|
                0 <= j < i ==> !is_agent_label(lowercase(#[trigger] labels.deep_view()[j])),
        decreases labels.len() - i,
    {
        let lowered = to_lowercase(labels[i].as_str());
        assert(labels.deep_view()[i as int] == labels@[i as int]@);
        if names_agent(lowered.as_str()) {
            return true;
        }
        i += 1;
    }
    false
}

impl FetchedIssue {
    /// Tests whether nobody has claimed this issue.
    pub fn is_unclaimed(&self) -> (free: bool)
        ensures
            free == is_unclaimed(self.deep_view()),
    {
        !carries_agent_label(&self.labels) && self.assignees.len() == 0
    }
}

/// Passes on the unclaimed issues among `fetched`, in their order.
pub fn unclaimed_issues(fetched: Vec<FetchedIssue>) -> (issues: Vec<Issue>)
    ensures
        issues.deep_view() == unclaimed(fetched.deep_view()),
{
    let ghost all = fetched.deep_view();
    let mut issues: Vec<Issue> = Vec::new();
    let mut i: usize = 0;
    while i < fetched.len()
        invariant
            i <= fetched.len(),
            all == fetched.deep_view(),
            issues.deep_view() == unclaimed(all.take(i as int)),
        decreases fetched.len() - i,
    {
        let found = &fetched[i];
        proof {
            assert(all.take(i + 1).drop_last() =~= all.take(i as int));
        }
        if found.is_unclaimed() {
            let mut labels: Vec<String> = Vec::new();
            let mut k: usize = 0;
            while k < found.labels.len()
                invariant
                    k <= found.labels.len(),
                    labels.len() == k,
                    forall|j: int| 0 <= j < k ==> (#[trigger] labels@[j])@ == found.labels@[j]@,
                decreases found.labels.len() - k,
            {
                labels.push(found.labels[k].clone());
                k += 1;
            }
            assert(labels.deep_view() =~= found.labels.deep_view());
            let body = match &found.body {
                Some(text) => Some(text.clone()),
                None => None,
            };
            let issue = Issue { number: found.number, title: found.title.clone(), body, labels };
            issues.push(issue);
        }
        i += 1;
    }
    assert(all.take(i as int) =~= all);
    issues
}

} // verus!
