//! Prompts for a language model about the issues found for a batch of
//! dependencies, and the insights filed from its answer.

use vstd::prelude::*;
use vstd::string::StringExecFns;
use crate::context::{Dependency, DependencyView};
use crate::split::{trim_text, trimmed};
use crate::text::{contains, contains_str, decimal, decimal_text};

verus! {

/// How many dependencies go into one prompt.
pub const BATCH_SIZE: usize = 5;

/// The instructions that open every prompt.
pub const PROMPT_HEADER: &'static str =
    "You are a Senior Software Engineer analyzing GitHub issues for multiple libraries. For EACH library below, provide: 1. Known Anomalies: Bugs or quirks in THIS SPECIFIC version. 2. Anti-patterns to Avoid: Common mistakes found in issues. 3. Intelligent Pattern: The recommended way to use this version safely. Be concise but specific. Focus on actionable insights. ";

/// What is filed when the model gave no answer for a batch.
pub const ANALYSIS_UNAVAILABLE: &'static str =
    "AI analysis unavailable. Check GitHub Models access.";

/// An issue found upstream for a dependency.
#[derive(Debug, Clone)]
pub struct FoundIssue {
    pub state: String,
    pub title: String,
}

/// A dependency with the issues found for it.
#[derive(Debug, Clone)]
pub struct SearchResult {
    pub dependency: Dependency,
    pub issues: Vec<FoundIssue>,
}

/// What the model said about one dependency.
#[derive(Debug, Clone)]
pub struct Insight {
    pub dependency_name: String,
    pub version: String,
    pub analysis: String,
}

/// Why the model gave no answer.
#[derive(Debug, Clone, PartialEq, Eq)]
pub enum ModelError {
    /// The call went through and nothing but white space came back.
    EmptyResponse,
    /// The account may not use the model.
    NoAccess,
    /// The call failed otherwise, with this on its error stream.
    Failed { stderr: String },
}

/// A found issue as plain values.
pub struct FoundIssueView {
    pub state: Seq<char>,
    pub title: Seq<char>,
}

/// A search result as plain values.
pub struct SearchResultView {
    pub dependency: DependencyView,
    pub issues: Seq<FoundIssueView>,
}

/// An insight as plain values.
pub struct InsightView {
    pub dependency_name: Seq<char>,
    pub version: Seq<char>,
    pub analysis: Seq<char>,
}

impl DeepView for FoundIssue {
    type V = FoundIssueView;

    open spec fn deep_view(&self) -> FoundIssueView {
        FoundIssueView { state: self.state@, title: self.title@ }
    }
}

impl DeepView for SearchResult {
    type V = SearchResultView;

    open spec fn deep_view(&self) -> SearchResultView {
        SearchResultView {
            dependency: self.dependency.deep_view(),
            issues: self.issues.deep_view(),
        }
    }
}

impl DeepView for Insight {
    type V = InsightView;

    open spec fn deep_view(&self) -> InsightView {
        InsightView {
            dependency_name: self.dependency_name@,
            version: self.version@,
            analysis: self.analysis@,
        }
    }
}

/// The note on one issue: its state in brackets, then its title.
pub open spec fn issue_note(issue: FoundIssueView) -> Seq<char> {
    "["@ + issue.state + "] "@ + issue.title + ". "@
}

/// The notes on all issues, one after the other.
pub open spec fn issue_notes(issues: Seq<FoundIssueView>) -> Seq<char>
    decreases issues.len(),
{
    if issues.len() == 0 {
        Seq::empty()
    } else {
        issue_notes(issues.drop_last()) + issue_note(issues.last())
    }
}

/// The heading of the section on the dependency at `position`, counted
/// from one.
pub open spec fn section_heading(position: nat, dependency: DependencyView) -> Seq<char> {
    "--- Library "@ + decimal_text(position) + ": "@ + dependency.name + " (version "@
        + dependency.version + ") Issues Found: "@
}

/// The sections on all dependencies of a batch: for each its heading and
/// the notes on its issues.
pub open spec fn batch_sections(batch: Seq<SearchResultView>) -> Seq<char>
    decreases batch.len(),
{
    if batch.len() == 0 {
        Seq::empty()
    } else {
        batch_sections(batch.drop_last()) + section_heading(batch.len(), batch.last().dependency)
            + issue_notes(batch.last().issues)
    }
}

/// The prompt for a batch: the instructions, then the sections.
pub open spec fn batch_prompt(batch: Seq<SearchResultView>) -> Seq<char> {
    PROMPT_HEADER@ + batch_sections(batch)
}

/// The insights filed for a batch: one for each dependency, all with the
/// same analysis.
pub open spec fn batch_insights(batch: Seq<SearchResultView>, analysis: Seq<char>) -> Seq<
    InsightView,
> {
    Seq::new(
        batch.len(),
        |i: int|
            InsightView {
                dependency_name: batch[i].dependency.name,
                version: batch[i].dependency.version,
                analysis,
            },
    )
}

/// Whether the model's call comes to an answer: it does when the call
/// succeeded and wrote more than white space.
pub open spec fn is_answer(succeeded: bool, stdout: Seq<char>) -> bool {
    succeeded && trimmed(stdout).len() > 0
}

/// The error stream speaks of a refusal.
pub open spec fn speaks_of_refusal(stderr: Seq<char>) -> bool {
    contains(stderr, "403"@) || contains(stderr, "no_access"@)
}

/// Reads the outcome of a call to the model: the answer as it was written,
/// or why there is none.
pub fn model_answer(succeeded: bool, stdout: &str, stderr: &str) -> (answer: Result<
    String,
    ModelError,
>)
    ensures
        is_answer(succeeded, stdout@) ==> answer is Ok && answer->Ok_0@ == stdout@,
        succeeded && !is_answer(succeeded, stdout@) ==> answer == Err::<String, ModelError>(
            ModelError::EmptyResponse,
        ),
        !succeeded && speaks_of_refusal(stderr@) ==> answer == Err::<String, ModelError>(
            ModelError::NoAccess,
        ),
        !succeeded && !speaks_of_refusal(stderr@) ==> answer is Err && answer->Err_0 is Failed
            && answer->Err_0->stderr@ == stderr@,
{
    if succeeded {
        if trim_text(stdout).is_empty() {
            Err(ModelError::EmptyResponse)
        } else {
            Ok(stdout.to_owned())
        }
    } else if contains_str(stderr, "403") || contains_str(stderr, "no_access") {
        Err(ModelError::NoAccess)
    } else {
        Err(ModelError::Failed { stderr: stderr.to_owned() })
    }
}

impl ModelError {
    /// A sentence that says what went wrong.
    pub fn message(&self) -> (message: String)
        ensures
            message@ == (match *self {
                ModelError::EmptyResponse => "Empty response from GitHub Models"@,
                ModelError::NoAccess =>
                    "No access to model. Ensure you have Copilot subscription."@,
                ModelError::Failed { stderr } => "GitHub Models error: "@ + stderr@,
            }),
    {
        match self {
            ModelError::EmptyResponse => "Empty response from GitHub Models".to_owned(),
            ModelError::NoAccess => "No access to model. Ensure you have Copilot subscription.".to_owned(),
            ModelError::Failed { stderr } => {
                let mut message = "GitHub Models error: ".to_owned();
                message.append(stderr.as_str());
                message
            },
        }
    }
}

/// Writes the prompt that asks the model about a batch of dependencies.
pub fn build_batch_prompt(batch: &[&SearchResult]) -> (prompt: String)
    ensures
        prompt@ == batch_prompt(batch.deep_view()),
{
    let ghost all = batch.deep_view();
    let mut prompt = PROMPT_HEADER.to_owned();
    let mut i: usize = 0;
    while i < batch.len()
        invariant
            i <= batch.len(),
            all == batch.deep_view(),
            prompt@ == PROMPT_HEADER@ + batch_sections(all.take(i as int)),
        decreases batch.len() - i,
    {
        let result = batch[i];
        let ghost before = prompt@;
        proof {
            assert(all.take(i + 1).drop_last() =~= all.take(i as int));
        }
        let position = decimal((i + 1) as u64);
        prompt.append("--- Library ");
        prompt.append(position.as_str());
        prompt.append(": ");
        prompt.append(result.dependency.name.as_str());
        prompt.append(" (version ");
        prompt.append(result.dependency.version.as_str());
        prompt.append(") Issues Found: ");
        let ghost listed = result.issues.deep_view();
        let ghost heading = section_heading((i + 1) as nat, result.dependency.deep_view());
        let mut k: usize = 0;
        while k < result.issues.len()
            invariant
                k <= result.issues.len(),
                listed == result.issues.deep_view(),
                prompt@ == before + heading + issue_notes(listed.take(k as int)),
            decreases result.issues.len() - k,
        {
            let issue = &result.issues[k];
            proof {
                assert(listed.take(k + 1).drop_last() =~= listed.take(k as int));
            }
            prompt.append("[");
            prompt.append(issue.state.as_str());
            prompt.append("] ");
            prompt.append(issue.title.as_str());
            prompt.append(". ");
            k += 1;
        }
        assert(listed.take(k as int) =~= listed);
        i += 1;
    }
    assert(all.take(i as int) =~= all);
    prompt
}

/// Files the model's `analysis` under each dependency of the batch.
pub fn insights_for_batch(batch: &[&SearchResult], analysis: &str) -> (insights: Vec<Insight>)
    ensures
        insights.deep_view() == batch_insights(batch.deep_view(), analysis@),
{
    let mut insights: Vec<Insight> = Vec::new();
    let mut i: usize = 0;
    while i < batch.len()
        invariant
            i <= batch.len(),
            insights.len() == i,
            forall|j: int|
                0 <= j < i ==> (#[trigger] insights@[j]).deep_view() == batch_insights(
                    batch.deep_view(),
                    analysis@,
                )[j],
        decreases batch.len() - i,
    {
        let result = batch[i];
        insights.push(
            Insight {
                dependency_name: result.dependency.name.clone(),
                version: result.dependency.version.clone(),
                analysis: analysis.to_owned(),
            },
        );
        i += 1;
    }
    insights
}

} // verus!
