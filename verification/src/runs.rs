//! Workflow runs as the repository host reports them.

use vstd::prelude::*;
use crate::validator::{Job, JobView};

verus! {

/// One run of a workflow.
#[derive(Debug, Clone)]
pub struct WorkflowRun {
    pub id: u64,
    pub name: String,
    pub status: String,
    pub conclusion: Option<String>,
    /// When the run was created, as an RFC 3339 date and time.
    pub created_at: String,
    pub html_url: String,
}

/// A run with what was found out about it.
#[derive(Debug, Clone)]
pub struct WorkflowAnalysis {
    pub run: WorkflowRun,
    pub jobs: Vec<Job>,
    pub duration_seconds: Option<i64>,
    pub errors: Vec<String>,
    pub warnings: Vec<String>,
}

/// A run as plain values.
pub struct WorkflowRunView {
    pub id: nat,
    pub name: Seq<char>,
    pub status: Seq<char>,
    pub conclusion: Option<Seq<char>>,
    pub created_at: Seq<char>,
    pub html_url: Seq<char>,
}

/// An analysed run as plain values.
pub struct WorkflowAnalysisView {
    pub run: WorkflowRunView,
    pub jobs: Seq<JobView>,
    pub duration_seconds: Option<int>,
    pub errors: Seq<Seq<char>>,
    pub warnings: Seq<Seq<char>>,
}

impl DeepView for WorkflowRun {
    type V = WorkflowRunView;

    open spec fn deep_view(&self) -> WorkflowRunView {
        WorkflowRunView {
            id: self.id as nat,
            name: self.name@,
            status: self.status@,
            conclusion: self.conclusion.deep_view(),
            created_at: self.created_at@,
            html_url: self.html_url@,
        }
    }
}

impl DeepView for WorkflowAnalysis {
    type V = WorkflowAnalysisView;

    open spec fn deep_view(&self) -> WorkflowAnalysisView {
        WorkflowAnalysisView {
            run: self.run.deep_view(),
            jobs: self.jobs.deep_view(),
            duration_seconds: match self.duration_seconds {
                Some(seconds) => Some(seconds as int),
                None => None,
            },
            errors: self.errors.deep_view(),
            warnings: self.warnings.deep_view(),
        }
    }
}

} // verus!
