//! What a finished workflow run says about its jobs: counts, the steps that
//! failed, a hint for each, and recommendations.

use vstd::prelude::*;
use vstd::string::StringExecFns;
use crate::text::{contains, contains_str, decimal, decimal_text, lowercase, text_is, to_lowercase};

verus! {

/// One step of a job.
#[derive(Debug, Clone)]
pub struct Step {
    pub name: String,
    pub conclusion: Option<String>,
}

/// One job of a workflow run.
#[derive(Debug, Clone)]
pub struct Job {
    pub name: String,
    pub conclusion: Option<String>,
    pub steps: Option<Vec<Step>>,
}

/// A step that failed, with a hint at the remedy.
#[derive(Debug, Clone, PartialEq, Eq)]
pub struct ErrorDetail {
    pub job: String,
    pub step: Option<String>,
    pub message: String,
    pub severity: String,
    pub suggested_fix: Option<String>,
}

/// Advice drawn from a run.
#[derive(Debug, Clone, PartialEq, Eq)]
pub struct Recommendation {
    pub category: String,
    pub priority: String,
    pub title: String,
    pub description: String,
    pub action: String,
}

/// Counts over the jobs of a run.
#[derive(Debug, Clone, Copy, PartialEq, Eq)]
pub struct ValidationMetrics {
    pub job_count: usize,
    pub step_count: usize,
    pub failed_jobs: usize,
    pub failed_steps: usize,
    pub parallel_jobs: usize,
    pub sequential_jobs: usize,
    pub cache_hits: usize,
    pub cache_misses: usize,
}

/// A step as plain values.
pub struct StepView {
    pub name: Seq<char>,
    pub conclusion: Option<Seq<char>>,
}

/// A job as plain values.
pub struct JobView {
    pub name: Seq<char>,
    pub conclusion: Option<Seq<char>>,
    pub steps: Option<Seq<StepView>>,
}

/// An error detail as plain values.
pub struct ErrorDetailView {
    pub job: Seq<char>,
    pub step: Option<Seq<char>>,
    pub message: Seq<char>,
    pub severity: Seq<char>,
    pub suggested_fix: Option<Seq<char>>,
}

/// A recommendation as plain values.
pub struct RecommendationView {
    pub category: Seq<char>,
    pub priority: Seq<char>,
    pub title: Seq<char>,
    pub description: Seq<char>,
    pub action: Seq<char>,
}

impl DeepView for Step {
    type V = StepView;

    open spec fn deep_view(&self) -> StepView {
        StepView { name: self.name@, conclusion: self.conclusion.deep_view() }
    }
}

impl DeepView for Job {
    type V = JobView;

    open spec fn deep_view(&self) -> JobView {
        JobView {
            name: self.name@,
            conclusion: self.conclusion.deep_view(),
            steps: self.steps.deep_view(),
        }
    }
}

impl DeepView for ErrorDetail {
    type V = ErrorDetailView;

    open spec fn deep_view(&self) -> ErrorDetailView {
        ErrorDetailView {
            job: self.job@,
            step: self.step.deep_view(),
            message: self.message@,
            severity: self.severity@,
            suggested_fix: self.suggested_fix.deep_view(),
        }
    }
}

impl DeepView for Recommendation {
    type V = RecommendationView;

    open spec fn deep_view(&self) -> RecommendationView {
        RecommendationView {
            category: self.category@,
            priority: self.priority@,
            title: self.title@,
            description: self.description@,
            action: self.action@,
        }
    }
}

/// A job or a step failed when its conclusion reads `failure`.
pub open spec fn is_failure(conclusion: Option<Seq<char>>) -> bool {
    conclusion == Some("failure"@)
}

/// The hint for a failed step, by the first kind of work that its lower-case
/// name mentions: checkout, install or setup, build, test, deploy.
pub open spec fn fix_for(lowered: Seq<char>) -> Option<Seq<char>> {
    if contains(lowered, "checkout"@) {
        Some("Check repository permissions and branch existence"@)
    } else if contains(lowered, "install"@) || contains(lowered, "setup"@) {
        Some("Verify dependencies and cache configuration"@)
    } else if contains(lowered, "build"@) {
        Some("Check build configuration and dependencies"@)
    } else if contains(lowered, "test"@) {
        Some("Review test failures and check test environment"@)
    } else if contains(lowered, "deploy"@) {
        Some("Verify deployment credentials and target environment"@)
    } else {
        None
    }
}

/// Tests whether a conclusion reads `failure`.
pub fn concluded_in_failure(conclusion: &Option<String>) -> (failed: bool)
    ensures
        failed == is_failure(conclusion.deep_view()),
{
    match conclusion {
        Some(text) => text_is(text.as_str(), "failure"),
        None => false,
    }
}

/// The hint for a failed step whose lower-case name is `lowered`.
pub fn fix_for_lowercase_name(lowered: &str) -> (fix: Option<&'static str>)
    ensures
        fix.deep_view() == fix_for(lowered@),
{
    if contains_str(lowered, "checkout") {
        Some("Check repository permissions and branch existence")
    } else if contains_str(lowered, "install") || contains_str(lowered, "setup") {
        Some("Verify dependencies and cache configuration")
    } else if contains_str(lowered, "build") {
        Some("Check build configuration and dependencies")
    } else if contains_str(lowered, "test") {
        Some("Review test failures and check test environment")
    } else if contains_str(lowered, "deploy") {
        Some("Verify deployment credentials and target environment")
    } else {
        None
    }
}

/// The hint for a failed step, from its name in any case.
pub fn suggest_fix(step_name: &str) -> (fix: Option<String>)
    ensures
        fix.deep_view() == fix_for(lowercase(step_name@)),
{
    let lowered = to_lowercase(step_name);
    match fix_for_lowercase_name(lowered.as_str()) {
        Some(text) => Some(text.to_owned()),
        None => None,
    }
}

/// How many of the jobs are taken to have run side by side: half of them.
pub fn estimate_parallel_jobs(jobs: &[Job]) -> (parallel: usize)
    ensures
        parallel == jobs@.len() / 2,
{
    jobs.len() / 2
}

/// What is recorded for the failed step `step_name` of the job `job_name`.
pub open spec fn error_for(job_name: Seq<char>, step_name: Seq<char>) -> ErrorDetailView {
    ErrorDetailView {
        job: job_name,
        step: Some(step_name),
        message: "Step '"@ + step_name + "' failed in job '"@ + job_name + "'"@,
        severity: "error"@,
        suggested_fix: fix_for(lowercase(step_name)),
    }
}

/// The errors of the failed steps among `steps`, in their order.
pub open spec fn step_errors(job_name: Seq<char>, steps: Seq<StepView>) -> Seq<ErrorDetailView>
    decreases steps.len(),
{
    if steps.len() == 0 {
        Seq::empty()
    } else {
        let earlier = step_errors(job_name, steps.drop_last());
        if is_failure(steps.last().conclusion) {
            earlier.push(error_for(job_name, steps.last().name))
        } else {
            earlier
        }
    }
}

/// The errors of one job: those of its failed steps if the job itself
/// failed, none otherwise.
pub open spec fn job_errors(job: JobView) -> Seq<ErrorDetailView> {
    match job.steps {
        Some(steps) => if is_failure(job.conclusion) {
            step_errors(job.name, steps)
        } else {
            Seq::empty()
        },
        None => Seq::empty(),
    }
}

/// The errors of all jobs, job by job.
pub open spec fn errors_of(jobs: Seq<JobView>) -> Seq<ErrorDetailView>
    decreases jobs.len(),
{
    if jobs.len() == 0 {
        Seq::empty()
    } else {
        errors_of(jobs.drop_last()) + job_errors(jobs.last())
    }
}

/// The number of steps that a job lists.
pub open spec fn steps_in(job: JobView) -> nat {
    match job.steps {
        Some(steps) => steps.len(),
        None => 0,
    }
}

/// The number of steps that all jobs list together.
pub open spec fn step_total(jobs: Seq<JobView>) -> nat
    decreases jobs.len(),
{
    if jobs.len() == 0 {
        0
    } else {
        step_total(jobs.drop_last()) + steps_in(jobs.last())
    }
}

/// The number of jobs that failed.
pub open spec fn failed_job_total(jobs: Seq<JobView>) -> nat
    decreases jobs.len(),
{
    if jobs.len() == 0 {
        0
    } else {
        failed_job_total(jobs.drop_last()) + (if is_failure(jobs.last().conclusion) {
            1nat
        } else {
            0nat
        })
    }
}

/// A count as the machine holds it: what exceeds `usize` stays at its
/// maximum.
pub open spec fn held(count: nat) -> usize {
    if count > usize::MAX {
        usize::MAX
    } else {
        count as usize
    }
}

/// The counts over `jobs`. Half of the jobs are taken to have run side by
/// side; cache use is not observed and counts as zero.
pub open spec fn metrics_of(jobs: Seq<JobView>) -> ValidationMetrics {
    ValidationMetrics {
        job_count: held(jobs.len()),
        step_count: held(step_total(jobs)),
        failed_jobs: held(failed_job_total(jobs)),
        failed_steps: held(errors_of(jobs).len()),
        parallel_jobs: held(jobs.len() / 2),
        sequential_jobs: held((jobs.len() - jobs.len() / 2) as nat),
        cache_hits: 0,
        cache_misses: 0,
    }
}

/// The errors and the counts that a run's jobs give.
#[derive(Debug, Clone)]
pub struct JobFindings {
    pub errors: Vec<ErrorDetail>,
    pub metrics: ValidationMetrics,
}

/// Records the failed step `step_name` of the job `job_name`.
pub fn failed_step_error(job_name: &str, step_name: &str) -> (detail: ErrorDetail)
    ensures
        detail.deep_view() == error_for(job_name@, step_name@),
{
    let mut message = "Step '".to_owned();
    message.append(step_name);
    message.append("' failed in job '");
    message.append(job_name);
    message.append("'");
    ErrorDetail {
        job: job_name.to_owned(),
        step: Some(step_name.to_owned()),
        message,
        severity: "error".to_owned(),
        suggested_fix: suggest_fix(step_name),
    }
}

/// No job failed more often than there are jobs.
pub proof fn lemma_failed_jobs_bounded(jobs: Seq<JobView>)
    ensures
        failed_job_total(jobs) <= jobs.len(),
    decreases jobs.len(),
{
    if jobs.len() > 0 {
        lemma_failed_jobs_bounded(jobs.drop_last());
    }
}

/// Goes through the jobs of a run: collects an error for each failed step
/// of each failed job, and counts jobs and steps.
pub fn examine_jobs(jobs: &[Job]) -> (findings: JobFindings)
    ensures
        findings.errors.deep_view() == errors_of(jobs.deep_view()),
        findings.metrics == metrics_of(jobs.deep_view()),
{
    let ghost all = jobs.deep_view();
    let mut errors: Vec<ErrorDetail> = Vec::new();
    let mut failed_jobs: usize = 0;
    let mut step_count: usize = 0;
    let mut i: usize = 0;
    while i < jobs.len()
        invariant
            i <= jobs.len(),
            all == jobs.deep_view(),
            errors.deep_view() == errors_of(all.take(i as int)),
            failed_jobs == failed_job_total(all.take(i as int)),
            failed_jobs <= i,
            step_count == held(step_total(all.take(i as int))),
        decreases jobs.len() - i,
    {
        let job = &jobs[i];
        let ghost before = all.take(i as int);
        proof {
            assert(all.take(i + 1).drop_last() =~= before);
        }
        let failed = concluded_in_failure(&job.conclusion);
        if failed {
            failed_jobs += 1;
        }
        match &job.steps {
            Some(steps) => {
                step_count = step_count.saturating_add(steps.len());
                if failed {
                    let ghost listed = steps.deep_view();
                    let mut k: usize = 0;
                    assert(errors.deep_view() =~= errors_of(before) + step_errors(
                        job.name@,
                        listed.take(0),
                    ));
                    while k < steps.len()
                        invariant
                            k <= steps.len(),
                            listed == steps.deep_view(),
                            errors.deep_view() == errors_of(before) + step_errors(
                                job.name@,
                                listed.take(k as int),
                            ),
                        decreases steps.len() - k,
                    {
                        let step = &steps[k];
                        proof {
                            assert(listed.take(k + 1).drop_last() =~= listed.take(k as int));
                        }
                        if concluded_in_failure(&step.conclusion) {
                            let ghost earlier = errors.deep_view();
                            let detail = failed_step_error(job.name.as_str(), step.name.as_str());
                            errors.push(detail);
                            assert(errors.deep_view() =~= earlier.push(detail.deep_view()));
                            assert(errors.deep_view() =~= errors_of(before) + step_errors(
                                job.name@,
                                listed.take(k + 1),
                            ));
                        }
                        k += 1;
                    }
                    assert(listed.take(k as int) =~= listed);
                }
            },
            None => {},
        }
        i += 1;
    }
    proof {
        assert(all.take(i as int) =~= all);
        lemma_failed_jobs_bounded(all);
    }
    let parallel = estimate_parallel_jobs(jobs);
    let failed_steps = errors.len();
    JobFindings {
        errors,
        metrics: ValidationMetrics {
            job_count: jobs.len(),
            step_count,
            failed_jobs,
            failed_steps,
            parallel_jobs: parallel,
            sequential_jobs: jobs.len() - parallel,
            cache_hits: 0,
            cache_misses: 0,
        },
    }
}

/// Recommendations for a run with `failed_jobs` failed jobs that took
/// `duration` seconds, if that is known: fix what failed, and speed up what
/// took more than ten minutes.
pub open spec fn recommendations_for(failed_jobs: nat, duration: Option<int>) -> Seq<
    RecommendationView,
> {
    let reliability = if failed_jobs > 0 {
        seq![
            RecommendationView {
                category: "reliability"@,
                priority: "high"@,
                title: "Fix failing jobs"@,
                description: decimal_text(failed_jobs) + " job(s) failed in this run"@,
                action: "Review error logs and fix the underlying issues"@,
            },
        ]
    } else {
        Seq::empty()
    };
    let performance = match duration {
        Some(seconds) => if seconds > 600 {
            seq![
                RecommendationView {
                    category: "performance"@,
                    priority: "medium"@,
                    title: "Optimize workflow duration"@,
                    description: "Workflow took "@ + decimal_text(seconds as nat) + "s (>10 min)"@,
                    action: "Consider parallelizing jobs or using caching"@,
                },
            ]
        } else {
            Seq::empty()
        },
        None => Seq::empty(),
    };
    reliability + performance
}

/// Recommendations for a run with `failed_jobs` failed jobs that took
/// `duration_seconds` seconds.
pub fn recommend(failed_jobs: usize, duration_seconds: Option<i64>) -> (advice: Vec<Recommendation>)
    ensures
        advice.deep_view() == recommendations_for(
            failed_jobs as nat,
            match duration_seconds {
                Some(seconds) => Some(seconds as int),
                None => None,
            },
        ),
{
    let mut advice: Vec<Recommendation> = Vec::new();
    if failed_jobs > 0 {
        let mut description = decimal(failed_jobs as u64);
        description.append(" job(s) failed in this run");
        advice.push(
            Recommendation {
                category: "reliability".to_owned(),
                priority: "high".to_owned(),
                title: "Fix failing jobs".to_owned(),
                description,
                action: "Review error logs and fix the underlying issues".to_owned(),
            },
        );
    }
    match duration_seconds {
        Some(seconds) => {
            if seconds > 600 {
                let mut description = "Workflow took ".to_owned();
                let written = decimal(seconds as u64);
                description.append(written.as_str());
                description.append("s (>10 min)");
                advice.push(
                    Recommendation {
                        category: "performance".to_owned(),
                        priority: "medium".to_owned(),
                        title: "Optimize workflow duration".to_owned(),
                        description,
                        action: "Consider parallelizing jobs or using caching".to_owned(),
                    },
                );
            }
        },
        None => {},
    }
    assert(advice.deep_view() =~= recommendations_for(
        failed_jobs as nat,
        match duration_seconds {
            Some(seconds) => Some(seconds as int),
            None => None,
        },
    ));
    advice
}

} // verus!
