//! The figures behind a report on workflow runs: which runs are recent
//! enough to count, how they ended, how long they took.

use vstd::prelude::*;
use crate::runs::{WorkflowAnalysis, WorkflowAnalysisView, WorkflowRun, WorkflowRunView};
use crate::text::text_is;

verus! {

/// A point in time: seconds since the start of 1970 in UTC, leap seconds
/// not counted, and the nanoseconds since that second began. Within a leap
/// second the nanoseconds run past 999,999,999.
#[derive(Debug, Clone, Copy, PartialEq, Eq, Structural)]
pub struct Moment {
    pub seconds: i64,
    pub nanos: u32,
}

/// How a set of runs ended.
#[derive(Debug, Clone, Copy, PartialEq, Eq, Structural)]
pub struct RunSummary {
    pub total: usize,
    pub successful: usize,
    pub failed: usize,
    pub cancelled: usize,
    /// The mean duration over all runs, those of unknown duration counted
    /// as zero seconds; rounded towards zero.
    pub average_duration_seconds: i64,
}

/// The point in time that chrono's `DateTime::parse_from_rfc3339` reads
/// from `text`, as the seconds and the nanoseconds that its `timestamp` and
/// `timestamp_subsec_nanos` give; none where it reads no date and time.
pub uninterp spec fn rfc3339_moment(text: Seq<char>) -> Option<(int, int)>;

/// Reads an RFC 3339 date and time with chrono's
/// `DateTime::parse_from_rfc3339`, and takes the result apart with
/// `DateTime::timestamp` and `DateTime::timestamp_subsec_nanos`. Trusted:
/// the result depends on the text alone. Which texts chrono accepts, and
/// what moment it reads from each, is not stated here.
#[verifier::external_body]
fn parse_rfc3339(text: &str) -> (moment: Option<Moment>)
    ensures
        moment_pair(moment) == rfc3339_moment(text@),
{
    match chrono::DateTime::parse_from_rfc3339(text) {
        Ok(read) => Some(
            Moment { seconds: read.timestamp(), nanos: read.timestamp_subsec_nanos() },
        ),
        Err(_) => None,
    }
}

/// A moment as a pair of integers.
pub open spec fn moment_pair(moment: Option<Moment>) -> Option<(int, int)> {
    match moment {
        Some(at) => Some((at.seconds as int, at.nanos as int)),
        None => None,
    }
}

/// The moment `a` comes after the moment `b`.
pub open spec fn is_later(a: (int, int), b: (int, int)) -> bool {
    a.0 > b.0 || (a.0 == b.0 && a.1 > b.1)
}

/// A run counts as recent when its creation time can be read and comes
/// after the cutoff.
pub open spec fn is_recent(read: Option<(int, int)>, cutoff: (int, int)) -> bool {
    match read {
        Some(created) => is_later(created, cutoff),
        None => false,
    }
}

/// The runs created after the cutoff, in their order.
pub open spec fn recent_runs(runs: Seq<WorkflowRunView>, cutoff: (int, int)) -> Seq<
    WorkflowRunView,
> {
    runs.filter(|run: WorkflowRunView| is_recent(rfc3339_moment(run.created_at), cutoff))
}

/// How many of the runs ended with the conclusion `wanted`.
pub open spec fn ended_with(runs: Seq<WorkflowAnalysisView>, wanted: Seq<char>) -> nat
    decreases runs.len(),
{
    if runs.len() == 0 {
        0
    } else {
        ended_with(runs.drop_last(), wanted) + (if runs.last().run.conclusion == Some(wanted) {
            1nat
        } else {
            0nat
        })
    }
}

/// The seconds that the runs took together; a run of unknown duration adds
/// none.
pub open spec fn seconds_taken(runs: Seq<WorkflowAnalysisView>) -> int
    decreases runs.len(),
{
    if runs.len() == 0 {
        0
    } else {
        seconds_taken(runs.drop_last()) + (match runs.last().duration_seconds {
            Some(seconds) => seconds,
            None => 0,
        })
    }
}

/// `total` divided by `count`, rounded towards zero; zero for no count.
pub open spec fn mean_towards_zero(total: int, count: int) -> int {
    if count <= 0 {
        0
    } else if total >= 0 {
        total / count
    } else {
        -((-total) / count)
    }
}

/// How `runs` ended.
pub open spec fn summary_of(runs: Seq<WorkflowAnalysisView>) -> RunSummary {
    RunSummary {
        total: runs.len() as usize,
        successful: ended_with(runs, "success"@) as usize,
        failed: ended_with(runs, "failure"@) as usize,
        cancelled: ended_with(runs, "cancelled"@) as usize,
        average_duration_seconds: mean_towards_zero(seconds_taken(runs), runs.len() as int) as i64,
    }
}

/// Tests whether the moment `a` comes after the moment `b`.
pub fn comes_after(a: Moment, b: Moment) -> (later: bool)
    ensures
        later == is_later((a.seconds as int, a.nanos as int), (b.seconds as int, b.nanos as int)),
{
    a.seconds > b.seconds || (a.seconds == b.seconds && a.nanos > b.nanos)
}

/// Tests whether the moment read from a creation time, if one was read,
/// comes after the cutoff.
pub fn read_after(read: Option<Moment>, cutoff: Moment) -> (recent: bool)
    ensures
        recent == is_recent(moment_pair(read), (cutoff.seconds as int, cutoff.nanos as int)),
{
    match read {
        Some(created) => comes_after(created, cutoff),
        None => false,
    }
}

/// Tests whether a run created at `created_at` counts as recent.
pub fn created_after(created_at: &str, cutoff: Moment) -> (recent: bool)
    ensures
        recent == is_recent(
            rfc3339_moment(created_at@),
            (cutoff.seconds as int, cutoff.nanos as int),
        ),
{
    read_after(parse_rfc3339(created_at), cutoff)
}

/// The runs created after the cutoff, in their order.
pub fn runs_since(runs: &[WorkflowRun], cutoff: Moment) -> (recent: Vec<WorkflowRun>)
    ensures
        recent.deep_view() == recent_runs(
            runs.deep_view(),
            (cutoff.seconds as int, cutoff.nanos as int),
        ),
{
    let ghost all = runs.deep_view();
    let ghost limit = (cutoff.seconds as int, cutoff.nanos as int);
    let ghost counts = |run: WorkflowRunView| is_recent(rfc3339_moment(run.created_at), limit);
    let mut recent: Vec<WorkflowRun> = Vec::new();
    let mut i: usize = 0;
    while i < runs.len()
        invariant
            i <= runs.len(),
            all == runs.deep_view(),
            limit == (cutoff.seconds as int, cutoff.nanos as int),
            counts == (|run: WorkflowRunView|
                is_recent(rfc3339_moment(run.created_at), limit)),
            recent.deep_view() == all.take(i as int).filter(counts),
        decreases runs.len() - i,
    {
        let run = &runs[i];
        proof {
            assert(all.take(i + 1) =~= all.take(i as int).push(run.deep_view()));
            Seq::lemma_filter_push(all.take(i as int), run.deep_view(), counts);
        }
        if created_after(run.created_at.as_str(), cutoff) {
            let conclusion = match &run.conclusion {
                Some(text) => Some(text.clone()),
                None => None,
            };
            let kept = WorkflowRun {
                id: run.id,
                name: run.name.clone(),
                status: run.status.clone(),
                conclusion,
                created_at: run.created_at.clone(),
                html_url: run.html_url.clone(),
            };
            recent.push(kept);
        }
        i += 1;
    }
    assert(all.take(i as int) =~= all);
    recent
}

/// No more runs ended in one way than there are runs.
pub proof fn lemma_ended_with_bounded(runs: Seq<WorkflowAnalysisView>, wanted: Seq<char>)
    ensures
        ended_with(runs, wanted) <= runs.len(),
    decreases runs.len(),
{
    if runs.len() > 0 {
        lemma_ended_with_bounded(runs.drop_last(), wanted);
    }
}

/// Tests whether a run ended with the conclusion `wanted`.
fn concluded(analysis: &WorkflowAnalysis, wanted: &str) -> (ended: bool)
    ensures
        ended == (analysis.deep_view().run.conclusion == Some(wanted@)),
{
    match &analysis.run.conclusion {
        Some(text) => text_is(text.as_str(), wanted),
        None => false,
    }
}

/// Sums up how `analyses` ended and how long they took on average.
pub fn summarize(analyses: &[WorkflowAnalysis]) -> (summary: RunSummary)
    ensures
        summary == summary_of(analyses.deep_view()),
{
    let ghost all = analyses.deep_view();
    let mut successful: usize = 0;
    let mut failed: usize = 0;
    let mut cancelled: usize = 0;
    let mut taken: i128 = 0;
    let mut i: usize = 0;
    while i < analyses.len()
        invariant
            i <= analyses.len(),
            all == analyses.deep_view(),
            successful == ended_with(all.take(i as int), "success"@),
            failed == ended_with(all.take(i as int), "failure"@),
            cancelled == ended_with(all.take(i as int), "cancelled"@),
            successful <= i && failed <= i && cancelled <= i,
            taken == seconds_taken(all.take(i as int)),
            -(i * 0x8000_0000_0000_0000) <= taken <= i * 0x7fff_ffff_ffff_ffff,
        decreases analyses.len() - i,
    {
        let analysis = &analyses[i];
        proof {
            assert(all.take(i + 1).drop_last() =~= all.take(i as int));
            assert((i + 1) * 0x8000_0000_0000_0000 == i * 0x8000_0000_0000_0000
                + 0x8000_0000_0000_0000) by (nonlinear_arith);
            assert((i + 1) * 0x7fff_ffff_ffff_ffff == i * 0x7fff_ffff_ffff_ffff
                + 0x7fff_ffff_ffff_ffff) by (nonlinear_arith);
            assert(i * 0x8000_0000_0000_0000 <= 0xffff_ffff_ffff_ffff * 0x8000_0000_0000_0000)
                by (nonlinear_arith)
                requires
                    0 <= i <= 0xffff_ffff_ffff_ffff,
            ;
            assert(0 <= i * 0x7fff_ffff_ffff_ffff <= i * 0x8000_0000_0000_0000)
                by (nonlinear_arith)
                requires
                    0 <= i,
            ;
        }
        if concluded(analysis, "success") {
            successful += 1;
        }
        if concluded(analysis, "failure") {
            failed += 1;
        }
        if concluded(analysis, "cancelled") {
            cancelled += 1;
        }
        match analysis.duration_seconds {
            Some(seconds) => {
                taken = taken + seconds as i128;
            },
            None => {},
        }
        i += 1;
    }
    proof {
        assert(all.take(i as int) =~= all);
        lemma_ended_with_bounded(all, "success"@);
    }
    let count = analyses.len();
    let average: i64 = if count == 0 {
        0
    } else if taken >= 0 {
        let mean = taken / (count as i128);
        assert(0 <= mean <= 0x7fff_ffff_ffff_ffff) by (nonlinear_arith)
            requires
                mean == (taken as int) / (count as int),
                0 <= taken <= count * 0x7fff_ffff_ffff_ffff,
                count > 0,
        ;
        mean as i64
    } else {
        let mean = (-taken) / (count as i128);
        assert(0 <= mean <= 0x8000_0000_0000_0000) by (nonlinear_arith)
            requires
                mean == (-(taken as int)) / (count as int),
                0 < -taken <= count * 0x8000_0000_0000_0000,
                count > 0,
        ;
        (-mean) as i64
    };
    RunSummary { total: count, successful, failed, cancelled, average_duration_seconds: average }
}

} // verus!
