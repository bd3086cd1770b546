//! The merge guardian: decides whether a pull request may be merged without
//! a human, from its checks, its review and the shape of its diff.

use vstd::prelude::*;
use crate::scoring::{any_test_path, is_test_path, single_scope, size_penalty_of, top_level};

verus! {

/// Confidence at or above which a change is merged automatically, unless the
/// caller chooses another threshold.
pub const DEFAULT_THRESHOLD: u8 = 70;

/// What the guardian knows about one pull request.
#[derive(Debug, Clone)]
pub struct ChangeSet {
    pub additions: u64,
    pub deletions: u64,
    pub changed_paths: Vec<String>,
    pub ci_passed: bool,
    pub review_approved: bool,
    /// A reason that forbids an automatic merge whatever the confidence.
    pub blocker: Option<String>,
}

/// The guardian's verdict on one pull request.
#[derive(Debug, Clone, PartialEq, Eq)]
pub enum Decision {
    AutoMerge { confidence: u8 },
    Escalate { confidence: u8, threshold: u8 },
    Blocked { reason: String },
}

/// A change set as plain values.
pub struct ChangeSetView {
    pub additions: nat,
    pub deletions: nat,
    pub changed_paths: Seq<Seq<char>>,
    pub ci_passed: bool,
    pub review_approved: bool,
    pub blocker: Option<Seq<char>>,
}

/// A verdict as plain values.
pub enum DecisionView {
    AutoMerge { confidence: nat },
    Escalate { confidence: nat, threshold: nat },
    Blocked { reason: Seq<char> },
}

impl View for ChangeSet {
    type V = ChangeSetView;

    open spec fn view(&self) -> ChangeSetView {
        ChangeSetView {
            additions: self.additions as nat,
            deletions: self.deletions as nat,
            changed_paths: self.changed_paths.deep_view(),
            ci_passed: self.ci_passed,
            review_approved: self.review_approved,
            blocker: self.blocker.deep_view(),
        }
    }
}

impl View for Decision {
    type V = DecisionView;

    open spec fn view(&self) -> DecisionView {
        match *self {
            Decision::AutoMerge { confidence } => DecisionView::AutoMerge {
                confidence: confidence as nat,
            },
            Decision::Escalate { confidence, threshold } => DecisionView::Escalate {
                confidence: confidence as nat,
                threshold: threshold as nat,
            },
            Decision::Blocked { reason } => DecisionView::Blocked { reason: reason@ },
        }
    }
}

/// Confidence from the four signals and the size penalty: 40 points each
/// for passing checks and an approving review, 10 each for tests and for a
/// single scope, less the penalty, kept within 0 and 100.
pub open spec fn confidence_of(
    ci_passed: bool,
    review_approved: bool,
    tests: bool,
    one_scope: bool,
    penalty: int,
) -> int {
    let earned = (if ci_passed { 40int } else { 0 }) + (if review_approved { 40int } else { 0 })
        + (if tests { 10int } else { 0 }) + (if one_scope { 10int } else { 0 });
    let kept = if earned >= penalty { earned - penalty } else { 0 };
    if kept > 100 { 100 } else { kept }
}

/// The confidence that a change set earns.
pub open spec fn confidence_in(change: ChangeSetView) -> int {
    confidence_of(
        change.ci_passed,
        change.review_approved,
        any_test_path(change.changed_paths),
        single_scope(change.changed_paths),
        size_penalty_of(change.additions + change.deletions) as int,
    )
}

/// The verdict for a confidence, a threshold and an optional blocker: a
/// blocker decides alone; otherwise the change is merged exactly when the
/// confidence reaches the threshold.
pub open spec fn verdict(confidence: nat, threshold: nat, blocker: Option<Seq<char>>) -> DecisionView {
    match blocker {
        Some(reason) => DecisionView::Blocked { reason },
        None => if confidence >= threshold {
            DecisionView::AutoMerge { confidence }
        } else {
            DecisionView::Escalate { confidence, threshold }
        },
    }
}

impl DecisionView {
    /// Every score that the verdict carries lies within 0 and 100.
    pub open spec fn in_range(self) -> bool {
        match self {
            DecisionView::AutoMerge { confidence } => confidence <= 100,
            DecisionView::Escalate { confidence, threshold } => confidence <= 100 && threshold
                <= 100,
            DecisionView::Blocked { .. } => true,
        }
    }
}

impl Decision {
    /// Maps a confidence onto a verdict. A blocker wins over any confidence;
    /// a confidence equal to the threshold is enough to merge.
    pub fn from_confidence(confidence: u8, threshold: u8, blocker: Option<String>) -> (decision:
        Decision)
        ensures
            decision@ == verdict(confidence as nat, threshold as nat, blocker.deep_view()),
            confidence <= 100 && threshold <= 100 ==> decision@.in_range(),
    {
        match blocker {
            Some(reason) => Decision::Blocked { reason },
            None => {
                if confidence >= threshold {
                    Decision::AutoMerge { confidence }
                } else {
                    Decision::Escalate { confidence, threshold }
                }
            },
        }
    }
}

/// The guardian for one repository.
#[derive(Debug)]
pub struct GuardianCore {
    owner: String,
    repo: String,
    threshold: u8,
}

impl GuardianCore {
    /// The threshold is itself a confidence, so it never exceeds 100.
    #[verifier::type_invariant]
    spec fn threshold_is_a_confidence(self) -> bool {
        self.threshold <= 100
    }

    /// The owner of the repository that this guardian watches.
    pub closed spec fn owner_name(&self) -> Seq<char> {
        self.owner@
    }

    /// The name of the repository that this guardian watches.
    pub closed spec fn repo_name(&self) -> Seq<char> {
        self.repo@
    }

    /// The confidence at or above which this guardian merges.
    pub closed spec fn merge_threshold(&self) -> u8 {
        self.threshold
    }

    /// A guardian for `owner/repo` with the default threshold.
    pub fn new(owner: String, repo: String) -> (guardian: Self)
        ensures
            guardian.owner_name() == owner@,
            guardian.repo_name() == repo@,
            guardian.merge_threshold() == DEFAULT_THRESHOLD,
            guardian.merge_threshold() <= 100,
    {
        GuardianCore { owner, repo, threshold: DEFAULT_THRESHOLD }
    }

    /// The same guardian with another threshold. A threshold above 100 is
    /// taken as 100, the highest confidence there is.
    pub fn with_threshold(self, threshold: u8) -> (guardian: Self)
        ensures
            guardian.owner_name() == self.owner_name(),
            guardian.repo_name() == self.repo_name(),
            guardian.merge_threshold() == (if threshold > 100 { 100u8 } else { threshold }),
            guardian.merge_threshold() <= 100,
    {
        let kept: u8 = if threshold > 100 { 100 } else { threshold };
        GuardianCore { owner: self.owner, repo: self.repo, threshold: kept }
    }

    /// The owner of the repository that this guardian watches.
    pub fn owner(&self) -> (owner: &str)
        ensures
            owner@ == self.owner_name(),
    {
        self.owner.as_str()
    }

    /// The name of the repository that this guardian watches.
    pub fn repo(&self) -> (repo: &str)
        ensures
            repo@ == self.repo_name(),
    {
        self.repo.as_str()
    }

    /// The threshold in use.
    pub fn threshold(&self) -> (threshold: u8)
        ensures
            threshold == self.merge_threshold(),
            threshold <= 100,
    {
        proof {
            use_type_invariant(self);
        }
        self.threshold
    }

    /// Penalty for the size of a change.
    pub fn calculate_size_penalty(&self, additions: u64, deletions: u64) -> (penalty: u8)
        ensures
            penalty == size_penalty_of((additions + deletions) as nat),
    {
        crate::scoring::calculate_size_penalty(additions, deletions)
    }

    /// Tests whether the change touches at least one test.
    pub fn has_tests(&self, files: &[String]) -> (found: bool)
        ensures
            found == any_test_path(files.deep_view()),
    {
        crate::scoring::has_tests(files)
    }

    /// Tests whether every changed path lies under the same top-level segment.
    pub fn is_single_scope(&self, files: &[String]) -> (single: bool)
        ensures
            single == single_scope(files.deep_view()),
    {
        crate::scoring::is_single_scope(files)
    }

    /// The confidence that `change` earns, blocker aside.
    pub fn confidence(&self, change: &ChangeSet) -> (confidence: u8)
        ensures
            confidence == confidence_in(change@),
            confidence <= 100,
    {
        let mut earned: u8 = 0;
        if change.ci_passed {
            earned += 40;
        }
        if change.review_approved {
            earned += 40;
        }
        if crate::scoring::has_tests(change.changed_paths.as_slice()) {
            earned += 10;
        }
        if crate::scoring::is_single_scope(change.changed_paths.as_slice()) {
            earned += 10;
        }
        let penalty = crate::scoring::calculate_size_penalty(change.additions, change.deletions);
        let kept: u8 = if earned >= penalty { earned - penalty } else { 0 };
        if kept > 100 { 100 } else { kept }
    }

    /// Decides on `change`. A blocker yields `Blocked` whatever else holds;
    /// otherwise the confidence is held against this guardian's threshold.
    pub fn evaluate(&self, change: &ChangeSet) -> (decision: Decision)
        ensures
            decision@ == verdict(
                confidence_in(change@) as nat,
                self.merge_threshold() as nat,
                change@.blocker,
            ),
            decision@.in_range(),
    {
        proof {
            use_type_invariant(self);
        }
        match &change.blocker {
            Some(reason) => Decision::Blocked { reason: reason.clone() },
            None => {
                let confidence = self.confidence(change);
                Decision::from_confidence(confidence, self.threshold, None)
            },
        }
    }
}

/// A larger change never earns a smaller penalty, and the penalty is one of
/// 0, 5, 10 and 20.
pub proof fn lemma_size_penalty_monotone(smaller: nat, larger: nat)
    requires
        smaller <= larger,
    ensures
        size_penalty_of(smaller) <= size_penalty_of(larger),
        size_penalty_of(larger) == 0 || size_penalty_of(larger) == 5 || size_penalty_of(larger)
            == 10 || size_penalty_of(larger) == 20,
{
}

/// Each band of the size penalty begins exactly at its lower bound.
pub proof fn lemma_size_penalty_bands(total: nat)
    ensures
        size_penalty_of(total) == 0 <==> total < 100,
        size_penalty_of(total) == 5 <==> 100 <= total < 300,
        size_penalty_of(total) == 10 <==> 300 <= total < 500,
        size_penalty_of(total) == 20 <==> 500 <= total,
{
}

/// Confidence never leaves the range from 0 to 100, whatever the penalty.
pub proof fn lemma_confidence_in_range(
    ci_passed: bool,
    review_approved: bool,
    tests: bool,
    one_scope: bool,
    penalty: int,
)
    ensures
        0 <= confidence_of(ci_passed, review_approved, tests, one_scope, penalty) <= 100,
{
}

/// A blocker forbids the merge at every confidence and every threshold.
pub proof fn lemma_blocker_dominates(confidence: nat, threshold: nat, reason: Seq<char>)
    ensures
        verdict(confidence, threshold, Some(reason)) == (DecisionView::Blocked { reason }),
{
}

/// Without a blocker a change is merged exactly when its confidence reaches
/// the threshold, the threshold itself included; otherwise it is escalated
/// with both numbers.
pub proof fn lemma_threshold_is_inclusive(confidence: nat, threshold: nat)
    ensures
        confidence >= threshold ==> verdict(confidence, threshold, None)
            == (DecisionView::AutoMerge { confidence }),
        confidence < threshold ==> verdict(confidence, threshold, None) == (DecisionView::Escalate {
            confidence,
            threshold,
        }),
{
}

/// The order of the changed paths, and how often one is listed, do not bear
/// on the score: two lists that hold the same paths bring tests alike and
/// are one scope alike.
pub proof fn lemma_scoring_ignores_order(paths: Seq<Seq<char>>, other: Seq<Seq<char>>)
    requires
        paths.to_set() == other.to_set(),
    ensures
        any_test_path(paths) == any_test_path(other),
        single_scope(paths) == single_scope(other),
{
    lemma_same_paths_one_way(paths, other);
    lemma_same_paths_one_way(other, paths);
}

/// What holds of a list of paths holds of every list made of the same
/// paths.
proof fn lemma_same_paths_one_way(paths: Seq<Seq<char>>, other: Seq<Seq<char>>)
    requires
        paths.to_set() == other.to_set(),
    ensures
        any_test_path(paths) ==> any_test_path(other),
        single_scope(paths) ==> single_scope(other),
{
    if any_test_path(paths) {
        let i = choose|i: int| 0 <= i < paths.len() && is_test_path(#[trigger] paths[i]);
        assert(paths.to_set().contains(paths[i]));
    }
    if single_scope(paths) {
        assert forall|a: int, b: int| 0 <= a < other.len() && 0 <= b < other.len() implies top_level(
            #[trigger] other[a],
        ) == top_level(#[trigger] other[b]) by {
            assert(other.to_set().contains(other[a]));
            assert(other.to_set().contains(other[b]));
        }
    }
}

/// No paths and a single path are each one scope.
pub proof fn lemma_few_paths_are_single_scope(path: Seq<char>)
    ensures
        single_scope(Seq::<Seq<char>>::empty()),
        single_scope(seq![path]),
{
}

} // verus!
