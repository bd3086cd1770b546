//! The step after dispatch: what to write back to the repository for each
//! assignment, and the bookkeeping of a run in which single writes may fail.

use vstd::prelude::*;
use crate::dispatcher_core::{Agent, Assignment, AssignmentView};

verus! {

/// One write to the repository.
#[derive(Debug, Clone, PartialEq, Eq)]
pub enum WriteBack {
    /// Put a label on an issue.
    AddLabel { issue_number: u64, label: String },
    /// Assign an issue to an account.
    Assign { issue_number: u64, assignee: String },
}

/// A write as plain values.
pub enum WriteBackView {
    AddLabel { issue_number: nat, label: Seq<char> },
    Assign { issue_number: nat, assignee: Seq<char> },
}

impl DeepView for WriteBack {
    type V = WriteBackView;

    open spec fn deep_view(&self) -> WriteBackView {
        match *self {
            WriteBack::AddLabel { issue_number, label } => WriteBackView::AddLabel {
                issue_number: issue_number as nat,
                label: label@,
            },
            WriteBack::Assign { issue_number, assignee } => WriteBackView::Assign {
                issue_number: issue_number as nat,
                assignee: assignee@,
            },
        }
    }
}

/// The writes for one assignment: the agent's label, then the agent's
/// account as assignee where the agent has one.
pub open spec fn write_backs_of(assignment: AssignmentView) -> Seq<WriteBackView> {
    let label = WriteBackView::AddLabel {
        issue_number: assignment.issue_number,
        label: assignment.agent.label_text(),
    };
    match assignment.agent.assignee_text() {
        Some(assignee) => seq![
            label,
            WriteBackView::Assign { issue_number: assignment.issue_number, assignee },
        ],
        None => seq![label],
    }
}

/// The writes for all assignments, assignment by assignment.
pub open spec fn all_write_backs(assignments: Seq<AssignmentView>) -> Seq<WriteBackView>
    decreases assignments.len(),
{
    if assignments.len() == 0 {
        Seq::empty()
    } else {
        all_write_backs(assignments.drop_last()) + write_backs_of(assignments.last())
    }
}

/// What a run writes: nothing when it is a dry run.
pub open spec fn planned_write_backs(assignments: Seq<AssignmentView>, dry_run: bool) -> Seq<
    WriteBackView,
> {
    if dry_run {
        Seq::empty()
    } else {
        all_write_backs(assignments)
    }
}

/// The writes for one assignment.
pub fn write_backs_for(assignment: &Assignment) -> (writes: Vec<WriteBack>)
    ensures
        writes.deep_view() == write_backs_of(assignment@),
{
    let mut writes: Vec<WriteBack> = Vec::new();
    writes.push(
        WriteBack::AddLabel {
            issue_number: assignment.issue_number,
            label: assignment.agent.label().to_owned(),
        },
    );
    match assignment.agent.assignee() {
        Some(assignee) => {
            writes.push(
                WriteBack::Assign {
                    issue_number: assignment.issue_number,
                    assignee: assignee.to_owned(),
                },
            );
        },
        None => {},
    }
    writes
}

/// Plans the writes of a run, in the order of the assignments. A dry run
/// writes nothing.
pub fn plan_write_backs(assignments: &Vec<Assignment>, dry_run: bool) -> (plan: Vec<WriteBack>)
    ensures
        plan.deep_view() == planned_write_backs(assignments.deep_view(), dry_run),
        dry_run ==> plan.len() == 0,
{
    let ghost all = assignments.deep_view();
    let mut plan: Vec<WriteBack> = Vec::new();
    if dry_run {
        return plan;
    }
    let mut i: usize = 0;
    while i < assignments.len()
        invariant
            i <= assignments.len(),
            all == assignments.deep_view(),
            plan.deep_view() == all_write_backs(all.take(i as int)),
        decreases assignments.len() - i,
    {
        proof {
            assert(all.take(i + 1).drop_last() =~= all.take(i as int));
        }
        let mut writes = write_backs_for(&assignments[i]);
        plan.append(&mut writes);
        i += 1;
    }
    assert(all.take(i as int) =~= all);
    plan
}

/// A run through a plan of writes. Each write is tried once, and the run
/// goes on to the next write whether or not the last one succeeded.
#[derive(Debug)]
pub struct WriteBackRun {
    plan: Vec<WriteBack>,
    outcomes: Vec<bool>,
}

impl WriteBackRun {
    /// No more outcomes are on record than the plan has writes.
    #[verifier::type_invariant]
    spec fn within_plan(self) -> bool {
        self.outcomes.len() <= self.plan.len()
    }

    /// The writes of this run.
    pub closed spec fn planned(&self) -> Seq<WriteBackView> {
        self.plan.deep_view()
    }

    /// Whether each write tried so far succeeded, in the order of the plan.
    pub closed spec fn recorded(&self) -> Seq<bool> {
        self.outcomes@
    }

    /// A run that has tried nothing yet.
    pub fn new(plan: Vec<WriteBack>) -> (run: Self)
        ensures
            run.planned() == plan.deep_view(),
            run.recorded() == Seq::<bool>::empty(),
    {
        WriteBackRun { plan, outcomes: Vec::new() }
    }

    /// The write to try next; none once every write has been tried.
    pub fn next(&self) -> (write: Option<&WriteBack>)
        ensures
            self.recorded().len() <= self.planned().len(),
            match write {
                Some(next) => self.recorded().len() < self.planned().len() && next.deep_view()
                    == self.planned()[self.recorded().len() as int],
                None => self.recorded().len() == self.planned().len(),
            },
    {
        proof {
            use_type_invariant(self);
        }
        if self.outcomes.len() < self.plan.len() {
            Some(&self.plan[self.outcomes.len()])
        } else {
            None
        }
    }

    /// The run after the write that `next` gave went as `succeeded` says.
    /// The plan stays as it is, so a failure holds up nothing; once every
    /// write has been tried, nothing more is recorded.
    pub fn record(self, succeeded: bool) -> (run: Self)
        ensures
            run.planned() == self.planned(),
            run.recorded() == (if self.recorded().len() < self.planned().len() {
                self.recorded().push(succeeded)
            } else {
                self.recorded()
            }),
    {
        proof {
            use_type_invariant(&self);
        }
        let plan = self.plan;
        let mut outcomes = self.outcomes;
        if outcomes.len() < plan.len() {
            outcomes.push(succeeded);
        }
        WriteBackRun { plan, outcomes }
    }

    /// Tests whether every write has been tried.
    pub fn is_finished(&self) -> (finished: bool)
        ensures
            finished == (self.recorded().len() == self.planned().len()),
            self.recorded().len() <= self.planned().len(),
    {
        proof {
            use_type_invariant(self);
        }
        self.outcomes.len() == self.plan.len()
    }

    /// The positions in the plan of the writes that failed, in rising order.
    pub fn failed_positions(&self) -> (failed: Vec<usize>)
        ensures
            failed@.map_values(|at: usize| at as int) == Seq::new(
                self.recorded().len(),
                |at: int| at,
            ).filter(|at: int| 0 <= at < self.recorded().len() && !self.recorded()[at]),
    {
        let ghost positions = Seq::new(self.outcomes@.len(), |at: int| at);
        let ghost is_failed = |at: int| 0 <= at < self.outcomes@.len() && !self.outcomes@[at];
        let mut failed: Vec<usize> = Vec::new();
        let mut i: usize = 0;
        while i < self.outcomes.len()
            invariant
                i <= self.outcomes.len(),
                positions == Seq::new(self.outcomes@.len(), |at: int| at),
                is_failed == (|at: int| 0 <= at < self.outcomes@.len() && !self.outcomes@[at]),
                failed@.map_values(|at: usize| at as int) == positions.take(i as int).filter(
                    is_failed,
                ),
            decreases self.outcomes.len() - i,
        {
            proof {
                assert(positions.take(i + 1) =~= positions.take(i as int).push(i as int));
                Seq::lemma_filter_push(positions.take(i as int), i as int, is_failed);
            }
            if !self.outcomes[i] {
                failed.push(i);
            }
            i += 1;
        }
        assert(positions.take(i as int) =~= positions);
        failed
    }
}

} // verus!
