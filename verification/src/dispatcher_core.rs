//! The dispatcher: scores the risk of an open issue and routes it to one of
//! the coding agents according to a strategy.

use vstd::prelude::*;
use vstd::string::StringExecFns;
use crate::text::{contains, contains_str, lowercase, text_is, to_lowercase};

verus! {

/// How the dispatcher picks an agent.
#[derive(Debug, Clone, Copy, PartialEq, Eq, Structural)]
pub enum Strategy {
    /// Alternate between the agents, call by call.
    RoundRobin,
    /// Toss a fair coin for each issue.
    Random,
    /// Every issue goes to Copilot.
    CopilotOnly,
    /// Every issue goes to Jules.
    JulesOnly,
}

/// A coding agent.
#[derive(Debug, Clone, Copy, PartialEq, Eq, Structural)]
pub enum Agent {
    Copilot,
    Jules,
}

/// A strategy name that the dispatcher does not know.
#[derive(Debug, Clone, PartialEq, Eq)]
pub struct InvalidStrategy {
    /// The name as it was given.
    pub input: String,
}

/// The strategy that a lower-case name stands for, if any.
pub open spec fn strategy_named(lowered: Seq<char>) -> Option<Strategy> {
    if lowered == "round-robin"@ || lowered == "roundrobin"@ {
        Some(Strategy::RoundRobin)
    } else if lowered == "random"@ {
        Some(Strategy::Random)
    } else if lowered == "copilot-only"@ || lowered == "copilot"@ {
        Some(Strategy::CopilotOnly)
    } else if lowered == "jules-only"@ || lowered == "jules"@ {
        Some(Strategy::JulesOnly)
    } else {
        None
    }
}

impl Strategy {
    /// The strategy that the lower-case name `lowered` stands for.
    pub fn from_lowercase_name(lowered: &str) -> (strategy: Option<Strategy>)
        ensures
            strategy == strategy_named(lowered@),
    {
        if text_is(lowered, "round-robin") || text_is(lowered, "roundrobin") {
            Some(Strategy::RoundRobin)
        } else if text_is(lowered, "random") {
            Some(Strategy::Random)
        } else if text_is(lowered, "copilot-only") || text_is(lowered, "copilot") {
            Some(Strategy::CopilotOnly)
        } else if text_is(lowered, "jules-only") || text_is(lowered, "jules") {
            Some(Strategy::JulesOnly)
        } else {
            None
        }
    }

    /// Reads a strategy from its name, in any mix of upper and lower case.
    /// An unknown name comes back inside the error.
    pub fn parse(input: &str) -> (parsed: Result<Strategy, InvalidStrategy>)
        ensures
            match strategy_named(lowercase(input@)) {
                Some(strategy) => parsed == Ok::<Strategy, InvalidStrategy>(strategy),
                None => parsed is Err && parsed->Err_0.input@ == input@,
            },
    {
        let lowered = to_lowercase(input);
        match Strategy::from_lowercase_name(lowered.as_str()) {
            Some(strategy) => Ok(strategy),
            None => Err(InvalidStrategy { input: input.to_owned() }),
        }
    }

    /// Why an issue went where it went under this strategy.
    pub open spec fn reason_text(self) -> Seq<char> {
        match self {
            Strategy::RoundRobin => "Round-robin distribution"@,
            Strategy::Random => "Random selection"@,
            Strategy::CopilotOnly => "Copilot-only mode"@,
            Strategy::JulesOnly => "Jules-only mode"@,
        }
    }

    /// Why an issue went where it went under this strategy.
    pub fn reason(&self) -> (reason: &'static str)
        ensures
            reason@ == self.reason_text(),
    {
        match self {
            Strategy::RoundRobin => "Round-robin distribution",
            Strategy::Random => "Random selection",
            Strategy::CopilotOnly => "Copilot-only mode",
            Strategy::JulesOnly => "Jules-only mode",
        }
    }
}

impl std::str::FromStr for Strategy {
    type Err = InvalidStrategy;

    /// Reads a strategy from its name, as `Strategy::parse` does.
    fn from_str(input: &str) -> (parsed: Result<Self, Self::Err>)
        ensures
            match strategy_named(lowercase(input@)) {
                Some(strategy) => parsed == Ok::<Strategy, InvalidStrategy>(strategy),
                None => parsed is Err && parsed->Err_0.input@ == input@,
            },
    {
        Strategy::parse(input)
    }
}

impl InvalidStrategy {
    /// A sentence that names the rejected input.
    pub fn message(&self) -> (message: String)
        ensures
            message@ == "Invalid strategy: "@ + self.input@,
    {
        let mut message = "Invalid strategy: ".to_owned();
        message.append(self.input.as_str());
        message
    }
}

impl Agent {
    /// The label that marks an issue as this agent's.
    pub open spec fn label_text(self) -> Seq<char> {
        match self {
            Agent::Copilot => "copilot"@,
            Agent::Jules => "jules"@,
        }
    }

    /// The account to assign an issue to, for an agent that has one.
    pub open spec fn assignee_text(self) -> Option<Seq<char>> {
        match self {
            Agent::Copilot => Some("Copilot"@),
            Agent::Jules => None,
        }
    }

    /// The label that marks an issue as this agent's.
    pub fn label(&self) -> (label: &'static str)
        ensures
            label@ == self.label_text(),
    {
        match self {
            Agent::Copilot => "copilot",
            Agent::Jules => "jules",
        }
    }

    /// The account to assign an issue to. Jules works from labels alone and
    /// has none.
    pub fn assignee(&self) -> (assignee: Option<&'static str>)
        ensures
            match self.assignee_text() {
                Some(name) => assignee is Some && assignee->Some_0@ == name,
                None => assignee is None,
            },
    {
        match self {
            Agent::Copilot => Some("Copilot"),
            Agent::Jules => None,
        }
    }
}

/// An open issue that awaits an agent.
#[derive(Debug, Clone)]
pub struct Issue {
    pub number: u64,
    pub title: String,
    pub body: Option<String>,
    pub labels: Vec<String>,
}

/// What the dispatcher decided for one issue.
#[derive(Debug, Clone)]
pub struct Assignment {
    pub issue_number: u64,
    pub issue_title: String,
    pub agent: Agent,
    pub risk_score: u8,
    pub reason: String,
}

/// An issue as plain values.
pub struct IssueView {
    pub number: nat,
    pub title: Seq<char>,
    pub body: Option<Seq<char>>,
    pub labels: Seq<Seq<char>>,
}

/// An assignment as plain values.
pub struct AssignmentView {
    pub issue_number: nat,
    pub issue_title: Seq<char>,
    pub agent: Agent,
    pub risk_score: nat,
    pub reason: Seq<char>,
}

impl View for Issue {
    type V = IssueView;

    open spec fn view(&self) -> IssueView {
        IssueView {
            number: self.number as nat,
            title: self.title@,
            body: self.body.deep_view(),
            labels: self.labels.deep_view(),
        }
    }
}

impl DeepView for Issue {
    type V = IssueView;

    open spec fn deep_view(&self) -> IssueView {
        self@
    }
}

impl DeepView for Assignment {
    type V = AssignmentView;

    open spec fn deep_view(&self) -> AssignmentView {
        self@
    }
}

impl View for Assignment {
    type V = AssignmentView;

    open spec fn view(&self) -> AssignmentView {
        AssignmentView {
            issue_number: self.issue_number as nat,
            issue_title: self.issue_title@,
            agent: self.agent,
            risk_score: self.risk_score as nat,
            reason: self.reason@,
        }
    }
}

/// Risk points that one label adds, given in lower case: 30 when it speaks of
/// security, a breaking change or something critical, and 10 more when it
/// speaks of a bug.
pub open spec fn label_risk(lowered: Seq<char>) -> int {
    (if contains(lowered, "security"@) || contains(lowered, "breaking"@) || contains(
        lowered,
        "critical"@,
    ) { 30int } else { 0 }) + (if contains(lowered, "bug"@) { 10int } else { 0 })
}

/// Risk points of all labels together: each label counts on its own.
pub open spec fn labels_risk(labels: Seq<Seq<char>>) -> int
    decreases labels.len(),
{
    if labels.len() == 0 {
        0
    } else {
        labels_risk(labels.drop_last()) + label_risk(lowercase(labels.last()))
    }
}

/// Risk points that the free text adds, given in lower case: 20 when it
/// touches on authentication, security or cryptography, 10 when it speaks of
/// a refactoring or a migration; each at most once.
pub open spec fn text_risk(lowered: Seq<char>) -> int {
    (if contains(lowered, "auth"@) || contains(lowered, "security"@) || contains(
        lowered,
        "crypto"@,
    ) { 20int } else { 0 }) + (if contains(lowered, "refactor"@) || contains(
        lowered,
        "migration"@,
    ) { 10int } else { 0 })
}

/// The text of an optional body; a missing body reads as empty.
pub open spec fn body_text(body: Option<Seq<char>>) -> Seq<char> {
    match body {
        Some(text) => text,
        None => Seq::empty(),
    }
}

/// The free text of an issue: its title followed by its body.
pub open spec fn issue_text(issue: IssueView) -> Seq<char> {
    issue.title + body_text(issue.body)
}

/// The risk of an issue: label points plus text points, capped at 100.
pub open spec fn risk_of(issue: IssueView) -> int {
    let points = labels_risk(issue.labels) + text_risk(lowercase(issue_text(issue)));
    if points > 100 { 100 } else { points }
}

/// Labels count one by one: the points of two lists of labels together are
/// the points of the one plus the points of the other.
pub proof fn lemma_labels_stack(first: Seq<Seq<char>>, second: Seq<Seq<char>>)
    ensures
        labels_risk(first + second) == labels_risk(first) + labels_risk(second),
    decreases second.len(),
{
    if second.len() > 0 {
        lemma_labels_stack(first, second.drop_last());
        assert((first + second).drop_last() =~= first + second.drop_last());
    }
}

/// The risk of an issue lies between 0 and 100; its free text alone adds
/// at most 30 points, however often the words occur.
pub proof fn lemma_risk_in_range(issue: IssueView)
    ensures
        0 <= risk_of(issue) <= 100,
        0 <= text_risk(lowercase(issue_text(issue))) <= 30,
        0 <= labels_risk(issue.labels),
{
    lemma_labels_risk_not_negative(issue.labels);
}

/// Labels never lower the risk.
proof fn lemma_labels_risk_not_negative(labels: Seq<Seq<char>>)
    ensures
        0 <= labels_risk(labels),
    decreases labels.len(),
{
    if labels.len() > 0 {
        lemma_labels_risk_not_negative(labels.drop_last());
    }
}

/// Risk points that the lower-case label `lowered` adds.
pub fn label_risk_points(lowered: &str) -> (points: u8)
    ensures
        points == label_risk(lowered@),
{
    let mut points: u8 = 0;
    if contains_str(lowered, "security") || contains_str(lowered, "breaking") || contains_str(
        lowered,
        "critical",
    ) {
        points += 30;
    }
    if contains_str(lowered, "bug") {
        points += 10;
    }
    points
}

/// Risk points that the lower-case free text `lowered` adds.
pub fn text_risk_points(lowered: &str) -> (points: u8)
    ensures
        points == text_risk(lowered@),
{
    let mut points: u8 = 0;
    if contains_str(lowered, "auth") || contains_str(lowered, "security") || contains_str(
        lowered,
        "crypto",
    ) {
        points += 20;
    }
    if contains_str(lowered, "refactor") || contains_str(lowered, "migration") {
        points += 10;
    }
    points
}

/// The agent whose turn it is at a given slot of the rotation: Copilot at
/// the even slots, Jules at the odd ones.
pub open spec fn agent_at_slot(slot: nat) -> Agent {
    if slot % 2 == 0 {
        Agent::Copilot
    } else {
        Agent::Jules
    }
}

/// The agent that a coin toss picks: Copilot on heads.
pub open spec fn agent_on_toss(heads: bool) -> Agent {
    if heads {
        Agent::Copilot
    } else {
        Agent::Jules
    }
}

/// What an assignment must say about `issue` under `strategy`, the agent
/// aside where the strategy leaves it to the rotation or to chance.
pub open spec fn assignment_fits(
    assignment: AssignmentView,
    issue: IssueView,
    strategy: Strategy,
) -> bool {
    &&& assignment.issue_number == issue.number
    &&& assignment.issue_title == issue.title
    &&& assignment.risk_score == risk_of(issue)
    &&& assignment.reason == strategy.reason_text()
    &&& strategy == Strategy::CopilotOnly ==> assignment.agent == Agent::Copilot
    &&& strategy == Strategy::JulesOnly ==> assignment.agent == Agent::Jules
}

/// The agent whose turn it is at `slot` of the rotation.
pub fn agent_for_slot(slot: usize) -> (agent: Agent)
    ensures
        agent == agent_at_slot(slot as nat),
{
    if slot % 2 == 0 {
        Agent::Copilot
    } else {
        Agent::Jules
    }
}

/// The agent that a coin toss picks.
pub fn agent_for_toss(heads: bool) -> (agent: Agent)
    ensures
        agent == agent_on_toss(heads),
{
    if heads {
        Agent::Copilot
    } else {
        Agent::Jules
    }
}

/// Tosses a fair coin with `Rng::gen_ratio(1, 2)` on the thread's generator
/// from `rand::thread_rng`. Trusted, and nothing is claimed of the outcome.
#[verifier::external_body]
fn toss_coin() -> (heads: bool) {
    rand::Rng::gen_ratio(&mut rand::thread_rng(), 1, 2)
}

/// The dispatcher for one repository.
pub struct DispatcherCore {
    owner: String,
    repo: String,
    high_risk_threshold: u8,
    round_robin_index: std::sync::atomic::AtomicUsize,
}

/// Risk at or above which an issue counts as high-risk, unless the caller
/// chooses another threshold.
pub const DEFAULT_HIGH_RISK_THRESHOLD: u8 = 70;

impl DispatcherCore {
    /// The owner of the repository that this dispatcher serves.
    pub closed spec fn owner_name(&self) -> Seq<char> {
        self.owner@
    }

    /// The name of the repository that this dispatcher serves.
    pub closed spec fn repo_name(&self) -> Seq<char> {
        self.repo@
    }

    /// The risk at or above which an issue counts as high-risk. No strategy
    /// reads it yet: it is kept for strategies that will.
    pub closed spec fn risk_threshold(&self) -> u8 {
        self.high_risk_threshold
    }

    /// A dispatcher for `owner/repo` whose rotation starts at slot 0.
    pub fn new(owner: String, repo: String) -> (dispatcher: Self)
        ensures
            dispatcher.owner_name() == owner@,
            dispatcher.repo_name() == repo@,
            dispatcher.risk_threshold() == DEFAULT_HIGH_RISK_THRESHOLD,
    {
        DispatcherCore {
            owner,
            repo,
            high_risk_threshold: DEFAULT_HIGH_RISK_THRESHOLD,
            round_robin_index: std::sync::atomic::AtomicUsize::new(0),
        }
    }

    /// The same dispatcher with another high-risk threshold.
    pub fn with_risk_threshold(self, threshold: u8) -> (dispatcher: Self)
        ensures
            dispatcher.owner_name() == self.owner_name(),
            dispatcher.repo_name() == self.repo_name(),
            dispatcher.risk_threshold() == threshold,
    {
        DispatcherCore {
            owner: self.owner,
            repo: self.repo,
            high_risk_threshold: threshold,
            round_robin_index: self.round_robin_index,
        }
    }

    /// The owner of the repository that this dispatcher serves.
    pub fn owner(&self) -> (owner: &str)
        ensures
            owner@ == self.owner_name(),
    {
        self.owner.as_str()
    }

    /// The name of the repository that this dispatcher serves.
    pub fn repo(&self) -> (repo: &str)
        ensures
            repo@ == self.repo_name(),
    {
        self.repo.as_str()
    }

    /// The high-risk threshold in use.
    pub fn high_risk_threshold(&self) -> (threshold: u8)
        ensures
            threshold == self.risk_threshold(),
    {
        self.high_risk_threshold
    }

    /// Claims the next slot of the rotation: reads the shared counter and
    /// advances it in one atomic step, so that no two callers get the same
    /// slot until the counter wraps. Which slot comes back depends on the
    /// calls made before, by this caller and by others.
    pub fn claim_slot(&self) -> (slot: usize) {
        self.round_robin_index.fetch_add(1, std::sync::atomic::Ordering::Relaxed)
    }

    /// The risk of `issue`, from 0 to 100.
    pub fn analyze_risk(&self, issue: &Issue) -> (risk: u8)
        ensures
            risk == risk_of(issue@),
            risk <= 100,
    {
        let mut risk: u8 = 0;
        let mut i: usize = 0;
        while i < issue.labels.len()
            invariant
                i <= issue.labels.len(),
                risk <= 100,
                risk == (if labels_risk(issue.labels.deep_view().take(i as int)) > 100 {
                    100
                } else {
                    labels_risk(issue.labels.deep_view().take(i as int))
                }),
                labels_risk(issue.labels.deep_view().take(i as int)) >= 0,
            decreases issue.labels.len() - i,
        {
            let lowered = to_lowercase(issue.labels[i].as_str());
            let points = label_risk_points(lowered.as_str());
            proof {
                let labels = issue.labels.deep_view();
                assert(labels.take(i + 1).drop_last() =~= labels.take(i as int));
            }
            risk = if points > 100 - risk { 100 } else { risk + points };
            i += 1;
        }
        assert(issue.labels.deep_view().take(i as int) =~= issue.labels.deep_view());
        let mut text = issue.title.clone();
        match &issue.body {
            Some(body) => {
                text.append(body.as_str());
            },
            None => {
            },
        }
        let lowered = to_lowercase(text.as_str());
        let points = text_risk_points(lowered.as_str());
        if points > 100 - risk { 100 } else { risk + points }
    }

    /// Picks the agent for one issue. The fixed strategies name their agent;
    /// round-robin gives the agent of the slot it claims; random tosses a
    /// coin. Neither the issue nor its risk sways the choice yet.
    pub fn select_agent(&self, strategy: Strategy, issue: &Issue, risk_score: u8) -> (agent: Agent)
        ensures
            strategy == Strategy::CopilotOnly ==> agent == Agent::Copilot,
            strategy == Strategy::JulesOnly ==> agent == Agent::Jules,
    {
        match strategy {
            Strategy::RoundRobin => agent_for_slot(self.claim_slot()),
            Strategy::Random => agent_for_toss(toss_coin()),
            Strategy::CopilotOnly => Agent::Copilot,
            Strategy::JulesOnly => Agent::Jules,
        }
    }

    /// Scores `issue` and assigns it under `strategy`.
    pub fn analyze_and_assign(&self, issue: &Issue, strategy: Strategy) -> (assignment: Assignment)
        ensures
            assignment_fits(assignment@, issue@, strategy),
    {
        let risk_score = self.analyze_risk(issue);
        let agent = self.select_agent(strategy, issue, risk_score);
        Assignment {
            issue_number: issue.number,
            issue_title: issue.title.clone(),
            agent,
            risk_score,
            reason: strategy.reason().to_owned(),
        }
    }

    /// Assigns the first `max_issues` of `issues`, in their order.
    pub fn assign_issues(&self, strategy: Strategy, max_issues: usize, issues: &Vec<Issue>) -> (
        assignments: Vec<Assignment>)
        ensures
            assignments.len() == (if max_issues < issues.len() { max_issues } else { issues.len() }),
            forall|i: int|
                0 <= i < assignments.len() ==> assignment_fits(
                    #[trigger] assignments[i]@,
                    issues[i]@,
                    strategy,
                ),
    {
        let count: usize = if max_issues < issues.len() { max_issues } else { issues.len() };
        let mut assignments: Vec<Assignment> = Vec::new();
        let mut i: usize = 0;
        while i < count
            invariant
                i <= count <= issues.len(),
                assignments.len() == i,
                forall|j: int|
                    0 <= j < i ==> assignment_fits(#[trigger] assignments[j]@, issues[j]@, strategy),
            decreases count - i,
        {
            let assignment = self.analyze_and_assign(&issues[i], strategy);
            assignments.push(assignment);
            i += 1;
        }
        assignments
    }
}

} // verus!
