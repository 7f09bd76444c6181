//! Goals the agent pursues, and the environment it works in.
//!
//! Goals have priority: higher is more important. Agent goals (built in) have
//! priorities 80 to 100; goals the user named at onboarding get priority 10,
//! so they shape how the agent answers, not what it does.

use vstd::prelude::*;
use crate::profile::UserProfile;
use crate::text::{decimal, own, push_decimal, views};
use vstd::string::StringExecFns;

verus! {

broadcast use vstd::seq_lib::group_seq_properties;

/// A goal for the agent to pursue.
#[derive(Debug, Clone)]
pub struct Goal {
    /// Unique identifier for the goal.
    pub name: String,
    /// Human-readable description.
    pub description: String,
    /// Priority (1-100). Agent goals: 80-100. User goals: 1-20.
    pub priority: u8,
}

/// A goal as plain values.
pub struct GoalView {
    pub name: Seq<char>,
    pub description: Seq<char>,
    pub priority: u8,
}

impl View for Goal {
    type V = GoalView;

    open spec fn view(&self) -> GoalView {
        GoalView { name: self.name@, description: self.description@, priority: self.priority }
    }
}

/// The goals as plain values.
pub open spec fn goal_views(s: Seq<Goal>) -> Seq<GoalView> {
    s.map_values(|g: Goal| g@)
}

impl Goal {
    /// Create a new goal.
    pub fn new(name: &str, description: &str, priority: u8) -> (r: Self)
        ensures
            r.name@ == name@,
            r.description@ == description@,
            r.priority == priority,
    {
        Goal { name: own(name), description: own(description), priority }
    }
}

/// The built-in agent goals, in their order.
pub open spec fn standard_goal_views() -> Seq<GoalView> {
    seq![
        GoalView {
            name: "answer_budget_questions"@,
            description: "Answer user questions about their budget using YNAB API tools. Get actual data, never estimate."@,
            priority: 95,
        },
        GoalView {
            name: "explain_patterns"@,
            description: "Explain WHY spending patterns exist. Use the data to provide reasoning, not just numbers."@,
            priority: 90,
        },
        GoalView {
            name: "personalize_responses"@,
            description: "Tailor responses to user's goals, concerns, and preferred communication style."@,
            priority: 85,
        },
        GoalView {
            name: "ensure_accuracy"@,
            description: "Always use tools to get real data. Never make up numbers or pretend to know."@,
            priority: 100,
        },
    ]
}

/// Standard agent goals - always present for budget-explorer.
pub fn standard_goals() -> (r: Vec<Goal>)
    ensures
        goal_views(r@) == standard_goal_views(),
{
    let mut r: Vec<Goal> = Vec::new();
    r.push(
        Goal::new(
            "answer_budget_questions",
            "Answer user questions about their budget using YNAB API tools. Get actual data, never estimate.",
            95,
        ),
    );
    r.push(
        Goal::new(
            "explain_patterns",
            "Explain WHY spending patterns exist. Use the data to provide reasoning, not just numbers.",
            90,
        ),
    );
    r.push(
        Goal::new(
            "personalize_responses",
            "Tailor responses to user's goals, concerns, and preferred communication style.",
            85,
        ),
    );
    r.push(
        Goal::new(
            "ensure_accuracy",
            "Always use tools to get real data. Never make up numbers or pretend to know.",
            100,
        ),
    );
    assert(goal_views(r@) =~= standard_goal_views());
    r
}

/// The priority of every goal taken from the user's profile.
pub const USER_GOAL_PRIORITY: u8 = 10;

/// The goal made of the user's `i`-th goal text.
pub open spec fn user_goal_view(i: nat, text: Seq<char>) -> GoalView {
    GoalView { name: "user_goal_"@ + decimal(i), description: text, priority: USER_GOAL_PRIORITY }
}

/// The goals made of the user's goal texts, in order.
pub open spec fn user_goal_views(texts: Seq<Seq<char>>) -> Seq<GoalView> {
    Seq::new(texts.len(), |i: int| user_goal_view(i as nat, texts[i]))
}

/// Highest priority first: each goal's priority is no lower than the next's.
pub open spec fn by_priority(s: Seq<GoalView>) -> bool {
    forall|i: int, j: int| 0 <= i < j < s.len() ==> s[j].priority <= s[i].priority
}

/// The goals of `s` with priority `p`, in their order in `s`.
pub open spec fn at_priority(s: Seq<GoalView>, p: u8) -> Seq<GoalView> {
    s.filter(|g: GoalView| g.priority == p)
}

/// `out` orders the goals of `input` by priority, highest first, keeping the
/// order of `input` among goals of equal priority (a stable sort).
pub open spec fn sorted_by_priority(out: Seq<GoalView>, input: Seq<GoalView>) -> bool {
    &&& by_priority(out)
    &&& forall|p: u8| #[trigger] at_priority(out, p) == at_priority(input, p)
}

proof fn lemma_at_priority_insert(old_out: Seq<GoalView>, k: int, x: GoalView, p: u8)
    requires
        0 <= k <= old_out.len(),
        forall|q: int| k <= q < old_out.len() ==> old_out[q].priority < x.priority,
    ensures
        at_priority(old_out.insert(k, x), p) == if x.priority == p {
            at_priority(old_out, p).push(x)
        } else {
            at_priority(old_out, p)
        },
{
    let pred = |g: GoalView| g.priority == p;
    let a = old_out.take(k);
    let b = old_out.skip(k);
    assert(old_out == a + b);
    assert(old_out.insert(k, x) == a + seq![x] + b);
    assert((a + seq![x]).filter(pred) == a.filter(pred) + seq![x].filter(pred));
    assert((a + seq![x] + b).filter(pred) == (a + seq![x]).filter(pred) + b.filter(pred));
    assert((a + b).filter(pred) == a.filter(pred) + b.filter(pred));
    reveal_with_fuel(Seq::filter, 2);
    if x.priority == p {
        assert forall|q: int| 0 <= q < b.len() implies !pred(b[q]) by {
            assert(b[q] == old_out[k + q]);
        }
        assert(b.all(|g: GoalView| !pred(g)));
        b.lemma_all_neg_filter_empty(pred);
        assert(b.filter(pred) =~= Seq::<GoalView>::empty());
        assert(seq![x].filter(pred) =~= seq![x]);
    } else {
        assert(seq![x].filter(pred) =~= Seq::<GoalView>::empty());
    }
}

/// Sort goals by priority, highest first; goals of equal priority keep
/// their relative order.
pub fn sort_by_priority(goals: Vec<Goal>) -> (r: Vec<Goal>)
    ensures
        sorted_by_priority(goal_views(r@), goal_views(goals@)),
        r@.len() == goals@.len(),
{
    let ghost orig = goal_views(goals@);
    let mut input = goals;
    let mut out: Vec<Goal> = Vec::new();
    let mut k: usize = 0;
    let n = input.len();
    assert(orig.skip(0) == orig);
    while input.len() > 0
        invariant
            k + input@.len() == n,
            n == orig.len(),
            out@.len() == k,
            goal_views(input@) == orig.skip(k as int),
            by_priority(goal_views(out@)),
            forall|p: u8| #[trigger] at_priority(goal_views(out@), p) == at_priority(orig.take(k as int), p),
        decreases input@.len(),
    {
        let x = input.remove(0);
        assert(goal_views(input@) == orig.skip(k + 1));
        assert(x@ == orig[k as int]);
        let ghost ov = goal_views(out@);
        let m = out.len();
        let mut q: usize = 0;
        while q < m && out[q].priority >= x.priority
            invariant
                q <= m,
                m == out@.len(),
                ov == goal_views(out@),
                forall|j: int| 0 <= j < q ==> #[trigger] ov[j].priority >= x.priority,
            decreases m - q,
        {
            q = q + 1;
        }
        proof {
            assert forall|j: int| q <= j < ov.len() implies ov[j].priority < x.priority by {
                if j > q {
                    assert(by_priority(ov));
                    assert(ov[j].priority <= ov[q as int].priority);
                }
            }
        }
        let ghost xv = x@;
        out.insert(q, x);
        proof {
            let nv = goal_views(out@);
            assert(nv == ov.insert(q as int, xv));
            assert forall|i: int, j: int| 0 <= i < j < nv.len() implies nv[j].priority
                <= nv[i].priority by {
                if j < q {
                    assert(nv[i] == ov[i] && nv[j] == ov[j]);
                } else if j == q {
                    assert(nv[i] == ov[i]);
                } else if i < q {
                    assert(nv[i] == ov[i] && nv[j] == ov[j - 1]);
                } else if i == q {
                    assert(nv[j] == ov[j - 1]);
                } else {
                    assert(nv[i] == ov[i - 1] && nv[j] == ov[j - 1]);
                }
            }
            assert(orig.take(k + 1) == orig.take(k as int).push(xv));
            assert forall|p: u8| #[trigger] at_priority(nv, p) == at_priority(orig.take(k + 1), p) by {
                lemma_at_priority_insert(ov, q as int, xv, p);
                orig.take(k as int).lemma_filter_push(xv, |g: GoalView| g.priority == p);
            }
        }
        k = k + 1;
    }
    assert(orig.take(k as int) == orig);
    out
}

/// User goals shape how the agent answers, not what it does: once goals are
/// ordered by priority (as `merge_goals` orders them), every standard agent
/// goal stands before every goal taken from the user's profile.
pub proof fn law_user_goals_follow_agent_goals(out: Seq<GoalView>, input: Seq<GoalView>, i: int, j: int)
    requires
        sorted_by_priority(out, input),
        0 <= i < out.len(),
        0 <= j < out.len(),
        out[i].priority == USER_GOAL_PRIORITY,
        standard_goal_views().contains(out[j]),
    ensures
        j < i,
{
    let k = choose|k: int| 0 <= k < standard_goal_views().len() && standard_goal_views()[k] == out[j];
    assert(out[j].priority >= 85);
    if i < j {
        assert(out[j].priority <= out[i].priority);
    }
}

/// The goals before sorting: the agent goals, then one goal per user goal
/// text (`user_goal_0`, `user_goal_1`, ... at priority 10).
pub open spec fn combined_goals(agent: Seq<GoalView>, user_profile: Option<UserProfile>) -> Seq<
    GoalView,
> {
    match user_profile {
        Some(p) => agent + user_goal_views(views(p.goals@)),
        None => agent,
    }
}

/// Extend agent goals with user goals from onboarding (lower priority), then
/// order all of them by priority, highest first, keeping the order of goals
/// of equal priority.
pub fn merge_goals(agent_goals: Vec<Goal>, user_profile: Option<&UserProfile>) -> (r: Vec<Goal>)
    ensures
        sorted_by_priority(
            goal_views(r@),
            combined_goals(
                goal_views(agent_goals@),
                match user_profile {
                    Some(p) => Some(*p),
                    None => None,
                },
            ),
        ),
{
    let ghost agent = goal_views(agent_goals@);
    let mut goals = agent_goals;
    match user_profile {
        Some(profile) => {
            let ghost texts = views(profile.goals@);
            let n = profile.goals.len();
            let mut i: usize = 0;
            while i < n
                invariant
                    i <= n,
                    n == profile.goals@.len(),
                    texts == views(profile.goals@),
                    goal_views(goals@) == agent + user_goal_views(texts).take(i as int),
                decreases n - i,
            {
                let mut name = own("user_goal_");
                push_decimal(&mut name, i as u128);
                let ghost before = goal_views(goals@);
                goals.push(Goal::new(name.as_str(), profile.goals[i].as_str(), USER_GOAL_PRIORITY));
                assert(user_goal_views(texts).take(i + 1) == user_goal_views(texts).take(
                    i as int,
                ).push(user_goal_view(i as nat, texts[i as int])));
                assert(goal_views(goals@) == before.push(user_goal_view(i as nat, texts[i as int])));
                i = i + 1;
            }
            assert(user_goal_views(texts).take(n as int) == user_goal_views(texts));
        },
        None => {},
    }
    sort_by_priority(goals)
}

/// How the agent reaches the outside world: a named system it works against.
/// Separates what tools do from how they do it, so that the real API, mocks
/// or test harnesses can stand behind the same agent.
pub trait Environment {
    /// Get the name of this environment.
    fn name(&self) -> &str;

    /// Get a description for the agent.
    fn description(&self) -> &str;
}

} // verus!
