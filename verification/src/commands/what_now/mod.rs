//! `marshal what-now` — read the state of the current repository and
//! recommend the next step. Rules are tried in registration order and
//! the first one that applies answers.
pub mod rule;
pub mod rules;

use vstd::prelude::*;
use crate::commands::what_now::rule::{advice_is, Advice, AdviceRule};
use crate::commands::what_now::rules::branch_state::{
    detached_head_suggestions, initial_state_suggestions, DetachedHead, InitialState,
};
use crate::commands::what_now::rules::clean::{clean_suggestions, clean_title, Clean};
use crate::commands::what_now::rules::conflict::{conflict_suggestions, conflict_title, MergeConflict};
use crate::commands::what_now::rules::in_progress::{
    in_progress_id, in_progress_suggestions, in_progress_title, InProgressOperation,
};
use crate::commands::what_now::rules::sync::{
    ahead_advice, ahead_fires, behind_fires, behind_suggestions, behind_title, diverged_fires,
    diverged_suggestions, diverged_title, Ahead, Behind, Diverged,
};
use crate::commands::what_now::rules::uncommitted::{
    uncommitted_fires, uncommitted_suggestions, uncommitted_title, UncommittedChanges,
};
use crate::git::porcelain::{InProgressOp, RepoState};

verus! {

/// The advice rules marshal knows.
#[derive(Debug, Clone, Copy, PartialEq, Eq, Structural)]
pub enum Rule {
    MergeConflict,
    InProgress,
    InitialState,
    DetachedHead,
    UncommittedChanges,
    Diverged,
    Behind,
    Ahead,
    Clean,
}

/// `(rule id, title, suggestions)` a rule answers for `state`, or
/// `None` when it does not apply.
pub open spec fn rule_answer(rule: Rule, state: RepoState) -> Option<(Seq<char>, Seq<char>, Seq<Seq<char>>)> {
    let wt = state.working_tree;
    match rule {
        Rule::MergeConflict => if wt.unmerged > 0 {
            Some(("merge-conflict"@, conflict_title(wt.unmerged as nat), conflict_suggestions(state.in_progress)))
        } else { None },
        Rule::InProgress => if wt.unmerged == 0 && state.in_progress != InProgressOp::Idle {
            Some((in_progress_id(state.in_progress), in_progress_title(state.in_progress),
                in_progress_suggestions(state.in_progress)))
        } else { None },
        Rule::InitialState => if state.branch.is_initial {
            Some(("initial-state"@, "Fresh repository — no commits yet."@, initial_state_suggestions()))
        } else { None },
        Rule::DetachedHead => if state.branch.is_detached {
            Some(("detached-head"@, "HEAD is detached — you are not on a branch."@, detached_head_suggestions()))
        } else { None },
        Rule::UncommittedChanges => if uncommitted_fires(state) {
            Some(("uncommitted-changes"@,
                uncommitted_title(wt.staged as nat, wt.unstaged as nat, wt.untracked as nat),
                uncommitted_suggestions(wt.staged as nat, wt.unstaged as nat, wt.untracked as nat)))
        } else { None },
        Rule::Diverged => if diverged_fires(state) {
            Some(("diverged"@, diverged_title(state), diverged_suggestions()))
        } else { None },
        Rule::Behind => if behind_fires(state) {
            Some(("behind-upstream"@, behind_title(state), behind_suggestions()))
        } else { None },
        Rule::Ahead => if ahead_fires(state) { Some(ahead_advice(state)) } else { None },
        Rule::Clean => Some(("clean"@, clean_title(state.branch.name, state.branch.upstream), clean_suggestions())),
    }
}

/// The answer of the first rule in `rules` that applies.
pub open spec fn first_answer(rules: Seq<Rule>, state: RepoState) -> Option<(Seq<char>, Seq<char>, Seq<Seq<char>>)>
    decreases rules.len(),
{
    if rules.len() == 0 {
        None
    } else if rule_answer(rules[0], state) is Some {
        rule_answer(rules[0], state)
    } else {
        first_answer(rules.drop_first(), state)
    }
}

pub open spec fn answers(r: Option<Advice>, expected: Option<(Seq<char>, Seq<char>, Seq<Seq<char>>)>) -> bool {
    match expected {
        Some((id, title, sugg)) => r matches Some(a) && advice_is(a, id, title, sugg),
        None => r is None,
    }
}

impl Rule {
    /// Run this rule against `state`.
    pub fn examine(&self, state: &RepoState) -> (r: Option<Advice>)
        ensures
            answers(r, rule_answer(*self, *state)),
    {
        match self {
            Rule::MergeConflict => MergeConflict.examine(state),
            Rule::InProgress => InProgressOperation.examine(state),
            Rule::InitialState => InitialState.examine(state),
            Rule::DetachedHead => DetachedHead.examine(state),
            Rule::UncommittedChanges => UncommittedChanges.examine(state),
            Rule::Diverged => Diverged.examine(state),
            Rule::Behind => Behind.examine(state),
            Rule::Ahead => Ahead.examine(state),
            Rule::Clean => Clean.examine(state),
        }
    }
}

/// The ordered list of advice rules.
pub struct Registry {
    rules: Vec<Rule>,
}

impl View for Registry {
    type V = Seq<Rule>;

    closed spec fn view(&self) -> Seq<Rule> {
        self.rules@
    }
}

impl Registry {
    pub fn new() -> (r: Self)
        ensures
            r@ == Seq::<Rule>::empty(),
    {
        Registry { rules: Vec::new() }
    }

    /// Add a rule after every rule registered so far.
    pub fn register(&mut self, rule: Rule)
        ensures
            final(self)@ == old(self)@.push(rule),
    {
        self.rules.push(rule);
    }

    /// The advice of the first registered rule that applies.
    pub fn examine(&self, state: &RepoState) -> (r: Option<Advice>)
        ensures
            answers(r, first_answer(self@, *state)),
    {
        let mut i: usize = 0;
        assert(self@.skip(0) =~= self@);
        while i < self.rules.len()
            invariant
                i <= self.rules.len(),
                first_answer(self@, *state) == first_answer(self@.skip(i as int), *state),
            decreases self.rules.len() - i,
        {
            let ghost rest = self@.skip(i as int);
            assert(rest.drop_first() =~= self@.skip(i + 1));
            assert(rest[0] == self.rules@[i as int]);
            match self.rules[i].examine(state) {
                Some(a) => {
                    return Some(a);
                },
                None => {},
            }
            i += 1;
        }
        None
    }
}

// ── Laws ────────────────────────────────────────────────────────────

/// The catch-all rule answers every state, so a registry that ends
/// with it always produces an advice.
pub proof fn law_clean_rule_last_always_answers(rules: Seq<Rule>, state: RepoState)
    requires
        rules.len() > 0,
        rules.last() == Rule::Clean,
    ensures
        first_answer(rules, state) is Some,
    decreases rules.len(),
{
    if rule_answer(rules[0], state) is None {
        if rules.len() > 1 {
            law_clean_rule_last_always_answers(rules.drop_first(), state);
        }
    }
}

/// Conflicts and a conflict-free operation in progress never both
/// apply; neither does "uncommitted changes" alongside conflicts.
pub proof fn law_conflict_rules_exclusive(state: RepoState)
    ensures
        !(rule_answer(Rule::MergeConflict, state) is Some && rule_answer(Rule::InProgress, state) is Some),
        !(rule_answer(Rule::MergeConflict, state) is Some && rule_answer(Rule::UncommittedChanges, state) is Some),
{
}

/// At most one of the upstream rules (diverged, behind, ahead) applies,
/// and none of them when there are uncommitted changes.
pub proof fn law_sync_rules_exclusive(state: RepoState)
    ensures
        !(diverged_fires(state) && behind_fires(state)),
        !(diverged_fires(state) && ahead_fires(state)),
        !(behind_fires(state) && ahead_fires(state)),
        uncommitted_fires(state) ==> !diverged_fires(state) && !behind_fires(state) && !ahead_fires(state),
{
}

/// Every operation in progress gets its own rule id.
pub proof fn law_in_progress_ids_distinct(a: InProgressOp, b: InProgressOp)
    requires
        a != InProgressOp::Idle,
        b != InProgressOp::Idle,
        a != b,
    ensures
        in_progress_id(a) != in_progress_id(b),
{
    reveal_strlit("rebase-in-progress");
    reveal_strlit("cherry-pick-in-progress");
    reveal_strlit("revert-in-progress");
    reveal_strlit("bisect-in-progress");
    reveal_strlit("merge-paused");
    assert("rebase-in-progress"@[0] != "cherry-pick-in-progress"@[0]);
    assert("rebase-in-progress"@[0] != "bisect-in-progress"@[0]);
    assert("rebase-in-progress"@[0] != "merge-paused"@[0]);
    assert("rebase-in-progress"@[2] != "revert-in-progress"@[2]);
    assert("cherry-pick-in-progress"@[0] != "revert-in-progress"@[0]);
    assert("cherry-pick-in-progress"@[0] != "bisect-in-progress"@[0]);
    assert("cherry-pick-in-progress"@[0] != "merge-paused"@[0]);
    assert("revert-in-progress"@[0] != "bisect-in-progress"@[0]);
    assert("revert-in-progress"@[0] != "merge-paused"@[0]);
    assert("bisect-in-progress"@[0] != "merge-paused"@[0]);
}

/// The default rule set answers every repository state.
pub proof fn law_default_rules_always_answer(state: RepoState)
    ensures
        first_answer(crate::commands::what_now::rules::default_rules(), state) is Some,
{
    let rules = crate::commands::what_now::rules::default_rules();
    assert(rules.last() == Rule::Clean);
    law_clean_rule_last_always_answers(rules, state);
}

} // verus!
