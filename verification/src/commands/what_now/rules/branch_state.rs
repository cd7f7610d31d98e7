//! Special branch states with their own advice: a fresh repository
//! before any commit, and a detached HEAD.
use vstd::prelude::*;
use vstd::string::StringExecFns;
use crate::commands::what_now::rule::{advice_is, Advice, AdviceRule};
use crate::git::porcelain::RepoState;
use crate::text::views;

verus! {

pub open spec fn initial_state_suggestions() -> Seq<Seq<char>> {
    seq![
        "Stage what you want to keep: `git add <path>` (or `git add -A` for everything)."@,
        "Make the first commit: `git commit -m \"initial\"`."@,
    ]
}

pub open spec fn detached_head_suggestions() -> Seq<Seq<char>> {
    seq![
        "Save your position as a branch: `git switch -c <name>` (any new commits stick around once you switch away)."@,
        "Or return to where you were: `git switch -` jumps back to the previous branch."@,
    ]
}

/// No commit yet: the next step is the first commit, even when the
/// working tree has files.
pub struct InitialState;

impl AdviceRule for InitialState {
    fn examine(&self, state: &RepoState) -> (r: Option<Advice>)
        ensures
            state.branch.is_initial ==> (r matches Some(a) && advice_is(a, "initial-state"@,
                "Fresh repository — no commits yet."@, initial_state_suggestions())),
            !state.branch.is_initial ==> r is None,
    {
        if !state.branch.is_initial {
            return None;
        }
        let suggestions = vec![
            String::from_str("Stage what you want to keep: `git add <path>` (or `git add -A` for everything)."),
            String::from_str("Make the first commit: `git commit -m \"initial\"`."),
        ];
        assert(views(suggestions@) =~= initial_state_suggestions());
        Some(Advice {
            rule_id: "initial-state",
            title: String::from_str("Fresh repository — no commits yet."),
            suggestions,
        })
    }
}

/// HEAD points at a commit, not a branch: name the position first.
pub struct DetachedHead;

impl AdviceRule for DetachedHead {
    fn examine(&self, state: &RepoState) -> (r: Option<Advice>)
        ensures
            state.branch.is_detached ==> (r matches Some(a) && advice_is(a, "detached-head"@,
                "HEAD is detached — you are not on a branch."@, detached_head_suggestions())),
            !state.branch.is_detached ==> r is None,
    {
        if !state.branch.is_detached {
            return None;
        }
        let suggestions = vec![
            String::from_str("Save your position as a branch: `git switch -c <name>` (any new commits stick around once you switch away)."),
            String::from_str("Or return to where you were: `git switch -` jumps back to the previous branch."),
        ];
        assert(views(suggestions@) =~= detached_head_suggestions());
        Some(Advice {
            rule_id: "detached-head",
            title: String::from_str("HEAD is detached — you are not on a branch."),
            suggestions,
        })
    }
}

} // verus!
