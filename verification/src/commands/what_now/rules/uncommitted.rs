//! Working-tree changes not committed yet (and no conflicts).
use vstd::prelude::*;
use vstd::string::StringExecFns;
use crate::commands::what_now::rule::{advice_is, Advice, AdviceRule};
use crate::git::porcelain::{any_changes, RepoState};
use crate::text::{decimal, decimal_of, views};

verus! {

/// The non-empty buckets, in the order the user acts on them.
pub open spec fn bucket_parts(staged: nat, unstaged: nat, untracked: nat) -> Seq<Seq<char>> {
    (if staged > 0 { seq![decimal_of(staged) + " staged"@] } else { Seq::empty() })
        + (if unstaged > 0 { seq![decimal_of(unstaged) + " unstaged"@] } else { Seq::empty() })
        + (if untracked > 0 { seq![decimal_of(untracked) + " untracked"@] } else { Seq::empty() })
}

/// "A", "A and B", or "A, B, and C".
pub open spec fn join_parts(parts: Seq<Seq<char>>) -> Seq<char> {
    if parts.len() == 1 {
        parts[0]
    } else if parts.len() == 2 {
        parts[0] + " and "@ + parts[1]
    } else {
        parts[0] + ", "@ + parts[1] + ", and "@ + parts[2]
    }
}

pub open spec fn uncommitted_title(staged: nat, unstaged: nat, untracked: nat) -> Seq<char> {
    "Working tree has "@ + join_parts(bucket_parts(staged, unstaged, untracked)) + " change"@
        + (if staged + unstaged + untracked == 1 { Seq::empty() } else { "s"@ }) + "."@
}

pub open spec fn uncommitted_suggestions(staged: nat, unstaged: nat, untracked: nat) -> Seq<Seq<char>> {
    (if unstaged > 0 && staged > 0 {
        seq!["Review changes: `git diff` (unstaged) and `git diff --cached` (staged)."@]
    } else if unstaged > 0 {
        seq!["Review changes: `git diff`."@]
    } else if staged > 0 {
        seq!["Review staged changes: `git diff --cached`."@]
    } else {
        Seq::empty()
    })
    + (if unstaged > 0 || untracked > 0 {
        seq!["Stage all of it: `git add -A`. Stage selectively: `git add <path>`."@]
    } else {
        Seq::empty()
    })
    + seq![
        "Commit the staged set: `git commit -m \"<message>\"`."@,
        "Save for later instead: `git stash push -m \"wip\"` (re-apply with `git stash pop`)."@,
    ]
}

pub open spec fn uncommitted_fires(state: RepoState) -> bool {
    any_changes(state.working_tree) && state.working_tree.unmerged == 0
}

pub struct UncommittedChanges;

impl AdviceRule for UncommittedChanges {
    fn examine(&self, state: &RepoState) -> (r: Option<Advice>)
        ensures
            uncommitted_fires(*state) ==> (r matches Some(a) && advice_is(a, "uncommitted-changes"@,
                uncommitted_title(state.working_tree.staged as nat, state.working_tree.unstaged as nat,
                    state.working_tree.untracked as nat),
                uncommitted_suggestions(state.working_tree.staged as nat, state.working_tree.unstaged as nat,
                    state.working_tree.untracked as nat))),
            !uncommitted_fires(*state) ==> r is None,
    {
        let wt = state.working_tree;
        if !wt.has_any_changes() || wt.has_unmerged() {
            return None;
        }
        let title = build_title(wt.staged, wt.unstaged, wt.untracked);
        let mut suggestions: Vec<String> = Vec::new();
        if wt.unstaged > 0 && wt.staged > 0 {
            suggestions.push(String::from_str("Review changes: `git diff` (unstaged) and `git diff --cached` (staged)."));
        } else if wt.unstaged > 0 {
            suggestions.push(String::from_str("Review changes: `git diff`."));
        } else if wt.staged > 0 {
            suggestions.push(String::from_str("Review staged changes: `git diff --cached`."));
        }
        let ghost review = views(suggestions@);
        if wt.unstaged > 0 || wt.untracked > 0 {
            suggestions.push(String::from_str("Stage all of it: `git add -A`. Stage selectively: `git add <path>`."));
        }
        let ghost staging = views(suggestions@);
        suggestions.push(String::from_str("Commit the staged set: `git commit -m \"<message>\"`."));
        suggestions.push(String::from_str("Save for later instead: `git stash push -m \"wip\"` (re-apply with `git stash pop`)."));
        assert(views(suggestions@) =~= uncommitted_suggestions(wt.staged as nat, wt.unstaged as nat, wt.untracked as nat));
        Some(Advice { rule_id: "uncommitted-changes", title, suggestions })
    }
}

/// The title, composed from the buckets that have files.
pub fn build_title(staged: usize, unstaged: usize, untracked: usize) -> (r: String)
    requires
        staged > 0 || unstaged > 0 || untracked > 0,
    ensures
        r@ == uncommitted_title(staged as nat, unstaged as nat, untracked as nat),
{
    let mut parts: Vec<String> = Vec::new();
    if staged > 0 {
        let mut p = decimal(staged);
        p.append(" staged");
        parts.push(p);
    }
    if unstaged > 0 {
        let mut p = decimal(unstaged);
        p.append(" unstaged");
        parts.push(p);
    }
    if untracked > 0 {
        let mut p = decimal(untracked);
        p.append(" untracked");
        parts.push(p);
    }
    let ghost expected = bucket_parts(staged as nat, unstaged as nat, untracked as nat);
    assert(views(parts@) =~= expected);
    let mut joined = String::new();
    if parts.len() == 1 {
        joined.append(parts[0].as_str());
    } else if parts.len() == 2 {
        joined.append(parts[0].as_str());
        joined.append(" and ");
        joined.append(parts[1].as_str());
    } else {
        joined.append(parts[0].as_str());
        joined.append(", ");
        joined.append(parts[1].as_str());
        joined.append(", and ");
        joined.append(parts[2].as_str());
    }
    assert(joined@ =~= join_parts(expected));
    // Exactly one file in total, without summing the counters.
    let single = (staged == 1 && unstaged == 0 && untracked == 0)
        || (staged == 0 && unstaged == 1 && untracked == 0)
        || (staged == 0 && unstaged == 0 && untracked == 1);
    let mut r = String::from_str("Working tree has ");
    r.append(joined.as_str());
    r.append(" change");
    if !single {
        r.append("s");
    }
    r.append(".");
    proof {
        reveal_strlit("");
    }
    assert(r@ =~= uncommitted_title(staged as nat, unstaged as nat, untracked as nat));
    r
}

} // verus!
