//! Multi-step operations in progress (rebase, cherry-pick, revert,
//! bisect, paused merge), when no conflict is left to resolve.
use vstd::prelude::*;
use vstd::string::StringExecFns;
use crate::commands::what_now::rule::{advice_is, Advice, AdviceRule};
use crate::git::porcelain::{InProgressOp, RepoState};
use crate::text::{contains_seq, views};

verus! {

pub open spec fn in_progress_id(op: InProgressOp) -> Seq<char> {
    match op {
        InProgressOp::Rebase => "rebase-in-progress"@,
        InProgressOp::CherryPick => "cherry-pick-in-progress"@,
        InProgressOp::Revert => "revert-in-progress"@,
        InProgressOp::Bisect => "bisect-in-progress"@,
        _ => "merge-paused"@,
    }
}

pub open spec fn in_progress_title(op: InProgressOp) -> Seq<char> {
    match op {
        InProgressOp::Rebase => "Rebase in progress."@,
        InProgressOp::CherryPick => "Cherry-pick in progress."@,
        InProgressOp::Revert => "Revert in progress."@,
        InProgressOp::Bisect => "Bisect in progress."@,
        _ => "Merge ready to commit (no conflicts)."@,
    }
}

pub open spec fn in_progress_suggestions(op: InProgressOp) -> Seq<Seq<char>> {
    match op {
        InProgressOp::Rebase => seq![
            "Continue: `git rebase --continue`."@,
            "Skip the current commit: `git rebase --skip`."@,
            "Back out: `git rebase --abort`."@,
        ],
        InProgressOp::CherryPick => seq![
            "Continue: `git cherry-pick --continue` (after staging fixes if any)."@,
            "Skip the current commit: `git cherry-pick --skip`."@,
            "Back out: `git cherry-pick --abort`."@,
        ],
        InProgressOp::Revert => seq![
            "Continue: `git revert --continue`."@,
            "Skip the current commit: `git revert --skip`."@,
            "Back out: `git revert --abort`."@,
        ],
        InProgressOp::Bisect => seq![
            "Mark the current commit: `git bisect good` or `git bisect bad`."@,
            "Stop without recording a result: `git bisect reset`."@,
        ],
        _ => seq![
            "Finish: `git commit` (uses the merge message git prepared)."@,
            "Back out: `git merge --abort`."@,
        ],
    }
}

/// The git command an operation in progress is driven with.
pub open spec fn git_verb(op: InProgressOp) -> Seq<char> {
    match op {
        InProgressOp::Rebase => "rebase"@,
        InProgressOp::CherryPick => "cherry-pick"@,
        InProgressOp::Revert => "revert"@,
        InProgressOp::Bisect => "bisect"@,
        InProgressOp::Merge => "merge"@,
        InProgressOp::Idle => Seq::empty(),
    }
}

/// The advice for a rebase, cherry-pick, revert or bisect names that
/// operation: its id is the operation's git command followed by
/// `-in-progress`, its title is that command (first letter capitalised)
/// followed by ` in progress.`, and every suggestion runs that same git
/// command.
pub proof fn law_in_progress_advice_names_its_operation(op: InProgressOp)
    requires
        op == InProgressOp::Rebase || op == InProgressOp::CherryPick || op == InProgressOp::Revert
            || op == InProgressOp::Bisect,
    ensures
        in_progress_id(op) == git_verb(op) + "-in-progress"@,
        in_progress_title(op).len() > 0,
        in_progress_title(op).drop_first() == git_verb(op).drop_first() + " in progress."@,
        forall|i: int| 0 <= i < in_progress_suggestions(op).len()
            ==> contains_seq(#[trigger] in_progress_suggestions(op)[i], "`git "@ + git_verb(op) + " "@),
{
    let ss = in_progress_suggestions(op);
    match op {
        InProgressOp::Rebase => {
            reveal_strlit("rebase");
            reveal_strlit("rebase-in-progress");
            reveal_strlit("Rebase in progress.");
            reveal_strlit("`git rebase ");
            reveal_strlit("-in-progress");
            reveal_strlit(" in progress.");
            reveal_strlit("`git ");
            reveal_strlit(" ");
            reveal_strlit("Continue: `git rebase --continue`.");
            reveal_strlit("Skip the current commit: `git rebase --skip`.");
            reveal_strlit("Back out: `git rebase --abort`.");
            assert("rebase"@ + "-in-progress"@ =~= "rebase-in-progress"@);
            assert("Rebase in progress."@.drop_first() =~= "rebase"@.drop_first() + " in progress."@);
            assert("`git "@ + "rebase"@ + " "@ =~= "`git rebase "@);
            assert("Continue: `git rebase --continue`."@.subrange(10, 22) =~= "`git rebase "@);
            assert("Skip the current commit: `git rebase --skip`."@.subrange(25, 37) =~= "`git rebase "@);
            assert("Back out: `git rebase --abort`."@.subrange(10, 22) =~= "`git rebase "@);
        },
        InProgressOp::CherryPick => {
            reveal_strlit("cherry-pick");
            reveal_strlit("cherry-pick-in-progress");
            reveal_strlit("Cherry-pick in progress.");
            reveal_strlit("`git cherry-pick ");
            reveal_strlit("-in-progress");
            reveal_strlit(" in progress.");
            reveal_strlit("`git ");
            reveal_strlit(" ");
            reveal_strlit("Continue: `git cherry-pick --continue` (after staging fixes if any).");
            reveal_strlit("Skip the current commit: `git cherry-pick --skip`.");
            reveal_strlit("Back out: `git cherry-pick --abort`.");
            assert("cherry-pick"@ + "-in-progress"@ =~= "cherry-pick-in-progress"@);
            assert("Cherry-pick in progress."@.drop_first() =~= "cherry-pick"@.drop_first() + " in progress."@);
            assert("`git "@ + "cherry-pick"@ + " "@ =~= "`git cherry-pick "@);
            assert("Continue: `git cherry-pick --continue` (after staging fixes if any)."@.subrange(10, 27) =~= "`git cherry-pick "@);
            assert("Skip the current commit: `git cherry-pick --skip`."@.subrange(25, 42) =~= "`git cherry-pick "@);
            assert("Back out: `git cherry-pick --abort`."@.subrange(10, 27) =~= "`git cherry-pick "@);
        },
        InProgressOp::Revert => {
            reveal_strlit("revert");
            reveal_strlit("revert-in-progress");
            reveal_strlit("Revert in progress.");
            reveal_strlit("`git revert ");
            reveal_strlit("-in-progress");
            reveal_strlit(" in progress.");
            reveal_strlit("`git ");
            reveal_strlit(" ");
            reveal_strlit("Continue: `git revert --continue`.");
            reveal_strlit("Skip the current commit: `git revert --skip`.");
            reveal_strlit("Back out: `git revert --abort`.");
            assert("revert"@ + "-in-progress"@ =~= "revert-in-progress"@);
            assert("Revert in progress."@.drop_first() =~= "revert"@.drop_first() + " in progress."@);
            assert("`git "@ + "revert"@ + " "@ =~= "`git revert "@);
            assert("Continue: `git revert --continue`."@.subrange(10, 22) =~= "`git revert "@);
            assert("Skip the current commit: `git revert --skip`."@.subrange(25, 37) =~= "`git revert "@);
            assert("Back out: `git revert --abort`."@.subrange(10, 22) =~= "`git revert "@);
        },
        InProgressOp::Bisect => {
            reveal_strlit("bisect");
            reveal_strlit("bisect-in-progress");
            reveal_strlit("Bisect in progress.");
            reveal_strlit("`git bisect ");
            reveal_strlit("-in-progress");
            reveal_strlit(" in progress.");
            reveal_strlit("`git ");
            reveal_strlit(" ");
            reveal_strlit("Mark the current commit: `git bisect good` or `git bisect bad`.");
            reveal_strlit("Stop without recording a result: `git bisect reset`.");
            assert("bisect"@ + "-in-progress"@ =~= "bisect-in-progress"@);
            assert("Bisect in progress."@.drop_first() =~= "bisect"@.drop_first() + " in progress."@);
            assert("`git "@ + "bisect"@ + " "@ =~= "`git bisect "@);
            assert("Mark the current commit: `git bisect good` or `git bisect bad`."@.subrange(25, 37) =~= "`git bisect "@);
            assert("Stop without recording a result: `git bisect reset`."@.subrange(33, 45) =~= "`git bisect "@);
        },
        _ => {},
    }
    assert forall|i: int| 0 <= i < ss.len() implies contains_seq(#[trigger] ss[i], "`git "@ + git_verb(op) + " "@) by {
        let n = "`git "@ + git_verb(op) + " "@;
        let k: int = if op == InProgressOp::Bisect {
            if i == 0 { 25 } else { 33 }
        } else if i == 1 {
            25
        } else {
            10
        };
        assert(ss[i].subrange(k, k + n.len()) == n);
    }
}

/// A paused merge is advised under its own id, and the way back out is
/// `git merge --abort`.
pub proof fn law_paused_merge_advice(state: RepoState)
    requires
        state.in_progress == InProgressOp::Merge,
    ensures
        in_progress_id(state.in_progress) == git_verb(InProgressOp::Merge) + "-paused"@,
        contains_seq(in_progress_suggestions(state.in_progress).last(), "`git "@ + git_verb(InProgressOp::Merge) + " --abort`"@),
{
    reveal_strlit("merge");
    reveal_strlit("-paused");
    reveal_strlit("merge-paused");
    reveal_strlit("`git ");
    reveal_strlit(" --abort`");
    reveal_strlit("Back out: `git merge --abort`.");
    assert("merge"@ + "-paused"@ =~= "merge-paused"@);
    let n = "`git "@ + "merge"@ + " --abort`"@;
    assert(n.len() == 19);
    let k: int = 10;
    assert("Back out: `git merge --abort`."@.subrange(k, k + n.len()) =~= n);
    assert(in_progress_suggestions(state.in_progress).last() == "Back out: `git merge --abort`."@);
}

pub struct InProgressOperation;

impl AdviceRule for InProgressOperation {
    fn examine(&self, state: &RepoState) -> (r: Option<Advice>)
        ensures
            (state.working_tree.unmerged == 0 && state.in_progress != InProgressOp::Idle) ==> (r matches Some(a)
                && advice_is(a, in_progress_id(state.in_progress), in_progress_title(state.in_progress),
                in_progress_suggestions(state.in_progress))),
            !(state.working_tree.unmerged == 0 && state.in_progress != InProgressOp::Idle) ==> r is None,
    {
        if state.working_tree.has_unmerged() {
            return None;
        }
        if !state.in_progress.is_active() {
            return None;
        }
        let (rule_id, title, suggestions): (&'static str, String, Vec<String>) = match state.in_progress {
            InProgressOp::Rebase => (
                "rebase-in-progress",
                String::from_str("Rebase in progress."),
                vec![
                    String::from_str("Continue: `git rebase --continue`."),
                    String::from_str("Skip the current commit: `git rebase --skip`."),
                    String::from_str("Back out: `git rebase --abort`."),
                ],
            ),
            InProgressOp::CherryPick => (
                "cherry-pick-in-progress",
                String::from_str("Cherry-pick in progress."),
                vec![
                    String::from_str("Continue: `git cherry-pick --continue` (after staging fixes if any)."),
                    String::from_str("Skip the current commit: `git cherry-pick --skip`."),
                    String::from_str("Back out: `git cherry-pick --abort`."),
                ],
            ),
            InProgressOp::Revert => (
                "revert-in-progress",
                String::from_str("Revert in progress."),
                vec![
                    String::from_str("Continue: `git revert --continue`."),
                    String::from_str("Skip the current commit: `git revert --skip`."),
                    String::from_str("Back out: `git revert --abort`."),
                ],
            ),
            InProgressOp::Bisect => (
                "bisect-in-progress",
                String::from_str("Bisect in progress."),
                vec![
                    String::from_str("Mark the current commit: `git bisect good` or `git bisect bad`."),
                    String::from_str("Stop without recording a result: `git bisect reset`."),
                ],
            ),
            _ => (
                "merge-paused",
                String::from_str("Merge ready to commit (no conflicts)."),
                vec![
                    String::from_str("Finish: `git commit` (uses the merge message git prepared)."),
                    String::from_str("Back out: `git merge --abort`."),
                ],
            ),
        };
        assert(views(suggestions@) =~= in_progress_suggestions(state.in_progress));
        Some(Advice { rule_id, title, suggestions })
    }
}

} // verus!
