//! Unresolved merge conflicts — the highest-priority advice.
use vstd::prelude::*;
use vstd::string::StringExecFns;
use crate::commands::what_now::rule::{advice_is, Advice, AdviceRule};
use crate::git::porcelain::{InProgressOp, RepoState};
use crate::text::{decimal, decimal_of, views};

verus! {

/// The command that backs out of the operation in progress.
pub open spec fn abort_command(op: InProgressOp) -> Seq<char> {
    match op {
        InProgressOp::Rebase => "`git rebase --abort`"@,
        InProgressOp::CherryPick => "`git cherry-pick --abort`"@,
        InProgressOp::Revert => "`git revert --abort`"@,
        _ => "`git merge --abort`"@,
    }
}

pub open spec fn plural_suffix(n: nat) -> Seq<char> {
    if n == 1 { Seq::empty() } else { "s"@ }
}

pub open spec fn conflict_title(n: nat) -> Seq<char> {
    "Unresolved merge conflict"@ + plural_suffix(n) + " in "@ + decimal_of(n) + " file"@ + plural_suffix(n) + "."@
}

pub open spec fn conflict_suggestions(op: InProgressOp) -> Seq<Seq<char>> {
    seq![
        "Open each conflicted file and resolve the `<<<<<<<` / `=======` / `>>>>>>>` markers."@,
        "Mark each one resolved with `git add <file>`. Run `git status` along the way to see what's left."@,
        "Finish the operation: `git commit` (or `git rebase --continue` / `git cherry-pick --continue` / `git revert --continue` if you were in one of those)."@,
        "Back out without resolving: "@ + abort_command(op) + "."@,
    ]
}

/// Nothing else matters until conflicts are resolved.
pub struct MergeConflict;

impl AdviceRule for MergeConflict {
    fn examine(&self, state: &RepoState) -> (r: Option<Advice>)
        ensures
            state.working_tree.unmerged > 0 ==> (r matches Some(a) && advice_is(a, "merge-conflict"@,
                conflict_title(state.working_tree.unmerged as nat), conflict_suggestions(state.in_progress))),
            state.working_tree.unmerged == 0 ==> r is None,
    {
        if !state.working_tree.has_unmerged() {
            return None;
        }
        let abort_cmd = match state.in_progress {
            InProgressOp::Rebase => "`git rebase --abort`",
            InProgressOp::CherryPick => "`git cherry-pick --abort`",
            InProgressOp::Revert => "`git revert --abort`",
            _ => "`git merge --abort`",
        };
        let n = state.working_tree.unmerged;
        let plural = if n == 1 { "" } else { "s" };
        proof {
            reveal_strlit("");
        }
        assert(plural@ == plural_suffix(n as nat));
        let mut title = String::from_str("Unresolved merge conflict");
        title.append(plural);
        title.append(" in ");
        let count = decimal(n);
        title.append(count.as_str());
        title.append(" file");
        title.append(plural);
        title.append(".");
        let mut last = String::from_str("Back out without resolving: ");
        last.append(abort_cmd);
        last.append(".");
        let suggestions = vec![
            String::from_str("Open each conflicted file and resolve the `<<<<<<<` / `=======` / `>>>>>>>` markers."),
            String::from_str("Mark each one resolved with `git add <file>`. Run `git status` along the way to see what's left."),
            String::from_str("Finish the operation: `git commit` (or `git rebase --continue` / `git cherry-pick --continue` / `git revert --continue` if you were in one of those)."),
            last,
        ];
        assert(views(suggestions@) =~= conflict_suggestions(state.in_progress));
        assert(title@ =~= conflict_title(n as nat));
        Some(Advice { rule_id: "merge-conflict", title, suggestions })
    }
}

} // verus!
