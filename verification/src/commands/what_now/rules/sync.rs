//! Branch-versus-upstream rules: diverged, behind, ahead. They fire only
//! when the working tree is clean and no operation is in progress.
use vstd::prelude::*;
use vstd::string::StringExecFns;
use crate::commands::what_now::rule::{advice_is, Advice, AdviceRule};
use crate::commands::what_now::rules::conflict::plural_suffix;
use crate::git::porcelain::{any_changes, InProgressOp, RepoState};
use crate::text::{decimal, decimal_of, views};

verus! {

pub open spec fn clean_and_idle(state: RepoState) -> bool {
    !any_changes(state.working_tree) && state.in_progress == InProgressOp::Idle
}

pub open spec fn upstream_text(state: RepoState) -> Seq<char> {
    match state.branch.upstream {
        Some(u) => u@,
        None => "upstream"@,
    }
}

pub open spec fn diverged_fires(state: RepoState) -> bool {
    clean_and_idle(state) && state.branch.ahead != 0 && state.branch.behind != 0
}

pub open spec fn behind_fires(state: RepoState) -> bool {
    clean_and_idle(state) && state.branch.behind != 0 && state.branch.ahead == 0
}

pub open spec fn ahead_fires(state: RepoState) -> bool {
    clean_and_idle(state) && state.branch.ahead != 0 && state.branch.behind == 0
}

pub open spec fn diverged_title(state: RepoState) -> Seq<char> {
    "Diverged from "@ + upstream_text(state) + ": "@ + decimal_of(state.branch.ahead as nat) + " ahead, "@
        + decimal_of(state.branch.behind as nat) + " behind."@
}

pub open spec fn diverged_suggestions() -> Seq<Seq<char>> {
    seq![
        "Bring the remote commits in first: `git pull --rebase` (replays your local commits on top)."@,
        "After any conflicts are resolved, push: `git push`."@,
    ]
}

pub open spec fn behind_title(state: RepoState) -> Seq<char> {
    "Behind "@ + upstream_text(state) + " by "@ + decimal_of(state.branch.behind as nat) + " commit"@
        + plural_suffix(state.branch.behind as nat) + "."@
}

pub open spec fn behind_suggestions() -> Seq<Seq<char>> {
    seq![
        "Fast-forward catch up: `git pull --rebase`."@,
        "Or pull with a merge commit: `git pull --no-rebase`."@,
    ]
}

pub open spec fn branch_text(state: RepoState) -> Seq<char> {
    match state.branch.name {
        Some(b) => b@,
        None => "<branch>"@,
    }
}

/// `(rule id, title, suggestions)` of the ahead-only advice.
pub open spec fn ahead_advice(state: RepoState) -> (Seq<char>, Seq<char>, Seq<Seq<char>>) {
    let n = state.branch.ahead as nat;
    if state.branch.upstream is Some {
        ("unpushed-commits"@,
         "Ahead of "@ + upstream_text(state) + " by "@ + decimal_of(n) + " commit"@ + plural_suffix(n) + "."@,
         seq!["Push them: `git push`."@])
    } else {
        ("unpushed-commits-no-upstream"@,
         decimal_of(n) + " local commit"@ + plural_suffix(n) + " on `"@ + branch_text(state)
            + "` — no upstream configured."@,
         seq!["Push and set tracking: `git push -u origin "@ + branch_text(state)
            + "` (the `-u` is `--set-upstream`)."@])
    }
}

/// Clean working tree and no operation in progress.
pub fn is_clean_and_idle(state: &RepoState) -> (r: bool)
    ensures
        r == clean_and_idle(*state),
{
    state.working_tree.is_clean() && !state.in_progress.is_active()
}

/// The upstream's name, or `upstream` when none is configured.
pub fn upstream_label(state: &RepoState) -> (r: String)
    ensures
        r@ == upstream_text(*state),
{
    match &state.branch.upstream {
        Some(u) => u.clone(),
        None => String::from_str("upstream"),
    }
}

fn plural(n: usize) -> (r: &'static str)
    ensures
        r@ == plural_suffix(n as nat),
{
    proof {
        reveal_strlit("");
    }
    if n == 1 { "" } else { "s" }
}

/// Both ahead and behind: sync before pushing.
pub struct Diverged;

impl AdviceRule for Diverged {
    fn examine(&self, state: &RepoState) -> (r: Option<Advice>)
        ensures
            diverged_fires(*state) ==> (r matches Some(a) && advice_is(a, "diverged"@,
                diverged_title(*state), diverged_suggestions())),
            !diverged_fires(*state) ==> r is None,
    {
        if !is_clean_and_idle(state) {
            return None;
        }
        if state.branch.ahead == 0 || state.branch.behind == 0 {
            return None;
        }
        let upstream = upstream_label(state);
        let mut title = String::from_str("Diverged from ");
        title.append(upstream.as_str());
        title.append(": ");
        let a = decimal(state.branch.ahead);
        title.append(a.as_str());
        title.append(" ahead, ");
        let b = decimal(state.branch.behind);
        title.append(b.as_str());
        title.append(" behind.");
        let suggestions = vec![
            String::from_str("Bring the remote commits in first: `git pull --rebase` (replays your local commits on top)."),
            String::from_str("After any conflicts are resolved, push: `git push`."),
        ];
        assert(views(suggestions@) =~= diverged_suggestions());
        assert(title@ =~= diverged_title(*state));
        Some(Advice { rule_id: "diverged", title, suggestions })
    }
}

/// Behind only: catch up.
pub struct Behind;

impl AdviceRule for Behind {
    fn examine(&self, state: &RepoState) -> (r: Option<Advice>)
        ensures
            behind_fires(*state) ==> (r matches Some(a) && advice_is(a, "behind-upstream"@,
                behind_title(*state), behind_suggestions())),
            !behind_fires(*state) ==> r is None,
    {
        if !is_clean_and_idle(state) {
            return None;
        }
        if state.branch.behind == 0 || state.branch.ahead != 0 {
            return None;
        }
        let upstream = upstream_label(state);
        let n = state.branch.behind;
        let mut title = String::from_str("Behind ");
        title.append(upstream.as_str());
        title.append(" by ");
        let d = decimal(n);
        title.append(d.as_str());
        title.append(" commit");
        title.append(plural(n));
        title.append(".");
        let suggestions = vec![
            String::from_str("Fast-forward catch up: `git pull --rebase`."),
            String::from_str("Or pull with a merge commit: `git pull --no-rebase`."),
        ];
        assert(views(suggestions@) =~= behind_suggestions());
        assert(title@ =~= behind_title(*state));
        Some(Advice { rule_id: "behind-upstream", title, suggestions })
    }
}

/// Ahead only: push (setting the upstream on a first push).
pub struct Ahead;

impl AdviceRule for Ahead {
    fn examine(&self, state: &RepoState) -> (r: Option<Advice>)
        ensures
            ahead_fires(*state) ==> (r matches Some(a) && advice_is(a, ahead_advice(*state).0,
                ahead_advice(*state).1, ahead_advice(*state).2)),
            !ahead_fires(*state) ==> r is None,
    {
        if !is_clean_and_idle(state) {
            return None;
        }
        if state.branch.ahead == 0 || state.branch.behind != 0 {
            return None;
        }
        let n = state.branch.ahead;
        let count = decimal(n);
        if state.branch.upstream.is_some() {
            let upstream = upstream_label(state);
            let mut title = String::from_str("Ahead of ");
            title.append(upstream.as_str());
            title.append(" by ");
            title.append(count.as_str());
            title.append(" commit");
            title.append(plural(n));
            title.append(".");
            let suggestions = vec![String::from_str("Push them: `git push`.")];
            assert(views(suggestions@) =~= ahead_advice(*state).2);
            assert(title@ =~= ahead_advice(*state).1);
            Some(Advice { rule_id: "unpushed-commits", title, suggestions })
        } else {
            let branch: &str = match &state.branch.name {
                Some(b) => b.as_str(),
                None => "<branch>",
            };
            let mut title = String::new();
            title.append(count.as_str());
            title.append(" local commit");
            title.append(plural(n));
            title.append(" on `");
            title.append(branch);
            title.append("` — no upstream configured.");
            let mut push = String::from_str("Push and set tracking: `git push -u origin ");
            push.append(branch);
            push.append("` (the `-u` is `--set-upstream`).");
            let suggestions = vec![push];
            assert(views(suggestions@) =~= ahead_advice(*state).2);
            assert(title@ =~= ahead_advice(*state).1);
            Some(Advice { rule_id: "unpushed-commits-no-upstream", title, suggestions })
        }
    }
}

} // verus!
