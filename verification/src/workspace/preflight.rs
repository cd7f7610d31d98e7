//! Pre-flight checks before a child's branch is switched. Each
//! obstacle found in a repo's working state is either hard (an
//! operation in progress, unresolved conflicts, no commits yet), which
//! nothing at this layer can clear, or soft (staged, unstaged or
//! untracked changes), which `--auto-stash` or `--discard-changes`
//! clears.
use vstd::prelude::*;
use vstd::string::StringExecFns;
use crate::git::porcelain::{InProgressOp, RepoState};
use crate::text::{decimal, decimal_of};

verus! {

/// Something in a repo's working state that stands in the way of a
/// clean branch switch.
#[derive(Debug, Clone, Copy, PartialEq, Eq, Structural)]
pub enum Obstacle {
    /// A merge, rebase, cherry-pick, revert or bisect is under way.
    InProgress(InProgressOp),
    /// Files with unresolved conflicts.
    Conflicts(usize),
    /// The repository has no commits yet.
    InitialEmpty,
    /// Changes staged in the index.
    Staged(usize),
    /// Changes to tracked files not staged.
    Unstaged(usize),
    /// Files git does not track.
    Untracked(usize),
}

pub open spec fn is_hard(o: Obstacle) -> bool {
    match o {
        Obstacle::InProgress(_) | Obstacle::Conflicts(_) | Obstacle::InitialEmpty => true,
        _ => false,
    }
}

/// `git stash push --include-untracked` takes staged, unstaged and
/// untracked changes out of the way.
pub open spec fn cleared_by_auto_stash_spec(o: Obstacle) -> bool {
    !is_hard(o)
}

/// `git reset --hard` plus `git clean -fd` throw staged, unstaged and
/// untracked changes away.
pub open spec fn cleared_by_discard_spec(o: Obstacle) -> bool {
    !is_hard(o)
}

/// The obstacles in `state`, hard ones first, in a fixed order.
pub open spec fn obstacles_of(state: RepoState) -> Seq<Obstacle> {
    let wt = state.working_tree;
    (if state.in_progress != InProgressOp::Idle { seq![Obstacle::InProgress(state.in_progress)] } else { seq![] })
    + (if wt.unmerged > 0 { seq![Obstacle::Conflicts(wt.unmerged)] } else { seq![] })
    + (if state.branch.is_initial { seq![Obstacle::InitialEmpty] } else { seq![] })
    + (if wt.staged > 0 { seq![Obstacle::Staged(wt.staged)] } else { seq![] })
    + (if wt.unstaged > 0 { seq![Obstacle::Unstaged(wt.unstaged)] } else { seq![] })
    + (if wt.untracked > 0 { seq![Obstacle::Untracked(wt.untracked)] } else { seq![] })
}

pub open spec fn op_name(op: InProgressOp) -> Seq<char> {
    match op {
        InProgressOp::Idle => "no operation"@,
        InProgressOp::Merge => "merge"@,
        InProgressOp::Rebase => "rebase"@,
        InProgressOp::CherryPick => "cherry-pick"@,
        InProgressOp::Revert => "revert"@,
        InProgressOp::Bisect => "bisect"@,
    }
}

/// `n` followed by the singular or plural form of a noun.
pub open spec fn counted(n: nat, one: Seq<char>, many: Seq<char>) -> Seq<char> {
    decimal_of(n) + " "@ + if n == 1 { one } else { many }
}

/// One line describing an obstacle.
pub open spec fn describe(o: Obstacle) -> Seq<char> {
    match o {
        Obstacle::InProgress(op) => op_name(op) + " in progress"@,
        Obstacle::Conflicts(n) => counted(n as nat, "file with unresolved conflicts"@, "files with unresolved conflicts"@),
        Obstacle::InitialEmpty => "repository has no commits yet"@,
        Obstacle::Staged(n) => counted(n as nat, "staged change"@, "staged changes"@),
        Obstacle::Unstaged(n) => counted(n as nat, "unstaged change"@, "unstaged changes"@),
        Obstacle::Untracked(n) => counted(n as nat, "untracked file"@, "untracked files"@),
    }
}

/// The obstacles that still block given the resolution flags: every
/// hard one, and every soft one that neither requested flag clears.
pub open spec fn blocking_spec(obs: Seq<Obstacle>, auto_stash: bool, discard: bool) -> Seq<Obstacle> {
    obs.filter(|o: Obstacle| blocks(o, auto_stash, discard))
}

pub open spec fn blocks(o: Obstacle, auto_stash: bool, discard: bool) -> bool {
    is_hard(o) || !(auto_stash && cleared_by_auto_stash_spec(o) || discard && cleared_by_discard_spec(o))
}

impl Obstacle {
    pub fn is_hard_blocker(&self) -> (r: bool)
        ensures
            r == is_hard(*self),
    {
        match self {
            Obstacle::InProgress(_) | Obstacle::Conflicts(_) | Obstacle::InitialEmpty => true,
            _ => false,
        }
    }

    pub fn cleared_by_auto_stash(&self) -> (r: bool)
        ensures
            r == cleared_by_auto_stash_spec(*self),
    {
        !self.is_hard_blocker()
    }

    pub fn cleared_by_discard(&self) -> (r: bool)
        ensures
            r == cleared_by_discard_spec(*self),
    {
        !self.is_hard_blocker()
    }

    /// One line describing the obstacle.
    pub fn description(&self) -> (r: String)
        ensures
            r@ == describe(*self),
    {
        match self {
            Obstacle::InProgress(op) => {
                let mut r = String::from_str(match op {
                    InProgressOp::Idle => "no operation",
                    InProgressOp::Merge => "merge",
                    InProgressOp::Rebase => "rebase",
                    InProgressOp::CherryPick => "cherry-pick",
                    InProgressOp::Revert => "revert",
                    InProgressOp::Bisect => "bisect",
                });
                r.append(" in progress");
                r
            },
            Obstacle::Conflicts(n) => counted_exec(*n, "file with unresolved conflicts", "files with unresolved conflicts"),
            Obstacle::InitialEmpty => String::from_str("repository has no commits yet"),
            Obstacle::Staged(n) => counted_exec(*n, "staged change", "staged changes"),
            Obstacle::Unstaged(n) => counted_exec(*n, "unstaged change", "unstaged changes"),
            Obstacle::Untracked(n) => counted_exec(*n, "untracked file", "untracked files"),
        }
    }
}

fn counted_exec(n: usize, one: &str, many: &str) -> (r: String)
    ensures
        r@ == counted(n as nat, one@, many@),
{
    let mut r = decimal(n);
    r.append(" ");
    if n == 1 {
        r.append(one);
    } else {
        r.append(many);
    }
    r
}

/// Every obstacle in the working state of a repo.
pub fn obstacles(state: &RepoState) -> (r: Vec<Obstacle>)
    ensures
        r@ == obstacles_of(*state),
{
    let wt = state.working_tree;
    let mut r: Vec<Obstacle> = Vec::new();
    if state.in_progress.is_active() {
        r.push(Obstacle::InProgress(state.in_progress));
    }
    if wt.unmerged > 0 {
        r.push(Obstacle::Conflicts(wt.unmerged));
    }
    if state.branch.is_initial {
        r.push(Obstacle::InitialEmpty);
    }
    if wt.staged > 0 {
        r.push(Obstacle::Staged(wt.staged));
    }
    if wt.unstaged > 0 {
        r.push(Obstacle::Unstaged(wt.unstaged));
    }
    if wt.untracked > 0 {
        r.push(Obstacle::Untracked(wt.untracked));
    }
    assert(r@ =~= obstacles_of(*state));
    r
}

/// The obstacles that block given the resolution flags, in order.
pub fn blocking_obstacles(obstacles: &Vec<Obstacle>, auto_stash: bool, discard: bool) -> (r: Vec<Obstacle>)
    ensures
        r@ == blocking_spec(obstacles@, auto_stash, discard),
{
    let mut r: Vec<Obstacle> = Vec::new();
    let mut i: usize = 0;
    while i < obstacles.len()
        invariant
            i <= obstacles.len(),
            r@ == blocking_spec(obstacles@.take(i as int), auto_stash, discard),
        decreases obstacles.len() - i,
    {
        let o = obstacles[i];
        assert(obstacles@.take(i + 1).drop_last() =~= obstacles@.take(i as int));
        proof {
            reveal(Seq::filter);
        }
        let hard = o.is_hard_blocker();
        if hard || !(auto_stash && o.cleared_by_auto_stash() || discard && o.cleared_by_discard()) {
            r.push(o);
        }
        i += 1;
    }
    assert(obstacles@.take(i as int) =~= obstacles@);
    r
}


/// Some obstacle needs a resolution step (is soft).
pub open spec fn needs_resolution(obs: Seq<Obstacle>) -> bool {
    exists|i: int| 0 <= i < obs.len() && !is_hard(#[trigger] obs[i])
}

pub fn any_soft(obs: &Vec<Obstacle>) -> (r: bool)
    ensures
        r == needs_resolution(obs@),
{
    let mut i: usize = 0;
    while i < obs.len()
        invariant
            i <= obs.len(),
            forall|j: int| 0 <= j < i ==> is_hard(#[trigger] obs@[j]),
        decreases obs.len() - i,
    {
        if !obs[i].is_hard_blocker() {
            return true;
        }
        i += 1;
    }
    false
}

pub fn any_hard(obs: &Vec<Obstacle>) -> (r: bool)
    ensures
        r == exists|i: int| 0 <= i < obs@.len() && is_hard(#[trigger] obs@[i]),
{
    let mut i: usize = 0;
    while i < obs.len()
        invariant
            i <= obs.len(),
            forall|j: int| 0 <= j < i ==> !is_hard(#[trigger] obs@[j]),
        decreases obs.len() - i,
    {
        if obs[i].is_hard_blocker() {
            return true;
        }
        i += 1;
    }
    false
}

// ── Laws ────────────────────────────────────────────────────────────

/// Hard obstacles block whatever the flags; with either resolution
/// flag, only hard obstacles block; with neither, every obstacle does.
pub proof fn law_blocking(obs: Seq<Obstacle>, auto_stash: bool, discard: bool)
    ensures
        forall|o: Obstacle| obs.contains(o) && is_hard(o) ==> #[trigger] blocking_spec(obs, auto_stash, discard).contains(o),
        (auto_stash || discard) ==> forall|o: Obstacle| #[trigger] blocking_spec(obs, auto_stash, discard).contains(o) ==> is_hard(o),
        (!auto_stash && !discard) ==> blocking_spec(obs, auto_stash, discard) == obs,
{
    let f = |o: Obstacle| blocks(o, auto_stash, discard);
    assert forall|o: Obstacle| obs.contains(o) && is_hard(o) implies #[trigger] blocking_spec(obs, auto_stash, discard).contains(o) by {
        let i = choose|i: int| 0 <= i < obs.len() && obs[i] == o;
        obs.lemma_filter_contains(f, i);
    }
    if auto_stash || discard {
        assert forall|o: Obstacle| #[trigger] blocking_spec(obs, auto_stash, discard).contains(o) implies is_hard(o) by {
            let b = obs.filter(f);
            let k = choose|k: int| 0 <= k < b.len() && b[k] == o;
            obs.lemma_filter_pred(f, k);
        }
    }
    if !auto_stash && !discard {
        lemma_filter_all(obs, f);
    }
}

proof fn lemma_filter_all(obs: Seq<Obstacle>, f: spec_fn(Obstacle) -> bool)
    requires
        forall|o: Obstacle| #[trigger] f(o),
    ensures
        obs.filter(f) == obs,
    decreases obs.len(),
{
    reveal(Seq::filter);
    if obs.len() > 0 {
        lemma_filter_all(obs.drop_last(), f);
        assert(obs.drop_last().push(obs.last()) =~= obs);
    } else {
        assert(obs.filter(f) =~= obs);
    }
}

/// A clean repo on a branch with commits and nothing in progress has
/// no obstacle.
pub proof fn law_clean_state_has_no_obstacle(state: RepoState)
    requires
        state.in_progress == InProgressOp::Idle,
        !state.branch.is_initial,
        state.working_tree.staged == 0,
        state.working_tree.unstaged == 0,
        state.working_tree.untracked == 0,
        state.working_tree.unmerged == 0,
    ensures
        obstacles_of(state) == Seq::<Obstacle>::empty(),
{
    assert(obstacles_of(state) =~= Seq::<Obstacle>::empty());
}

} // verus!
