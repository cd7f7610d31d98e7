//! Snapshot of one repository's state: branch identity and its relation
//! to the upstream, working-tree counters, and any multi-step operation
//! in progress.
use vstd::prelude::*;
use crate::text::opt_view;

verus! {

/// A multi-step operation git is in the middle of.
#[derive(Debug, Clone, Copy, PartialEq, Eq, Structural)]
pub enum InProgressOp {
    Idle,
    Merge,
    Rebase,
    CherryPick,
    Revert,
    Bisect,
}

impl Default for InProgressOp {
    fn default() -> (r: Self)
        ensures
            r == InProgressOp::Idle,
    {
        InProgressOp::Idle
    }
}

impl InProgressOp {
    /// `true` for every operation except `None`.
    pub fn is_active(&self) -> (r: bool)
        ensures
            r == (*self != InProgressOp::Idle),
    {
        match self {
            InProgressOp::Idle => false,
            _ => true,
        }
    }
}

/// File counters of the working tree and index.
#[derive(Debug, Clone, Copy, PartialEq, Eq, Structural)]
pub struct WorkingTreeInfo {
    pub staged: usize,
    pub unstaged: usize,
    pub untracked: usize,
    pub unmerged: usize,
}

impl Default for WorkingTreeInfo {
    fn default() -> (r: Self)
        ensures
            r.staged == 0 && r.unstaged == 0 && r.untracked == 0 && r.unmerged == 0,
    {
        WorkingTreeInfo { staged: 0, unstaged: 0, untracked: 0, unmerged: 0 }
    }
}

pub open spec fn any_changes(wt: WorkingTreeInfo) -> bool {
    wt.staged > 0 || wt.unstaged > 0 || wt.untracked > 0 || wt.unmerged > 0
}

impl WorkingTreeInfo {
    /// Some path has unresolved conflicts.
    pub fn has_unmerged(&self) -> (r: bool)
        ensures
            r == (self.unmerged > 0),
    {
        self.unmerged > 0
    }

    /// Some path is staged, modified, untracked or conflicted.
    pub fn has_any_changes(&self) -> (r: bool)
        ensures
            r == any_changes(*self),
    {
        self.staged > 0 || self.unstaged > 0 || self.untracked > 0 || self.unmerged > 0
    }

    /// Nothing staged, modified, untracked or conflicted.
    pub fn is_clean(&self) -> (r: bool)
        ensures
            r == !any_changes(*self),
    {
        !self.has_any_changes()
    }
}

/// Branch identity and upstream relationship.
#[derive(Debug)]
pub struct BranchInfo {
    /// Local branch name; `None` when detached or before the first commit
    /// on an unborn branch that git does not name.
    pub name: Option<String>,
    /// HEAD commit id; `None` before the first commit.
    pub oid: Option<String>,
    /// Upstream tracking ref (e.g. `origin/main`).
    pub upstream: Option<String>,
    pub ahead: usize,
    pub behind: usize,
    pub is_detached: bool,
    pub is_initial: bool,
}

impl Default for BranchInfo {
    fn default() -> (r: Self)
        ensures
            r.name is None && r.oid is None && r.upstream is None,
            r.ahead == 0 && r.behind == 0 && !r.is_detached && !r.is_initial,
    {
        BranchInfo { name: None, oid: None, upstream: None, ahead: 0, behind: 0, is_detached: false, is_initial: false }
    }
}

/// The state of one repository.
#[derive(Debug)]
pub struct RepoState {
    pub branch: BranchInfo,
    pub working_tree: WorkingTreeInfo,
    pub in_progress: InProgressOp,
}

impl Default for RepoState {
    fn default() -> (r: Self)
        ensures
            r.branch.name is None && r.branch.oid is None && r.branch.upstream is None,
            r.branch.ahead == 0 && r.branch.behind == 0,
            !r.branch.is_detached && !r.branch.is_initial,
            !any_changes(r.working_tree),
            r.in_progress == InProgressOp::Idle,
    {
        RepoState { branch: BranchInfo::default(), working_tree: WorkingTreeInfo::default(), in_progress: InProgressOp::Idle }
    }
}

impl BranchInfo {
    /// A field-by-field copy.
    pub fn copy(&self) -> (r: Self)
        ensures
            opt_view(r.name) == opt_view(self.name),
            opt_view(r.oid) == opt_view(self.oid),
            opt_view(r.upstream) == opt_view(self.upstream),
            r.ahead == self.ahead && r.behind == self.behind,
            r.is_detached == self.is_detached && r.is_initial == self.is_initial,
    {
        BranchInfo {
            name: copy_opt(&self.name),
            oid: copy_opt(&self.oid),
            upstream: copy_opt(&self.upstream),
            ahead: self.ahead,
            behind: self.behind,
            is_detached: self.is_detached,
            is_initial: self.is_initial,
        }
    }
}

impl RepoState {
    /// A field-by-field copy.
    pub fn copy(&self) -> (r: Self)
        ensures
            opt_view(r.branch.name) == opt_view(self.branch.name),
            opt_view(r.branch.oid) == opt_view(self.branch.oid),
            opt_view(r.branch.upstream) == opt_view(self.branch.upstream),
            r.branch.ahead == self.branch.ahead && r.branch.behind == self.branch.behind,
            r.branch.is_detached == self.branch.is_detached,
            r.branch.is_initial == self.branch.is_initial,
            r.working_tree == self.working_tree,
            r.in_progress == self.in_progress,
    {
        RepoState { branch: self.branch.copy(), working_tree: self.working_tree, in_progress: self.in_progress }
    }
}

/// A copy of an optional string.
pub fn copy_opt(o: &Option<String>) -> (r: Option<String>)
    ensures
        opt_view(r) == opt_view(*o),
{
    match o {
        Some(s) => Some(s.clone()),
        None => None,
    }
}

} // verus!
