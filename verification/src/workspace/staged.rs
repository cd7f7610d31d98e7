//! The per-developer staging area (`staged.toml`): a snapshot of
//! `(branch, commit)` per repo, taken when the repo was staged and
//! flushed into the declared state by a workspace commit.
use vstd::prelude::*;
use crate::workspace::names::NameMap;

verus! {

/// The snapshot of one staged repo.
#[derive(Debug, PartialEq, Eq)]
pub struct RepoStaged {
    pub branch: String,
    pub commit: String,
}

impl View for RepoStaged {
    type V = (Seq<char>, Seq<char>);

    open spec fn view(&self) -> (Seq<char>, Seq<char>) {
        (self.branch@, self.commit@)
    }
}

impl RepoStaged {
    pub fn copy(&self) -> (r: Self)
        ensures
            r@ == self@,
    {
        RepoStaged { branch: self.branch.clone(), commit: self.commit.clone() }
    }
}

pub type Staging = Map<Seq<char>, (Seq<char>, Seq<char>)>;

/// Every staged repo, by name.
pub struct StagedDeclaration {
    pub repos: NameMap<RepoStaged>,
}

impl StagedDeclaration {
    /// Nothing staged.
    pub fn new() -> (r: Self)
        ensures
            r.repos@ == Staging::empty(),
    {
        StagedDeclaration { repos: NameMap::new() }
    }

    pub fn is_empty(&self) -> (r: bool)
        ensures
            r == (self.repos@.dom() == Set::<Seq<char>>::empty()),
    {
        self.repos.is_empty()
    }

    /// The snapshot staged for `name`.
    pub fn get(&self, name: &str) -> (r: Option<&RepoStaged>)
        ensures
            r is Some <==> self.repos@.contains_key(name@),
            r matches Some(v) ==> v@ == self.repos@[name@],
    {
        self.repos.get(name)
    }

    /// Stage `snapshot` for `name`, replacing (and returning) any
    /// earlier snapshot of the same repo.
    pub fn stage(&mut self, name: String, snapshot: RepoStaged) -> (prev: Option<RepoStaged>)
        ensures
            final(self).repos@ == old(self).repos@.insert(name@, snapshot@),
            prev is Some <==> old(self).repos@.contains_key(name@),
            prev matches Some(p) ==> p@ == old(self).repos@[name@],
    {
        self.repos.insert(name, snapshot)
    }

    /// Drop the snapshot staged for `name`, returning it.
    pub fn unstage(&mut self, name: &str) -> (prev: Option<RepoStaged>)
        ensures
            final(self).repos@ == old(self).repos@.remove(name@),
            prev is Some <==> old(self).repos@.contains_key(name@),
            prev matches Some(p) ==> p@ == old(self).repos@[name@],
    {
        self.repos.remove(name)
    }
}

// ── Laws ────────────────────────────────────────────────────────────

/// Staging a repo and then unstaging it gives back the staging area
/// as it was, provided the repo was not staged before; the unstage
/// hands back the snapshot that was staged.
pub proof fn law_stage_then_unstage(before: Staging, name: Seq<char>, snap: (Seq<char>, Seq<char>))
    requires
        !before.contains_key(name),
    ensures
        before.insert(name, snap).remove(name) == before,
        before.insert(name, snap)[name] == snap,
{
    assert(before.insert(name, snap).remove(name) =~= before);
}

/// Re-staging a repo keeps only the latest snapshot.
pub proof fn law_restage_keeps_latest(before: Staging, name: Seq<char>, a: (Seq<char>, Seq<char>), b: (Seq<char>, Seq<char>))
    ensures
        before.insert(name, a).insert(name, b) == before.insert(name, b),
{
    assert(before.insert(name, a).insert(name, b) =~= before.insert(name, b));
}

/// Unstaging a repo that is not staged changes nothing.
pub proof fn law_unstage_absent_is_noop(before: Staging, name: Seq<char>)
    requires
        !before.contains_key(name),
    ensures
        before.remove(name) == before,
{
    assert(before.remove(name) =~= before);
}

} // verus!
