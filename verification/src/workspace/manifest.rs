//! The workspace manifest: the workspace's name and default branch,
//! and the child repositories it declares, in declaration order.
use vstd::prelude::*;
use vstd::string::StringExecFns;
use crate::text::{join_path, join_seq, path_join, str_eq};

verus! {

/// One declared child repository.
#[derive(Debug)]
pub struct RepoEntry {
    pub name: String,
    pub url: String,
    pub kind: Option<String>,
    /// Location relative to the workspace root; `src/<name>` when
    /// absent or empty.
    pub path: Option<String>,
}

pub struct WorkspaceMeta {
    pub name: String,
    pub default_branch: String,
}

pub struct Manifest {
    pub workspace: WorkspaceMeta,
    pub repos: Vec<RepoEntry>,
}

/// The names of `repos`, in declaration order.
pub open spec fn repo_names(repos: Seq<RepoEntry>) -> Seq<Seq<char>> {
    repos.map_values(|r: RepoEntry| r.name@)
}

/// Position of the first name in `names` equal to `name`.
pub open spec fn first_index(names: Seq<Seq<char>>, name: Seq<char>) -> Option<int>
    decreases names.len(),
{
    if names.len() == 0 {
        None
    } else if names.last() == name && first_index(names.drop_last(), name) is None {
        Some(names.len() - 1)
    } else {
        first_index(names.drop_last(), name)
    }
}

proof fn lemma_first_index_none(names: Seq<Seq<char>>, name: Seq<char>)
    ensures
        first_index(names, name) is None <==> forall|i: int| 0 <= i < names.len() ==> names[i] != name,
        first_index(names, name) matches Some(i) ==> 0 <= i < names.len() && names[i] == name
            && forall|j: int| 0 <= j < i ==> names[j] != name,
    decreases names.len(),
{
    if names.len() > 0 {
        lemma_first_index_none(names.drop_last(), name);
        if first_index(names, name) is None {
            assert forall|i: int| 0 <= i < names.len() implies names[i] != name by {
                if i < names.len() - 1 {
                    assert(names[i] == names.drop_last()[i]);
                }
            }
        }
        if first_index(names.drop_last(), name) is None {
            assert forall|j: int| 0 <= j < names.len() - 1 implies names[j] != name by {
                assert(names[j] == names.drop_last()[j]);
            }
        }
        match first_index(names.drop_last(), name) {
            Some(i) => {
                assert(names[i] == names.drop_last()[i]);
                assert forall|j: int| 0 <= j < i implies names[j] != name by {
                    assert(names[j] == names.drop_last()[j]);
                }
            },
            None => {},
        }
    }
}

/// The relative location of a child: its explicit non-empty `path`,
/// else `src/<name>`.
pub open spec fn repo_rel_path(r: RepoEntry) -> Seq<char> {
    match r.path {
        Some(p) => if p@.len() > 0 { p@ } else { path_join("src"@, r.name@) },
        None => path_join("src"@, r.name@),
    }
}

/// The list of declared names quoted in "unknown repo" errors.
pub open spec fn known_list_spec(repos: Seq<RepoEntry>) -> Seq<char> {
    if repos.len() == 0 {
        "(no repos declared in this workspace yet)"@
    } else {
        "Known: "@ + join_seq(repo_names(repos), ", "@) + "."@
    }
}

impl Manifest {
    /// The first declared repo named `name`.
    pub fn find_repo(&self, name: &str) -> (r: Option<&RepoEntry>)
        ensures
            match first_index(repo_names(self.repos@), name@) {
                Some(i) => r matches Some(e) && *e == self.repos@[i],
                None => r is None,
            },
    {
        let ghost names = repo_names(self.repos@);
        let mut i: usize = 0;
        while i < self.repos.len()
            invariant
                i <= self.repos.len(),
                names == repo_names(self.repos@),
                forall|j: int| 0 <= j < i ==> names[j] != name@,
            decreases self.repos.len() - i,
        {
            if str_eq(self.repos[i].name.as_str(), name) {
                proof {
                    lemma_first_index_none(names, name@);
                    lemma_first_index_none(names.subrange(0, i as int), name@);
                    self.lemma_first_at(names, name@, i as int);
                }
                return Some(&self.repos[i]);
            }
            i += 1;
        }
        proof {
            lemma_first_index_none(names, name@);
        }
        None
    }

    proof fn lemma_first_at(&self, names: Seq<Seq<char>>, name: Seq<char>, i: int)
        requires
            0 <= i < names.len(),
            names[i] == name,
            forall|j: int| 0 <= j < i ==> names[j] != name,
        ensures
            first_index(names, name) == Some(i),
        decreases names.len(),
    {
        lemma_first_index_none(names, name);
        match first_index(names, name) {
            Some(k) => {
                if k < i {
                } else if k > i {
                }
            },
            None => {},
        }
    }

    /// `Known: a, b.` — or a note that no repo is declared yet.
    pub fn known_list(&self) -> (r: String)
        ensures
            r@ == known_list_spec(self.repos@),
    {
        if self.repos.len() == 0 {
            return String::from_str("(no repos declared in this workspace yet)");
        }
        let mut r = String::from_str("Known: ");
        let ghost start = r@;
        let ghost names = repo_names(self.repos@);
        let mut i: usize = 0;
        while i < self.repos.len()
            invariant
                i <= self.repos.len(),
                names == repo_names(self.repos@),
                r@ == start + join_seq(names.subrange(0, i as int), ", "@),
            decreases self.repos.len() - i,
        {
            assert(names.subrange(0, i + 1).drop_last() =~= names.subrange(0, i as int));
            if i > 0 {
                r.append(", ");
            }
            r.append(self.repos[i].name.as_str());
            i += 1;
        }
        assert(names.subrange(0, i as int) =~= names);
        r.append(".");
        r
    }
}

impl RepoEntry {
    /// Location of the child relative to the workspace root.
    pub fn rel_path(&self) -> (r: String)
        ensures
            r@ == repo_rel_path(*self),
    {
        match &self.path {
            Some(p) => {
                if p.unicode_len() > 0 {
                    return p.clone();
                }
            },
            None => {},
        }
        join_path("src", self.name.as_str())
    }
}

/// Where a child repo lives: the workspace root joined with the
/// child's relative location.
pub fn child_repo_path(workspace_root: &str, repo: &RepoEntry) -> (r: String)
    ensures
        r@ == path_join(workspace_root@, repo_rel_path(*repo)),
{
    let rel = repo.rel_path();
    join_path(workspace_root, rel.as_str())
}

/// Where a child repo lives relative to the workspace root.
pub fn repo_relative_path(repo: &RepoEntry) -> (r: String)
    ensures
        r@ == repo_rel_path(*repo),
{
    repo.rel_path()
}

} // verus!
