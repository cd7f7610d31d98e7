//! Which declared repos a workspace command acts on: every repo, the
//! one named by `--on <name>`, or — for commands that narrow by
//! location — the child repo the current directory is in.
use vstd::prelude::*;
use vstd::string::StringExecFns;
use crate::text::str_eq;
use crate::workspace::manifest::{known_list_spec, repo_names, Manifest};

verus! {

/// How a command picks its repos when `--on` is not given.
#[derive(Debug, Clone, Copy, PartialEq, Eq, Structural)]
pub enum ScopePolicy {
    /// Every declared repo.
    FullWorkspace,
    /// The child repo the current directory is in, when it is
    /// declared; every declared repo otherwise.
    SpatialFallback,
}

/// `None` is the whole workspace; `Some(n)` is the one repo `n`.
pub open spec fn resolve_spec(
    command: Seq<char>,
    on: Option<Seq<char>>,
    repos: Seq<crate::workspace::manifest::RepoEntry>,
    current_repo: Option<Seq<char>>,
    policy: ScopePolicy,
) -> Result<Option<Seq<char>>, Seq<char>> {
    match on {
        Some(n) => if repo_names(repos).contains(n) {
            Ok(Some(n))
        } else {
            Err(command + ": '--on "@ + n + "' does not match any repo declared in the manifest.\n  "@
                + known_list_spec(repos))
        },
        None => match (policy, current_repo) {
            (ScopePolicy::SpatialFallback, Some(c)) => if repo_names(repos).contains(c) { Ok(Some(c)) } else { Ok(None) },
            _ => Ok(None),
        },
    }
}

fn declares(manifest: &Manifest, name: &str) -> (r: bool)
    ensures
        r == repo_names(manifest.repos@).contains(name@),
{
    let mut i: usize = 0;
    while i < manifest.repos.len()
        invariant
            i <= manifest.repos.len(),
            forall|j: int| 0 <= j < i ==> repo_names(manifest.repos@)[j] != name@,
        decreases manifest.repos.len() - i,
    {
        if str_eq(manifest.repos[i].name.as_str(), name) {
            assert(repo_names(manifest.repos@)[i as int] == name@);
            return true;
        }
        i += 1;
    }
    false
}

/// Resolve the repos `command` acts on.
pub fn resolve(
    command: &str,
    on: Option<&str>,
    manifest: &Manifest,
    current_repo: Option<&str>,
    policy: ScopePolicy,
) -> (r: Result<Option<String>, String>)
    ensures
        match (r, resolve_spec(command@, match on { Some(n) => Some(n@), None => None },
            manifest.repos@, match current_repo { Some(c) => Some(c@), None => None }, policy)) {
            (Ok(Some(a)), Ok(Some(b))) => a@ == b,
            (Ok(None), Ok(None)) => true,
            (Err(a), Err(b)) => a@ == b,
            _ => false,
        },
{
    match on {
        Some(n) => {
            if declares(manifest, n) {
                Ok(Some(String::from_str(n)))
            } else {
                let mut msg = String::from_str(command);
                msg.append(": '--on ");
                msg.append(n);
                msg.append("' does not match any repo declared in the manifest.\n  ");
                msg.append(manifest.known_list().as_str());
                Err(msg)
            }
        },
        None => match (policy, current_repo) {
            (ScopePolicy::SpatialFallback, Some(c)) => {
                if declares(manifest, c) {
                    Ok(Some(String::from_str(c)))
                } else {
                    Ok(None)
                }
            },
            _ => Ok(None),
        },
    }
}

/// `name` is among the repos of `scope`.
pub open spec fn in_scope_spec(scope: Option<Seq<char>>, name: Seq<char>) -> bool {
    match scope {
        Some(n) => n == name,
        None => true,
    }
}

pub fn in_scope(scope: &Option<String>, name: &str) -> (r: bool)
    ensures
        r == in_scope_spec(match scope { Some(s) => Some(s@), None => None }, name@),
{
    match scope {
        Some(s) => str_eq(s.as_str(), name),
        None => true,
    }
}

} // verus!
